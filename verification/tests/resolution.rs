//! Short-link resolution under the bounded redirect policy.

use tg_music_bot::resolver::{
    follow_redirects, host_of, redirect_decision, RedirectDecision, ResolveError,
};
use tg_music_bot::spotify::SpotifyTrackId;

fn chain(urls: &[&str]) -> Vec<String> {
    urls.iter().map(|u| u.to_string()).collect()
}

#[test]
fn host_extraction() {
    assert_eq!(host_of("https://spotify.link/abc"), Some("spotify.link".to_string()));
    assert_eq!(host_of("http://a.example:8080/x"), Some("a.example".to_string()));
    assert_eq!(host_of("https://open.spotify.com/track/x?si=1"), Some("open.spotify.com".to_string()));
    assert_eq!(host_of("https://bare.example"), Some("bare.example".to_string()));
    assert_eq!(host_of("no scheme here"), None);
}

#[test]
fn redirect_policy_steps() {
    let stop = Some("spotify.com".to_string());
    let other = Some("t.example".to_string());
    assert_eq!(redirect_decision(1, &other), RedirectDecision::Follow);
    assert_eq!(redirect_decision(1, &None), RedirectDecision::Follow);
    assert_eq!(redirect_decision(5, &stop), RedirectDecision::Stop);
    assert_eq!(redirect_decision(5, &other), RedirectDecision::Follow);
    assert_eq!(redirect_decision(6, &other), RedirectDecision::Error);
    assert_eq!(redirect_decision(6, &stop), RedirectDecision::Error);
}

#[test]
fn three_hop_chain_resolves_to_the_track() {
    let start = "https://spotify.link/shorty".to_string();
    let hops = chain(&[
        "https://redir.example/1",
        "https://t.example/2",
        "https://open.spotify.com/track/xyz",
    ]);
    let url = follow_redirects(&start, &hops).unwrap();
    assert_eq!(url, "https://open.spotify.com/track/xyz");
    let t = SpotifyTrackId::from_url(start, Some(url)).unwrap();
    assert_eq!(t.track_id, "xyz");
}

#[test]
fn five_hop_chain_still_resolves() {
    let start = "https://spotify.link/s".to_string();
    let hops = chain(&[
        "https://a.example/1",
        "https://b.example/2",
        "https://c.example/3",
        "https://d.example/4",
        "https://open.spotify.com/track/edge5",
    ]);
    let url = follow_redirects(&start, &hops).unwrap();
    assert_eq!(url, "https://open.spotify.com/track/edge5");
}

#[test]
fn six_hop_chain_fails_with_too_many_redirects() {
    let start = "https://spotify.link/s".to_string();
    let hops = chain(&[
        "https://a.example/1",
        "https://b.example/2",
        "https://c.example/3",
        "https://d.example/4",
        "https://e.example/5",
        "https://open.spotify.com/track/late6",
    ]);
    let e = follow_redirects(&start, &hops).unwrap_err();
    assert_eq!(e, ResolveError::TooManyRedirects);
    assert_eq!(e.message(), "too many redirects");
}

#[test]
fn following_stops_at_the_catalog_host() {
    let start = "https://spotify.link/s".to_string();
    let hops = chain(&[
        "https://a.example/1",
        "https://spotify.com/track/abc",
        "https://never.reached/",
    ]);
    let url = follow_redirects(&start, &hops).unwrap();
    assert_eq!(url, "https://spotify.com/track/abc");
}

#[test]
fn chain_without_redirects_keeps_the_start_url() {
    let start = "https://open.spotify.com/track/direct".to_string();
    let url = follow_redirects(&start, &Vec::new()).unwrap();
    assert_eq!(url, start);
}
