//! Track identifiers and the link grammar of the catalog: the canonical
//! track URL, the short-link form, and the URN used in callback payloads,
//! together with track metadata rendering and the identifier validity rule.

use vstd::prelude::*;
use vstd::string::*;

use crate::pattern::{
    find_match, find_pat, find_token, first_pat, is_word_char, lit_at, pat_at, pat_match,
    pat_run_start, pat_token,
};
use crate::pattern::lemma_run_end_is;
use crate::resolver::{
    lemma_chain_without_stop_resolves, lemma_track_url_not_stop, spec_hop_is_stop, spec_resolve,
    ResolveError,
};
use crate::render::{anchor, i64_to_dec, join_strings, join_with, spec_anchor, spec_dec,
    spec_dec_signed, u64_to_dec};

verus! {

/// The URN form of a track identifier: `spotify:track:<id>`.
pub open spec fn spec_urn_of(id: Seq<char>) -> Seq<char> {
    "spotify:track:"@ + id
}

/// The canonical web URL form of a track identifier.
pub open spec fn spec_url_of(id: Seq<char>) -> Seq<char> {
    "http://open.spotify.com/track/"@ + id
}

/// The identifier of the leftmost canonical track URL contained in `s`.
pub open spec fn spec_canonical_id(s: Seq<char>) -> Option<Seq<char>> {
    pat_token(s, "http://open.spotify.com/track/"@, "https://open.spotify.com/track/"@)
}

/// The identifier of the leftmost track URN contained in `s`.
pub open spec fn spec_urn_id(s: Seq<char>) -> Option<Seq<char>> {
    pat_token(s, "spotify:track:"@, "spotify:track:"@)
}

/// The leftmost short link contained in `s`, whole.
pub open spec fn spec_short_link(s: Seq<char>) -> Option<Seq<char>> {
    pat_match(s, "http://spotify.link/"@, "https://spotify.link/"@)
}

/// Whether `s` contains a catalog link in either accepted host form.
pub open spec fn spec_is_spotify_link(s: Seq<char>) -> bool {
    ||| first_pat(s, "http://open.spotify.com/"@, "https://open.spotify.com/"@) is Some
    ||| first_pat(s, "http://spotify.link/"@, "https://spotify.link/"@) is Some
}

/// A character admitted in a well-formed catalog identifier: ASCII letter or digit.
pub open spec fn is_catalog_id_char(c: char) -> bool {
    ||| 'a' as u32 <= c as u32 && c as u32 <= 'z' as u32
    ||| 'A' as u32 <= c as u32 && c as u32 <= 'Z' as u32
    ||| '0' as u32 <= c as u32 && c as u32 <= '9' as u32
}

/// The catalog's validity rule for track identifiers: every character an
/// ASCII letter or digit.
pub open spec fn spec_valid_track_id(s: Seq<char>) -> bool {
    forall|k: int| 0 <= k < s.len() ==> is_catalog_id_char(s[k])
}

/// Checks the catalog's track-identifier validity rule.
pub fn valid_track_id(id: &str) -> (b: bool)
    ensures
        b == spec_valid_track_id(id@),
{
    let n = id.unicode_len();
    let mut i: usize = 0;
    while i < n
        invariant
            i <= n,
            n == id@.len(),
            forall|k: int| 0 <= k < i ==> is_catalog_id_char(id@[k]),
        decreases n - i,
    {
        let c = id.get_char(i);
        let u: u32 = c as u32;
        let ok = ('a' as u32 <= u && u <= 'z' as u32) || ('A' as u32 <= u && u <= 'Z' as u32) || (
        '0' as u32 <= u && u <= '9' as u32);
        if !ok {
            assert(!is_catalog_id_char(id@[i as int]));
            return false;
        }
        i += 1;
    }
    true
}

/// A resolved reference to one catalog track.
#[derive(Clone, PartialEq, Eq, Debug)]
pub struct SpotifyTrackId {
    pub track_id: String,
}

/// The text a resolution works on: the redirect-resolved URL when a short
/// link was followed, the original text otherwise.
pub open spec fn spec_resolution_text(url: String, resolved: Option<String>) -> Seq<char> {
    match resolved {
        Some(r) => r@,
        None => url@,
    }
}

impl SpotifyTrackId {
    pub fn from_id(id: String) -> (r: Self)
        ensures
            r.track_id@ == id@,
    {
        Self { track_id: id }
    }

    /// Extracts the identifier of the leftmost track URN in `urn`, if any.
    pub fn from_urn(urn: String) -> (r: Option<Self>)
        ensures
            (r is Some) == (spec_urn_id(urn@) is Some),
            r matches Some(t) ==> spec_urn_id(urn@) == Some(t.track_id@),
    {
        match find_token(urn.as_str(), "spotify:track:", "spotify:track:") {
            None => None,
            Some(id) => Some(Self { track_id: id }),
        }
    }

    /// Extracts the identifier of the leftmost canonical track URL in the
    /// resolution text: the redirect-resolved URL when a short link was
    /// followed (`resolved`), the given text otherwise.
    pub fn from_url(url: String, resolved: Option<String>) -> (r: Option<Self>)
        ensures
            (r is Some) == (spec_canonical_id(spec_resolution_text(url, resolved)) is Some),
            r matches Some(t) ==> spec_canonical_id(spec_resolution_text(url, resolved)) == Some(
                t.track_id@,
            ),
    {
        let text: String = match resolved {
            Some(r) => r,
            None => url,
        };
        match find_token(
            text.as_str(),
            "http://open.spotify.com/track/",
            "https://open.spotify.com/track/",
        ) {
            None => None,
            Some(id) => Some(Self { track_id: id }),
        }
    }

    /// The URN form of this track, used in callback payloads.
    pub fn track_urn(&self) -> (r: String)
        ensures
            r@ == spec_urn_of(self.track_id@),
    {
        let s = String::from_str("spotify:track:");
        s.concat(self.track_id.as_str())
    }

    /// The canonical web URL of this track.
    pub fn track_url(&self) -> (r: String)
        ensures
            r@ == spec_url_of(self.track_id@),
    {
        let s = String::from_str("http://open.spotify.com/track/");
        s.concat(self.track_id.as_str())
    }
}

/// Whether a message text contains a catalog link in either accepted host form.
pub fn msg_is_spotify_link(text: &str) -> (b: bool)
    ensures
        b == spec_is_spotify_link(text@),
{
    let open = find_pat(text, "http://open.spotify.com/", "https://open.spotify.com/");
    if open.is_some() {
        return true;
    }
    let short = find_pat(text, "http://spotify.link/", "https://spotify.link/");
    short.is_some()
}

/// The leftmost short link in `text`, whole, ready for an HTTP fetch.
pub fn find_short_link(text: &str) -> (r: Option<String>)
    ensures
        (r is Some) == (spec_short_link(text@) is Some),
        r matches Some(u) ==> spec_short_link(text@) == Some(u@),
{
    find_match(text, "http://spotify.link/", "https://spotify.link/")
}

/// Why a track request could not be prepared or served.
#[derive(Clone, PartialEq, Eq, Debug)]
pub enum FetchTrackError {
    /// The text resolved to no canonical track URL.
    InvalidTrackUrl(String),
    /// The extracted identifier is not a well-formed catalog identifier.
    InvalidTrackUri(String),
    /// The catalog service failed; carries its report.
    SpotifyApiError(String),
}

impl FetchTrackError {
    /// The human-readable description of this error.
    pub fn message(&self) -> (r: String)
        ensures
            self matches FetchTrackError::InvalidTrackUrl(u) ==> r@ == "Invalid track URL: "@
                + u@,
            self matches FetchTrackError::InvalidTrackUri(u) ==> r@ == "Invalid track URI: "@
                + u@,
            self matches FetchTrackError::SpotifyApiError(m) ==> r@ == "Spotify API error: "@
                + m@,
    {
        match self {
            FetchTrackError::InvalidTrackUrl(u) => {
                let s = String::from_str("Invalid track URL: ");
                s.concat(u.as_str())
            },
            FetchTrackError::InvalidTrackUri(u) => {
                let s = String::from_str("Invalid track URI: ");
                s.concat(u.as_str())
            },
            FetchTrackError::SpotifyApiError(m) => {
                let s = String::from_str("Spotify API error: ");
                s.concat(m.as_str())
            },
        }
    }
}

/// Resolves the request text to a validated track reference, or says exactly
/// why it cannot be served: no canonical URL in the text, or an identifier
/// that fails the catalog's validity rule. The catalog lookup itself follows
/// outside, on the `Ok` value.
pub fn prepare_track_fetch(track_url: &String, resolved: Option<String>) -> (r: Result<
    SpotifyTrackId,
    FetchTrackError,
>)
    ensures
        ({
            let text = spec_resolution_text(*track_url, resolved);
            match spec_canonical_id(text) {
                None => r matches Err(FetchTrackError::InvalidTrackUrl(u)) && u@ == track_url@,
                Some(id) => if spec_valid_track_id(id) {
                    r matches Ok(t) && t.track_id@ == id
                } else {
                    r matches Err(FetchTrackError::InvalidTrackUri(u)) && u@ == spec_urn_of(id)
                },
            }
        }),
{
    match SpotifyTrackId::from_url(track_url.clone(), resolved) {
        None => Err(FetchTrackError::InvalidTrackUrl(track_url.clone())),
        Some(t) => {
            if valid_track_id(t.track_id.as_str()) {
                Ok(t)
            } else {
                Err(FetchTrackError::InvalidTrackUri(t.track_urn()))
            }
        },
    }
}

/// What the library reads of one catalog track; fetched on demand, never
/// cached, never mutated after construction.
pub struct TrackMetadata {
    pub name: String,
    pub artists: Vec<String>,
    pub album_name: String,
    pub popularity: u32,
    pub duration_secs: i64,
    pub listen_url: Option<String>,
    pub cover_urls: Vec<String>,
}

/// The duration as `minutes:seconds` (seconds without padding).
pub open spec fn spec_duration_text(secs: int) -> Seq<char> {
    spec_dec_signed(secs / 60) + ":"@ + spec_dec_signed(secs % 60)
}

/// The rendered description of one track, as sent to requester and voters.
pub open spec fn spec_track_text(t: TrackMetadata) -> Seq<char> {
    "🎵 <b>"@ + t.name@ + "</b>\n👥 <b>"@ + join_with(t.artists.deep_view(), ", "@)
        + "</b>\n💿 <b>"@ + t.album_name@ + "</b>\n🔥 "@ + spec_dec(t.popularity as nat)
        + " • ⏱️ "@ + spec_duration_text(t.duration_secs as int) + "\n"@ + (match t.listen_url {
        Some(u) => spec_anchor(u@, "Listen"@),
        None => Seq::<char>::empty(),
    }) + " • "@ + join_with(
        t.cover_urls.deep_view().map_values(|u: Seq<char>| spec_anchor(u, "Cover"@)),
        " "@,
    )
}

pub fn format_track_text(track: &TrackMetadata) -> (r: String)
    requires
        track.duration_secs >= 0,
    ensures
        r@ == spec_track_text(*track),
{
    let mut r = String::from_str("🎵 <b>");
    r.append(track.name.as_str());
    r.append("</b>\n👥 <b>");
    let artists = join_strings(&track.artists, ", ");
    r.append(artists.as_str());
    r.append("</b>\n💿 <b>");
    r.append(track.album_name.as_str());
    r.append("</b>\n🔥 ");
    let pop = u64_to_dec(track.popularity as u64);
    r.append(pop.as_str());
    r.append(" • ⏱️ ");
    let mins = i64_to_dec(track.duration_secs / 60);
    r.append(mins.as_str());
    r.append(":");
    let secs = i64_to_dec(track.duration_secs % 60);
    r.append(secs.as_str());
    r.append("\n");
    match &track.listen_url {
        Some(u) => {
            let a = anchor(u.as_str(), "Listen");
            r.append(a.as_str());
        },
        None => {},
    }
    r.append(" • ");
    let mut cover_links: Vec<String> = Vec::new();
    let mut i: usize = 0;
    while i < track.cover_urls.len()
        invariant
            i <= track.cover_urls.len(),
            cover_links.deep_view() =~= track.cover_urls.deep_view().take(i as int).map_values(
                |u: Seq<char>| spec_anchor(u, "Cover"@),
            ),
        decreases track.cover_urls.len() - i,
    {
        let a = anchor(track.cover_urls[i].as_str(), "Cover");
        cover_links.push(a);
        proof {
            let cu = track.cover_urls.deep_view();
            assert(cu.take(i + 1) =~= cu.take(i as int).push(cu[i as int]));
            assert(cu.take(i + 1).map_values(|u: Seq<char>| spec_anchor(u, "Cover"@)) =~= cu.take(
                i as int,
            ).map_values(|u: Seq<char>| spec_anchor(u, "Cover"@)).push(
                spec_anchor(cu[i as int], "Cover"@),
            ));
        }
        i += 1;
    }
    proof {
        let cu = track.cover_urls.deep_view();
        assert(cu.take(track.cover_urls.len() as int) =~= cu);
    }
    let covers = join_strings(&cover_links, " ");
    r.append(covers.as_str());
    r
}

/// Every canonical track URL, in either scheme, parses back to exactly its
/// identifier: link resolution is left inverse to URL formation.
pub proof fn lemma_canonical_url_parses(id: Seq<char>)
    requires
        id.len() > 0,
        forall|k: int| 0 <= k < id.len() ==> is_word_char(id[k]),
    ensures
        spec_canonical_id("http://open.spotify.com/track/"@ + id) == Some(id),
        spec_canonical_id("https://open.spotify.com/track/"@ + id) == Some(id),
{
    let p1 = "http://open.spotify.com/track/"@;
    let p2 = "https://open.spotify.com/track/"@;
    reveal_strlit("http://open.spotify.com/track/");
    reveal_strlit("https://open.spotify.com/track/");

    let s1 = p1 + id;
    assert(lit_at(s1, 0, p1));
    assert(s1[p1.len() as int] == id[0]);
    assert(pat_at(s1, 0, p1, p2));
    assert(first_pat(s1, p1, p2) == Some(0int));
    assert(pat_run_start(s1, 0, p1, p2) == p1.len() as int);
    assert forall|t: int| p1.len() <= t < s1.len() implies is_word_char(s1[t]) by {
        assert(s1[t] == id[t - p1.len()]);
    }
    lemma_run_end_is(s1, p1.len() as int, s1.len() as int);
    assert(s1.subrange(p1.len() as int, s1.len() as int) =~= id);

    let s2 = p2 + id;
    assert(lit_at(s2, 0, p2));
    assert(s2[p2.len() as int] == id[0]);
    assert(pat_at(s2, 0, p1, p2));
    assert(first_pat(s2, p1, p2) == Some(0int));
    assert(s2[4] == 's' && p1[4] == ':');
    assert(!lit_at(s2, 0, p1));
    assert(pat_run_start(s2, 0, p1, p2) == p2.len() as int);
    assert forall|t: int| p2.len() <= t < s2.len() implies is_word_char(s2[t]) by {
        assert(s2[t] == id[t - p2.len()]);
    }
    lemma_run_end_is(s2, p2.len() as int, s2.len() as int);
    assert(s2.subrange(p2.len() as int, s2.len() as int) =~= id);
}

/// URN and URL forms round-trip through the same identifier: parsing the URN
/// of a valid identifier, then forming its URL, then parsing that URL, all
/// yield the identifier itself.
pub proof fn lemma_track_id_round_trip(id: Seq<char>)
    requires
        id.len() > 0,
        forall|k: int| 0 <= k < id.len() ==> is_word_char(id[k]),
    ensures
        spec_urn_id(spec_urn_of(id)) == Some(id),
        spec_canonical_id(spec_url_of(id)) == Some(id),
{
    let p = "spotify:track:"@;
    reveal_strlit("spotify:track:");
    let s = p + id;
    assert(lit_at(s, 0, p));
    assert(s[p.len() as int] == id[0]);
    assert(pat_at(s, 0, p, p));
    assert(first_pat(s, p, p) == Some(0int));
    assert(pat_run_start(s, 0, p, p) == p.len() as int);
    assert forall|t: int| p.len() <= t < s.len() implies is_word_char(s[t]) by {
        assert(s[t] == id[t - p.len()]);
    }
    lemma_run_end_is(s, p.len() as int, s.len() as int);
    assert(s.subrange(p.len() as int, s.len() as int) =~= id);

    lemma_canonical_url_parses(id);
}

/// A short-link chain of at most five hops whose earlier targets do not
/// stop and whose last target is the canonical track URL of an identifier
/// resolves to that URL, which parses back to exactly the identifier.
pub proof fn lemma_short_chain_resolves_track(
    start: Seq<char>,
    hops: Seq<Seq<char>>,
    id: Seq<char>,
    https: bool,
)
    requires
        1 <= hops.len() <= 5,
        forall|j: int| 0 <= j < hops.len() - 1 ==> !spec_hop_is_stop(hops[j]),
        id.len() > 0,
        forall|k: int| 0 <= k < id.len() ==> is_word_char(id[k]),
        hops.last() == (if https {
            "https://open.spotify.com/track/"@
        } else {
            "http://open.spotify.com/track/"@
        }) + id,
    ensures
        spec_resolve(start, hops) == Ok::<_, ResolveError>(hops.last()),
        spec_canonical_id(hops.last()) == Some(id),
{
    lemma_track_url_not_stop(id, https);
    assert(forall|j: int| 0 <= j < hops.len() ==> !spec_hop_is_stop(hops[j]));
    lemma_chain_without_stop_resolves(start, hops);
    lemma_canonical_url_parses(id);
}

} // verus!

