//! Bounded short-link resolution: the redirect policy (follow at most five
//! hops, stop at the canonical catalog host) and its chain model. The HTTP
//! fetch itself happens outside; each redirect target is judged here, and a
//! whole observed chain can be replayed through the same policy.

use vstd::prelude::*;
use vstd::string::*;

use crate::pattern::{is_word_char, lit_at};

verus! {

/// Why a short-link resolution failed.
#[derive(Clone, Copy, PartialEq, Eq, Debug)]
pub enum ResolveError {
    /// The redirect chain exceeded the hop cap.
    TooManyRedirects,
}

impl ResolveError {
    /// The human-readable description of this error.
    pub fn message(&self) -> (r: String)
        ensures
            r@ == "too many redirects"@,
    {
        String::from_str("too many redirects")
    }
}

/// What the redirect policy says about one redirect target.
#[derive(Clone, Copy, PartialEq, Eq, Debug)]
pub enum RedirectDecision {
    Follow,
    Stop,
    Error,
}

/// The host at which following stops: the canonical catalog domain.
pub open spec fn spec_is_stop_host(h: Seq<char>) -> bool {
    h == "spotify.com"@
}

/// One step of the bounded policy: `previous` already-performed requests and
/// the redirect target's host decide whether to follow, stop, or fail.
pub open spec fn spec_redirect_decision(previous: int, host: Option<Seq<char>>) -> RedirectDecision {
    if previous > 5 {
        RedirectDecision::Error
    } else if host matches Some(h) && spec_is_stop_host(h) {
        RedirectDecision::Stop
    } else {
        RedirectDecision::Follow
    }
}

/// The spec-level view of an optional host string.
pub open spec fn spec_opt_view(o: Option<String>) -> Option<Seq<char>> {
    match o {
        Some(s) => Some(s@),
        None => None::<Seq<char>>,
    }
}

/// Judges one redirect target under the bounded policy: fail past five
/// already-performed requests, stop at the canonical catalog host, follow
/// otherwise.
pub fn redirect_decision(previous: usize, host: &Option<String>) -> (d: RedirectDecision)
    ensures
        d == spec_redirect_decision(previous as int, spec_opt_view(*host)),
{
    if previous > 5 {
        RedirectDecision::Error
    } else {
        let stop = String::from_str("spotify.com");
        match host {
            Some(h) => {
                if *h == stop {
                    RedirectDecision::Stop
                } else {
                    RedirectDecision::Follow
                }
            },
            None => RedirectDecision::Follow,
        }
    }
}

/// A character that ends the host part of a URL.
pub open spec fn is_host_end_char(c: char) -> bool {
    c == '/' || c == ':' || c == '?' || c == '#'
}

/// First index at or after `j` that ends a host.
pub open spec fn spec_host_end(s: Seq<char>, j: int) -> int
    decreases s.len() - j,
{
    if j < 0 || j >= s.len() {
        j
    } else if is_host_end_char(s[j]) {
        j
    } else {
        spec_host_end(s, j + 1)
    }
}

/// Leftmost occurrence of `lit` at or after `i`.
pub open spec fn first_lit_from(s: Seq<char>, lit: Seq<char>, i: int) -> Option<int>
    decreases s.len() - i,
{
    if i < 0 || i + lit.len() > s.len() {
        None::<int>
    } else if lit_at(s, i, lit) {
        Some(i)
    } else {
        first_lit_from(s, lit, i + 1)
    }
}

/// The host part of a URL: what stands between `://` and the next delimiter.
pub open spec fn spec_host_of(url: Seq<char>) -> Option<Seq<char>> {
    match first_lit_from(url, "://"@, 0) {
        None => None::<Seq<char>>,
        Some(i) => Some(url.subrange(i + 3, spec_host_end(url, i + 3))),
    }
}

proof fn lemma_host_end_is(s: Seq<char>, j: int, k: int)
    requires
        0 <= j <= k <= s.len(),
        forall|t: int| j <= t < k ==> !is_host_end_char(s[t]),
        k == s.len() || is_host_end_char(s[k]),
    ensures
        spec_host_end(s, j) == k,
    decreases k - j,
{
    if j < k {
        lemma_host_end_is(s, j + 1, k);
    }
}

proof fn lemma_first_lit_prefix(s: Seq<char>, lit: Seq<char>, i: int)
    requires
        0 <= i <= s.len(),
        forall|j: int| 0 <= j < i ==> !lit_at(s, j, lit),
    ensures
        first_lit_from(s, lit, 0) == first_lit_from(s, lit, i),
    decreases i,
{
    if i > 0 {
        lemma_first_lit_prefix(s, lit, i - 1);
        if i - 1 + lit.len() > s.len() {
            assert(i + lit.len() > s.len());
        }
    }
}

fn host_end_char(c: char) -> (b: bool)
    ensures
        b == is_host_end_char(c),
{
    c == '/' || c == ':' || c == '?' || c == '#'
}

/// Extracts the host part of a URL in the plain shapes short links use:
/// the text between `://` and the next `/`, `:`, `?` or `#`.
pub fn host_of(url: &str) -> (r: Option<String>)
    ensures
        spec_opt_view(r) == spec_host_of(url@),
{
    let n = url.unicode_len();
    proof {
        reveal_strlit("://");
    }
    if n >= 3 {
        let mut i: usize = 0;
        while i <= n - 3
            invariant
                n == url@.len(),
                3 <= n,
                i <= n,
                forall|j: int| 0 <= j < i ==> !lit_at(url@, j, "://"@),
            decreases n - i,
        {
            proof {
                reveal_strlit("://");
            }
            let c0 = url.get_char(i);
            let c1 = url.get_char(i + 1);
            let c2 = url.get_char(i + 2);
            if c0 == ':' && c1 == '/' && c2 == '/' {
                proof {
                    assert(lit_at(url@, i as int, "://"@));
                    lemma_first_lit_prefix(url@, "://"@, i as int);
                }
                let hs = i + 3;
                let mut k: usize = hs;
                while k < n && !host_end_char(url.get_char(k))
                    invariant
                        hs <= k <= n,
                        n == url@.len(),
                        forall|t: int| hs <= t < k ==> !is_host_end_char(url@[t]),
                    decreases n - k,
                {
                    k += 1;
                }
                proof {
                    lemma_host_end_is(url@, hs as int, k as int);
                }
                return Some(url.substring_char(hs, k).to_owned());
            }
            proof {
                let w: int = if c0 != ':' {
                    0
                } else if c1 != '/' {
                    1
                } else {
                    2
                };
                assert(url@[i as int + w] != "://"@[w]);
                assert(!lit_at(url@, i as int, "://"@));
            }
            i += 1;
        }
        proof {
            assert forall|j: int| 0 <= j < url@.len() implies !lit_at(url@, j, "://"@) by {
                if j >= i {
                    assert(j + 3 > url@.len());
                }
            }
            lemma_first_lit_prefix(url@, "://"@, url@.len() as int);
        }
    }
    None
}

/// Whether following stops at this redirect target: its host is the
/// canonical catalog host.
pub open spec fn spec_hop_is_stop(u: Seq<char>) -> bool {
    match spec_host_of(u) {
        Some(h) => spec_is_stop_host(h),
        None => false,
    }
}

/// The result of resolving from hop `i` of a redirect chain: the first
/// canonical-host target within the cap, the chain's last URL when the chain
/// ends uneventfully, or failure past the cap.
pub open spec fn spec_resolve_from(start: Seq<char>, hops: Seq<Seq<char>>, i: int) -> Result<
    Seq<char>,
    ResolveError,
>
    decreases hops.len() - i,
{
    if i < 0 || i >= hops.len() {
        Ok(
            if i <= 0 {
                start
            } else {
                hops[i - 1]
            },
        )
    } else if i >= 5 {
        Err(ResolveError::TooManyRedirects)
    } else if spec_hop_is_stop(hops[i]) {
        Ok(hops[i])
    } else {
        spec_resolve_from(start, hops, i + 1)
    }
}

/// The result of resolving a whole redirect chain that begins at `start`.
pub open spec fn spec_resolve(start: Seq<char>, hops: Seq<Seq<char>>) -> Result<
    Seq<char>,
    ResolveError,
> {
    spec_resolve_from(start, hops, 0)
}

/// Replays an observed redirect chain through the bounded policy: `hops[i]`
/// is the target of the `i`-th redirect after the initial request to `start`.
pub fn follow_redirects(start: &String, hops: &Vec<String>) -> (r: Result<String, ResolveError>)
    ensures
        (r is Ok) == (spec_resolve(start@, hops.deep_view()) is Ok),
        r matches Ok(u) ==> spec_resolve(start@, hops.deep_view()) == Ok::<_, ResolveError>(u@),
        r is Err ==> r matches Err(ResolveError::TooManyRedirects),
{
    let ghost dv = hops.deep_view();
    let n = hops.len();
    let mut i: usize = 0;
    while i < n
        invariant
            i <= n,
            n == dv.len(),
            dv == hops.deep_view(),
            spec_resolve_from(start@, dv, 0) == spec_resolve_from(start@, dv, i as int),
        decreases n - i,
    {
        let host = host_of(hops[i].as_str());
        let d = redirect_decision(i + 1, &host);
        match d {
            RedirectDecision::Error => {
                return Err(ResolveError::TooManyRedirects);
            },
            RedirectDecision::Stop => {
                return Ok(hops[i].clone());
            },
            RedirectDecision::Follow => {
                i += 1;
            },
        }
    }
    if n == 0 {
        Ok(start.clone())
    } else {
        Ok(hops[n - 1].clone())
    }
}

/// A chain of at most five hops whose last target is at the canonical host,
/// and whose earlier targets are not, resolves to that last target.
pub proof fn lemma_chain_within_cap_resolves(start: Seq<char>, hops: Seq<Seq<char>>)
    requires
        1 <= hops.len() <= 5,
        forall|j: int| 0 <= j < hops.len() - 1 ==> !spec_hop_is_stop(hops[j]),
        spec_hop_is_stop(hops.last()),
    ensures
        spec_resolve(start, hops) == Ok::<_, ResolveError>(hops.last()),
{
    lemma_chain_within_cap_resolves_from(start, hops, 0);
}

proof fn lemma_chain_within_cap_resolves_from(start: Seq<char>, hops: Seq<Seq<char>>, i: int)
    requires
        1 <= hops.len() <= 5,
        0 <= i <= hops.len() - 1,
        forall|j: int| 0 <= j < hops.len() - 1 ==> !spec_hop_is_stop(hops[j]),
        spec_hop_is_stop(hops.last()),
    ensures
        spec_resolve_from(start, hops, i) == Ok::<_, ResolveError>(hops.last()),
    decreases hops.len() - i,
{
    if i < hops.len() - 1 {
        lemma_chain_within_cap_resolves_from(start, hops, i + 1);
    }
}

/// The canonical track URL of a word-character identifier has host
/// `open.spotify.com`: a redirect to it is not a stop target, and following
/// runs on to the end of the chain.
pub proof fn lemma_track_url_not_stop(id: Seq<char>, https: bool)
    requires
        id.len() > 0,
        forall|k: int| 0 <= k < id.len() ==> is_word_char(id[k]),
    ensures
        ({
            let u = (if https {
                "https://open.spotify.com/track/"@
            } else {
                "http://open.spotify.com/track/"@
            }) + id;
            spec_host_of(u) == Some("open.spotify.com"@) && !spec_hop_is_stop(u)
        }),
{
    reveal_strlit("https://open.spotify.com/track/");
    reveal_strlit("http://open.spotify.com/track/");
    reveal_strlit("://");
    reveal_strlit("open.spotify.com");
    reveal_strlit("spotify.com");
    let p = if https {
        "https://open.spotify.com/track/"@
    } else {
        "http://open.spotify.com/track/"@
    };
    let sl: int = if https {
        5
    } else {
        4
    };
    let s = p + id;
    assert forall|j: int| 0 <= j < sl implies !lit_at(s, j, "://"@) by {
        assert(s[j] == p[j]);
        assert(p[j] != ':');
        assert(s[j + 0] != "://"@[0]);
    }
    assert(lit_at(s, sl, "://"@)) by {
        assert(s[sl] == p[sl]);
        assert(s[sl + 1] == p[sl + 1]);
        assert(s[sl + 2] == p[sl + 2]);
    }
    lemma_first_lit_prefix(s, "://"@, sl);
    assert(first_lit_from(s, "://"@, sl) == Some(sl));
    let hs = sl + 3;
    assert forall|t: int| hs <= t < hs + 16 implies !is_host_end_char(s[t]) by {
        assert(s[t] == p[t]);
    }
    assert(s[hs + 16] == p[hs + 16]);
    assert(is_host_end_char(s[hs + 16]));
    lemma_host_end_is(s, hs, hs + 16);
    assert(s.subrange(hs, hs + 16) =~= "open.spotify.com"@);
    assert(!spec_is_stop_host("open.spotify.com"@));
}

/// A chain of at most five hops with no stop target resolves to its last
/// URL, or to the start URL when there is no hop at all.
pub proof fn lemma_chain_without_stop_resolves(start: Seq<char>, hops: Seq<Seq<char>>)
    requires
        hops.len() <= 5,
        forall|j: int| 0 <= j < hops.len() ==> !spec_hop_is_stop(hops[j]),
    ensures
        spec_resolve(start, hops) == Ok::<_, ResolveError>(
            if hops.len() == 0 {
                start
            } else {
                hops.last()
            },
        ),
{
    lemma_chain_without_stop_resolves_from(start, hops, 0);
}

proof fn lemma_chain_without_stop_resolves_from(start: Seq<char>, hops: Seq<Seq<char>>, i: int)
    requires
        hops.len() <= 5,
        0 <= i <= hops.len(),
        forall|j: int| 0 <= j < hops.len() ==> !spec_hop_is_stop(hops[j]),
    ensures
        spec_resolve_from(start, hops, i) == Ok::<_, ResolveError>(
            if hops.len() == 0 {
                start
            } else {
                hops.last()
            },
        ),
    decreases hops.len() - i,
{
    if i < hops.len() {
        lemma_chain_without_stop_resolves_from(start, hops, i + 1);
    }
}

/// A chain whose first five targets are all away from the canonical host
/// fails with `TooManyRedirects`, wherever it would have ended.
pub proof fn lemma_chain_past_cap_fails(start: Seq<char>, hops: Seq<Seq<char>>)
    requires
        hops.len() >= 6,
        forall|j: int| 0 <= j < 5 ==> !spec_hop_is_stop(hops[j]),
    ensures
        spec_resolve(start, hops) == Err::<Seq<char>, _>(ResolveError::TooManyRedirects),
{
    lemma_chain_past_cap_fails_from(start, hops, 0);
}

proof fn lemma_chain_past_cap_fails_from(start: Seq<char>, hops: Seq<Seq<char>>, i: int)
    requires
        hops.len() >= 6,
        0 <= i <= 5,
        forall|j: int| 0 <= j < 5 ==> !spec_hop_is_stop(hops[j]),
    ensures
        spec_resolve_from(start, hops, i) == Err::<Seq<char>, _>(ResolveError::TooManyRedirects),
    decreases 5 - i,
{
    if i < 5 {
        lemma_chain_past_cap_fails_from(start, hops, i + 1);
    }
}

} // verus!
