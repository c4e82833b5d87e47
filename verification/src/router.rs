//! The event router: classifies each inbound event by its originating chat,
//! thread, privacy, kind and the actor's dialogue state, and names exactly
//! one handler. Button presses from outside the voting scope are ignored
//! without any reply.

use vstd::prelude::*;

use crate::dialogue::State;
use vstd::string::*;
use crate::spotify::{msg_is_spotify_link, spec_is_spotify_link};

verus! {

/// The single configured voting surface: one chat, optionally one thread.
#[derive(Clone, Copy, Debug)]
pub struct ChatScope {
    pub chat_id: i64,
    pub thread_id: Option<i32>,
}

/// The commands the transport recognizes.
#[derive(Clone, Copy, PartialEq, Eq, Debug)]
pub enum Command {
    /// Show the command overview.
    Help,
    /// Begin the login dialogue (voting scope only).
    SpotifyLogin,
    /// Show the chat and thread identity.
    Id,
}

/// One inbound event, as plain values: a recognized command, free text, or a
/// button press.
#[derive(Clone, Debug)]
pub enum Event {
    Command { chat_id: i64, thread_id: Option<i32>, is_private: bool, command: Command },
    Text { chat_id: i64, thread_id: Option<i32>, is_private: bool, text: String },
    Callback { chat_id: Option<i64>, payload: Option<String> },
}

/// The one handler an event is dispatched to.
#[derive(Clone, Copy, PartialEq, Eq, Debug)]
pub enum Route {
    /// The approval workflow's callback handler.
    HandleCallback,
    /// The command overview.
    Help,
    /// The login command.
    SpotifyLogin,
    /// The login-completion handler (any message while a code is awaited).
    LoginText,
    /// The chat/thread introspection command.
    Id,
    /// The track-request handler.
    RequestTrack,
    /// The generic usage hint.
    UsageHint,
    /// No handler; no reply.
    Ignore,
}

fn command_sep(c: char) -> (b: bool)
    ensures
        b == is_command_sep(c),
{
    c == ' ' || c == '\t' || c == '\n' || c == '\r'
}

/// A character that ends a command token.
pub open spec fn is_command_sep(c: char) -> bool {
    c == ' ' || c == '\t' || c == '\n' || c == '\r'
}

/// First index at or after `j` that ends the command token.
pub open spec fn spec_token_end(s: Seq<char>, j: int) -> int
    decreases s.len() - j,
{
    if j < 0 || j >= s.len() {
        j
    } else if is_command_sep(s[j]) {
        j
    } else {
        spec_token_end(s, j + 1)
    }
}

/// First `@` at or after `j` but before `te`, or `te` when there is none:
/// the end of the command's name, before any addressed bot handle.
pub open spec fn spec_name_end(s: Seq<char>, j: int, te: int) -> int
    decreases te - j,
{
    if j < 0 || j >= te {
        te
    } else if s[j] == '@' {
        j
    } else {
        spec_name_end(s, j + 1, te)
    }
}

/// The command a message text carries: a leading `/`, then the name up to
/// whitespace or an `@` handle; `help`, `spotifylogin` and `id` are known.
pub open spec fn spec_parse_command(s: Seq<char>) -> Option<Command> {
    if s.len() == 0 || s[0] != '/' {
        None::<Command>
    } else {
        let te = spec_token_end(s, 1);
        let name = s.subrange(1, spec_name_end(s, 1, te));
        if name == "help"@ {
            Some(Command::Help)
        } else if name == "spotifylogin"@ {
            Some(Command::SpotifyLogin)
        } else if name == "id"@ {
            Some(Command::Id)
        } else {
            None::<Command>
        }
    }
}

proof fn lemma_token_end_is(s: Seq<char>, j: int, k: int)
    requires
        0 <= j <= k <= s.len(),
        forall|t: int| j <= t < k ==> !is_command_sep(s[t]),
        k == s.len() || is_command_sep(s[k]),
    ensures
        spec_token_end(s, j) == k,
    decreases k - j,
{
    if j < k {
        lemma_token_end_is(s, j + 1, k);
    }
}

proof fn lemma_name_end_is(s: Seq<char>, j: int, te: int, k: int)
    requires
        0 <= j <= k <= te,
        forall|t: int| j <= t < k ==> s[t] != '@',
        k == te || s[k] == '@',
    ensures
        spec_name_end(s, j, te) == k,
    decreases k - j,
{
    if j < k {
        lemma_name_end_is(s, j + 1, te, k);
    }
}

fn token_bounds(text: &str) -> (r: (usize, usize))
    requires
        text@.len() >= 1,
    ensures
        r.0 as int == spec_token_end(text@, 1),
        r.1 as int == spec_name_end(text@, 1, r.0 as int),
        1 <= r.1 <= r.0 <= text@.len(),
{
    let n = text.unicode_len();
    let mut te: usize = 1;
    while te < n && !command_sep(text.get_char(te))
        invariant
            1 <= te <= n,
            n == text@.len(),
            forall|t: int| 1 <= t < te ==> !is_command_sep(text@[t]),
        decreases n - te,
    {
        te += 1;
    }
    proof {
        lemma_token_end_is(text@, 1, te as int);
    }
    let mut ne: usize = 1;
    while ne < te && text.get_char(ne) != '@'
        invariant
            1 <= ne <= te <= n,
            n == text@.len(),
            forall|t: int| 1 <= t < ne ==> text@[t] != '@',
        decreases te - ne,
    {
        ne += 1;
    }
    proof {
        lemma_name_end_is(text@, 1, te as int, ne as int);
    }
    (te, ne)
}

/// Recognizes the command a message text carries, if any.
pub fn parse_command(text: &str) -> (r: Option<Command>)
    ensures
        r == spec_parse_command(text@),
{
    let n = text.unicode_len();
    if n == 0 || text.get_char(0) != '/' {
        return None;
    }
    let (_te, ne) = token_bounds(text);
    let name = text.substring_char(1, ne).to_owned();
    if name == String::from_str("help") {
        Some(Command::Help)
    } else if name == String::from_str("spotifylogin") {
        Some(Command::SpotifyLogin)
    } else if name == String::from_str("id") {
        Some(Command::Id)
    } else {
        None
    }
}

/// The `@handle` of a command token (`/name@handle`), if one is present.
pub open spec fn spec_command_handle(s: Seq<char>) -> Option<Seq<char>> {
    if s.len() == 0 || s[0] != '/' {
        None::<Seq<char>>
    } else {
        let te = spec_token_end(s, 1);
        let ne = spec_name_end(s, 1, te);
        if ne < te {
            Some(s.subrange(ne + 1, te))
        } else {
            None::<Seq<char>>
        }
    }
}

/// Two characters equal up to ASCII case.
pub open spec fn ascii_case_eq(a: char, b: char) -> bool {
    ||| a == b
    ||| 'A' as u32 <= a as u32 && a as u32 <= 'Z' as u32 && b as u32 == a as u32 + 32
    ||| 'A' as u32 <= b as u32 && b as u32 <= 'Z' as u32 && a as u32 == b as u32 + 32
}

/// Two texts equal up to ASCII case.
pub open spec fn spec_ascii_case_eq_seq(a: Seq<char>, b: Seq<char>) -> bool {
    a.len() == b.len() && forall|i: int| 0 <= i < a.len() ==> ascii_case_eq(a[i], b[i])
}

/// Whether a command text is addressed to a bot other than `me`: its token
/// carries an `@handle` that is not `me` (ASCII case ignored). Such a
/// command is another bot's, and its message counts as plain text.
pub fn command_for_other_bot(text: &str, me: &str) -> (b: bool)
    ensures
        b == (match spec_command_handle(text@) {
            None => false,
            Some(h) => !spec_ascii_case_eq_seq(h, me@),
        }),
{
    let n = text.unicode_len();
    if n == 0 || text.get_char(0) != '/' {
        return false;
    }
    let (te, ne) = token_bounds(text);
    if ne >= te {
        return false;
    }
    let ghost h = text@.subrange(ne + 1, te as int);
    let hs = ne + 1;
    let m = me.unicode_len();
    if te - hs != m {
        return true;
    }
    let mut i: usize = 0;
    while i < m
        invariant
            i <= m,
            m == me@.len(),
            hs + m == te,
            te <= n,
            n == text@.len(),
            1 <= hs,
            h == text@.subrange(hs as int, te as int),
            spec_command_handle(text@) == Some(h),
            forall|k: int| 0 <= k < i ==> ascii_case_eq(text@[hs + k], me@[k]),
        decreases m - i,
    {
        let a = text.get_char(hs + i);
        let b = me.get_char(i);
        let au: u32 = a as u32;
        let bu: u32 = b as u32;
        let same = a == b || ('A' as u32 <= au && au <= 'Z' as u32 && bu == au + 32) || (
        'A' as u32 <= bu && bu <= 'Z' as u32 && au == bu + 32);
        if !same {
            proof {
                assert(h[i as int] == text@[hs + i]);
                assert(!ascii_case_eq(h[i as int], me@[i as int]));
            }
            return true;
        }
        i += 1;
    }
    proof {
        assert forall|k: int| 0 <= k < m implies ascii_case_eq(h[k], me@[k]) by {
            assert(h[k] == text@[hs + k]);
        }
        assert(spec_ascii_case_eq_seq(h, me@));
    }
    false
}

/// Whether an event from this chat and thread originates in the voting scope.
pub open spec fn spec_is_voting_chat(chat_id: i64, thread_id: Option<i32>, cfg: ChatScope) -> bool {
    chat_id == cfg.chat_id && thread_id == cfg.thread_id
}

pub fn is_voting_chat(chat_id: i64, thread_id: Option<i32>, cfg: &ChatScope) -> (b: bool)
    ensures
        b == spec_is_voting_chat(chat_id, thread_id, *cfg),
{
    let threads_match = match (thread_id, cfg.thread_id) {
        (None, None) => true,
        (Some(a), Some(b)) => a == b,
        _ => false,
    };
    chat_id == cfg.chat_id && threads_match
}

/// The routing decision, with the precedence the workflow requires: voting-
/// scope button presses first; inside the scope, the login dialogue swallows
/// every message while a code is awaited, then the scope's commands; the
/// commands open to everyone; then private track requests; everything else
/// from outside the scope gets the usage hint, and the scope's own free text
/// at rest gets none.
pub open spec fn spec_route(cfg: ChatScope, ev: Event, st: State) -> Route {
    match ev {
        Event::Callback { chat_id, payload } => {
            if chat_id == Some(cfg.chat_id) {
                Route::HandleCallback
            } else {
                Route::Ignore
            }
        },
        Event::Command { chat_id, thread_id, is_private, command } => {
            let scoped = spec_is_voting_chat(chat_id, thread_id, cfg);
            if scoped && st is SpotifyLogin {
                Route::LoginText
            } else if scoped && st is Start && command is SpotifyLogin {
                Route::SpotifyLogin
            } else if command is Help {
                Route::Help
            } else if command is Id {
                Route::Id
            } else if !scoped {
                Route::UsageHint
            } else {
                Route::Ignore
            }
        },
        Event::Text { chat_id, thread_id, is_private, text } => {
            let scoped = spec_is_voting_chat(chat_id, thread_id, cfg);
            if scoped && st is SpotifyLogin {
                Route::LoginText
            } else if !scoped && is_private && spec_is_spotify_link(text@) {
                Route::RequestTrack
            } else if !scoped {
                Route::UsageHint
            } else {
                Route::Ignore
            }
        },
    }
}

/// Routes one event. A button press whose chat is not the voting chat is
/// ignored: no handler runs and no reply is produced.
pub fn route_event(cfg: &ChatScope, ev: &Event, st: State) -> (r: Route)
    ensures
        r == spec_route(*cfg, *ev, st),
        ev matches Event::Callback { chat_id, payload } && chat_id != Some(cfg.chat_id) ==> r
            is Ignore,
{
    match ev {
        Event::Callback { chat_id, payload } => {
            let hit = match chat_id {
                Some(c) => *c == cfg.chat_id,
                None => false,
            };
            if hit {
                Route::HandleCallback
            } else {
                Route::Ignore
            }
        },
        Event::Command { chat_id, thread_id, is_private, command } => {
            let scoped = is_voting_chat(*chat_id, *thread_id, cfg);
            if scoped && matches!(st, State::SpotifyLogin) {
                Route::LoginText
            } else if scoped && matches!(st, State::Start) && matches!(
                command,
                Command::SpotifyLogin,
            ) {
                Route::SpotifyLogin
            } else if matches!(command, Command::Help) {
                Route::Help
            } else if matches!(command, Command::Id) {
                Route::Id
            } else if !scoped {
                Route::UsageHint
            } else {
                Route::Ignore
            }
        },
        Event::Text { chat_id, thread_id, is_private, text } => {
            let scoped = is_voting_chat(*chat_id, *thread_id, cfg);
            if scoped && matches!(st, State::SpotifyLogin) {
                Route::LoginText
            } else if !scoped && *is_private && msg_is_spotify_link(text.as_str()) {
                Route::RequestTrack
            } else if !scoped {
                Route::UsageHint
            } else {
                Route::Ignore
            }
        },
    }
}

} // verus!
