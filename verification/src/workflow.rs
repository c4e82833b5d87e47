//! The approval workflow: composing the requester confirmation and the
//! voting card with its two actions, decoding button-press payloads, and
//! deciding the terminal edit of the origin card on accept and decline.

use vstd::prelude::*;
use vstd::string::*;

use crate::pattern::lit_at;
use crate::render::{spec_dec_signed, i64_to_dec};
use crate::spotify::{
    spec_urn_id, spec_urn_of, spec_url_of, spec_valid_track_id, valid_track_id, SpotifyTrackId,
};

verus! {

/// The display name of an acting user: first name, with the handle when one
/// is set, or a placeholder when the actor is unknown.
pub struct UserInfo {
    pub first_name: String,
    pub username: Option<String>,
}

pub fn format_author(from: Option<&UserInfo>) -> (r: String)
    ensures
        from is None ==> r@ == "Unknown"@,
        from matches Some(u) ==> r@ == (match u.username {
            None => u.first_name@,
            Some(n) => u.first_name@ + " (@"@ + n@ + ")"@,
        }),
{
    match from {
        None => String::from_str("Unknown"),
        Some(u) => {
            match &u.username {
                None => u.first_name.clone(),
                Some(n) => {
                    let mut s = u.first_name.clone();
                    s.append(" (@");
                    s.append(n.as_str());
                    s.append(")");
                    s
                },
            }
        },
    }
}

/// How an outbound message's link preview is shaped.
#[derive(Clone, Debug)]
pub struct LinkPreview {
    pub is_disabled: bool,
    pub url: Option<String>,
    pub prefer_small_media: bool,
    pub prefer_large_media: bool,
    pub show_above_text: bool,
}

/// The preview used for track messages: enabled, above the text, showing the
/// given cover image when there is one.
pub fn link_preview_for_url(url: Option<String>) -> (r: LinkPreview)
    ensures
        !r.is_disabled,
        r.url == url,
        !r.prefer_small_media,
        !r.prefer_large_media,
        r.show_above_text,
{
    LinkPreview {
        is_disabled: false,
        url,
        prefer_small_media: false,
        prefer_large_media: false,
        show_above_text: true,
    }
}

/// One labelled action button with its opaque payload.
#[derive(Clone, Debug)]
pub struct Button {
    pub label: String,
    pub payload: String,
}

/// The outbound voting-surface message for one request: its text and its
/// action buttons.
#[derive(Clone, Debug)]
pub struct VotingCard {
    pub text: String,
    pub buttons: Vec<Vec<Button>>,
}

/// Both messages a successful request produces: the requester's
/// confirmation, the shared link preview, and the voting card.
pub struct RequestMessages {
    pub requester_reply: String,
    pub preview: LinkPreview,
    pub card: VotingCard,
}

/// Composes the messages of one accepted request: the confirmation sent to
/// the requester, and the voting card whose accept action carries the
/// track's URN and whose decline action carries the bare `decline` payload.
pub fn build_request_messages(
    requester: &String,
    track: &SpotifyTrackId,
    track_text: &String,
    cover_url: Option<String>,
) -> (r: RequestMessages)
    ensures
        r.requester_reply@ == "✅ Successfully requested track.\n\n"@ + track_text@,
        !r.preview.is_disabled,
        r.preview.url == cover_url,
        !r.preview.prefer_small_media,
        !r.preview.prefer_large_media,
        r.preview.show_above_text,
        r.card.text@ == "User "@ + requester@ + " requested:\n"@ + track_text@,
        r.card.buttons@.len() == 1,
        r.card.buttons@[0]@.len() == 2,
        r.card.buttons@[0]@[0].label@ == "✅ Add to queue"@,
        r.card.buttons@[0]@[0].payload@ == "accept:"@ + spec_urn_of(track.track_id@),
        r.card.buttons@[0]@[1].label@ == "❌ Decline"@,
        r.card.buttons@[0]@[1].payload@ == "decline"@,
{
    let mut requester_reply = String::from_str("✅ Successfully requested track.\n\n");
    requester_reply.append(track_text.as_str());

    let mut card_text = String::from_str("User ");
    card_text.append(requester.as_str());
    card_text.append(" requested:\n");
    card_text.append(track_text.as_str());

    let mut accept_payload = String::from_str("accept:");
    let urn = track.track_urn();
    accept_payload.append(urn.as_str());

    let accept = Button { label: String::from_str("✅ Add to queue"), payload: accept_payload };
    let decline = Button {
        label: String::from_str("❌ Decline"),
        payload: String::from_str("decline"),
    };
    let row: Vec<Button> = vec![accept, decline];
    let buttons: Vec<Vec<Button>> = vec![row];

    RequestMessages {
        requester_reply,
        preview: link_preview_for_url(cover_url),
        card: VotingCard { text: card_text, buttons },
    }
}

/// The notice sent to the requester when a request cannot be served.
pub fn track_request_failed_reply() -> (r: String)
    ensures
        r@ == "❌ Failed to find track."@,
{
    String::from_str("❌ Failed to find track.")
}

/// The generic hint sent where no other handler applies.
pub fn usage_hint() -> (r: String)
    ensures
        r@ == "Send a Spotify URL."@,
{
    String::from_str("Send a Spotify URL.")
}

/// The reply of the chat/thread introspection command.
pub fn id_reply(chat_id: i64, thread_id: Option<i32>) -> (r: String)
    ensures
        thread_id matches Some(t) ==> r@ == "This chat has ID "@ + spec_dec_signed(chat_id as int)
            + ", thread "@ + spec_dec_signed(t as int),
        thread_id is None ==> r@ == "This chat has ID "@ + spec_dec_signed(chat_id as int),
{
    let mut s = String::from_str("This chat has ID ");
    let c = i64_to_dec(chat_id);
    s.append(c.as_str());
    match thread_id {
        Some(t) => {
            s.append(", thread ");
            let tt = i64_to_dec(t as i64);
            s.append(tt.as_str());
        },
        None => {},
    }
    s
}

/// A decoded button-press payload.
#[derive(Clone, PartialEq, Eq, Debug)]
pub enum CallbackAction {
    /// An accept action carrying the track identifier extracted from its URN.
    Accept { track_id: String },
    /// An accept-shaped payload whose URN did not parse.
    AcceptInvalid,
    /// The stateless decline action.
    Decline,
    /// Anything else; handled as a no-op.
    Unrecognized,
}

/// Decodes a button-press payload once, at the router boundary: an
/// `accept:`-prefixed payload yields the identifier of its URN (or is marked
/// invalid), the exact `decline` payload declines, anything else is
/// unrecognized.
pub fn parse_callback(payload: Option<&String>) -> (r: CallbackAction)
    ensures
        payload is None ==> r is Unrecognized,
        payload matches Some(p) ==> {
            if lit_at(p@, 0, "accept:"@) {
                match spec_urn_id(p@) {
                    Some(id) => r matches CallbackAction::Accept { track_id } && track_id@ == id,
                    None => r is AcceptInvalid,
                }
            } else if p@ == "decline"@ {
                r is Decline
            } else {
                r is Unrecognized
            }
        },
{
    match payload {
        None => CallbackAction::Unrecognized,
        Some(p) => {
            if crate::pattern::starts_with(p.as_str(), "accept:") {
                match SpotifyTrackId::from_urn(p.clone()) {
                    Some(t) => CallbackAction::Accept { track_id: t.track_id },
                    None => CallbackAction::AcceptInvalid,
                }
            } else {
                let decline = String::from_str("decline");
                if *p == decline {
                    CallbackAction::Decline
                } else {
                    CallbackAction::Unrecognized
                }
            }
        },
    }
}

/// A terminal edit of the origin card: its new text, whether the link
/// preview is suppressed, and an always-empty button layout — after the
/// edit, no action remains.
pub struct EditDirective {
    pub text: String,
    pub disable_preview: bool,
    pub buttons: Vec<Vec<Button>>,
}

/// What a decoded callback leads to before any catalog call.
pub enum CallbackPlan {
    /// A valid accept: append the track to the playback queue, then edit.
    QueueTrack { track: SpotifyTrackId },
    /// Edit the origin card directly, no catalog call.
    Respond { edit: EditDirective },
    /// Nothing: no catalog call, no reply.
    NoOp,
}

/// Decides a callback: a well-formed accept proceeds to the queue mutation;
/// an invalid accept reports the bad identifier; a decline terminally edits
/// the card with the preview suppressed; an unrecognized payload does
/// nothing. Every edit leaves zero buttons.
pub fn callback_plan(action: CallbackAction, actor: &String, origin_text: Option<&String>) -> (r:
    CallbackPlan)
    ensures
        action matches CallbackAction::Accept { track_id } ==> (if spec_valid_track_id(
            track_id@,
        ) {
            r matches CallbackPlan::QueueTrack { track } && track.track_id@ == track_id@
        } else {
            r matches CallbackPlan::Respond { edit } && edit.text@ == "Invalid track ID"@
                && !edit.disable_preview && edit.buttons@.len() == 0
        }),
        action is AcceptInvalid ==> (r matches CallbackPlan::Respond { edit } && edit.text@
            == "Invalid track ID"@ && !edit.disable_preview && edit.buttons@.len() == 0),
        action is Decline ==> (r matches CallbackPlan::Respond { edit } && edit.disable_preview
            && edit.buttons@.len() == 0 && edit.text@ == (match origin_text {
            Some(t) => "❌ "@ + actor@ + " hat abgelehnt: "@ + t@,
            None => "❌ "@ + actor@ + " hat abgelehnt."@,
        })),
        action is Unrecognized ==> r is NoOp,
{
    match action {
        CallbackAction::Accept { track_id } => {
            if valid_track_id(track_id.as_str()) {
                CallbackPlan::QueueTrack { track: SpotifyTrackId { track_id } }
            } else {
                CallbackPlan::Respond {
                    edit: EditDirective {
                        text: String::from_str("Invalid track ID"),
                        disable_preview: false,
                        buttons: Vec::new(),
                    },
                }
            }
        },
        CallbackAction::AcceptInvalid => CallbackPlan::Respond {
            edit: EditDirective {
                text: String::from_str("Invalid track ID"),
                disable_preview: false,
                buttons: Vec::new(),
            },
        },
        CallbackAction::Decline => {
            let mut s = String::from_str("❌ ");
            s.append(actor.as_str());
            match origin_text {
                Some(t) => {
                    s.append(" hat abgelehnt: ");
                    s.append(t.as_str());
                },
                None => {
                    s.append(" hat abgelehnt.");
                },
            }
            CallbackPlan::Respond {
                edit: EditDirective { text: s, disable_preview: true, buttons: Vec::new() },
            }
        },
        CallbackAction::Unrecognized => CallbackPlan::NoOp,
    }
}

/// The terminal edit after an accepted request's queue call: on success the
/// card names the actor, keeps its text (or the track's URL when the origin
/// text is gone), and suppresses the link preview; on failure it reports the
/// catalog's error and leaves the preview as it stands. Either way no
/// buttons remain.
pub fn queue_outcome_edit(
    queue_result: Result<(), String>,
    actor: &String,
    origin_text: Option<&String>,
    track: &SpotifyTrackId,
) -> (r: EditDirective)
    ensures
        r.buttons@.len() == 0,
        r.disable_preview == (queue_result is Ok),
        queue_result is Ok ==> r.text@ == "✅ "@ + actor@ + " has added to queue:\n"@ + (
        match origin_text {
            Some(t) => t@,
            None => spec_url_of(track.track_id@),
        }),
        queue_result matches Err(e) ==> r.text@ == "Failed to queue track: "@ + e@,
{
    match queue_result {
        Ok(()) => {
            let mut s = String::from_str("✅ ");
            s.append(actor.as_str());
            s.append(" has added to queue:\n");
            match origin_text {
                Some(t) => {
                    s.append(t.as_str());
                },
                None => {
                    let u = track.track_url();
                    s.append(u.as_str());
                },
            }
            EditDirective { text: s, disable_preview: true, buttons: Vec::new() }
        },
        Err(e) => {
            let s = String::from_str("Failed to queue track: ");
            EditDirective {
                text: s.concat(e.as_str()),
                disable_preview: false,
                buttons: Vec::new(),
            }
        },
    }
}

} // verus!
