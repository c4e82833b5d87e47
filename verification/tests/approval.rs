//! The approval workflow: request messages, callback decoding, and the
//! terminal edits of the voting card.

use tg_music_bot::spotify::{SpotifyTrackId, TrackMetadata};
use tg_music_bot::spotify::format_track_text;
use tg_music_bot::workflow::{
    build_request_messages, callback_plan, format_author, id_reply, link_preview_for_url,
    parse_callback, queue_outcome_edit, track_request_failed_reply, usage_hint, CallbackAction,
    CallbackPlan, UserInfo,
};

fn sample_metadata() -> TrackMetadata {
    TrackMetadata {
        name: "Song".to_string(),
        artists: vec!["A".to_string(), "B".to_string()],
        album_name: "Alb".to_string(),
        popularity: 57,
        duration_secs: 185,
        listen_url: Some("http://open.spotify.com/track/abc123".to_string()),
        cover_urls: vec!["c1".to_string(), "c2".to_string()],
    }
}

#[test]
fn track_text_renders_exactly() {
    let text = format_track_text(&sample_metadata());
    assert_eq!(
        text,
        "🎵 <b>Song</b>\n👥 <b>A, B</b>\n💿 <b>Alb</b>\n🔥 57 • ⏱️ 3:5\n\
         <a href=\"http://open.spotify.com/track/abc123\">Listen</a> • \
         <a href=\"c1\">Cover</a> <a href=\"c2\">Cover</a>"
    );
}

#[test]
fn track_text_without_listen_url_or_covers() {
    let mut m = sample_metadata();
    m.listen_url = None;
    m.cover_urls = Vec::new();
    m.artists = vec!["Solo".to_string()];
    m.duration_secs = 60;
    let text = format_track_text(&m);
    assert_eq!(text, "🎵 <b>Song</b>\n👥 <b>Solo</b>\n💿 <b>Alb</b>\n🔥 57 • ⏱️ 1:0\n • ");
}

#[test]
fn request_messages_carry_confirmation_and_card() {
    let track = SpotifyTrackId::from_id("abc123".to_string());
    let track_text = format_track_text(&sample_metadata());
    let msgs = build_request_messages(
        &"Alice (@alice)".to_string(),
        &track,
        &track_text,
        Some("c1".to_string()),
    );
    assert_eq!(
        msgs.requester_reply,
        format!("✅ Successfully requested track.\n\n{}", track_text)
    );
    // the confirmation names the track's canonical URL
    assert!(msgs.requester_reply.contains("http://open.spotify.com/track/abc123"));
    assert_eq!(msgs.card.text, format!("User Alice (@alice) requested:\n{}", track_text));
    assert_eq!(msgs.card.buttons.len(), 1);
    assert_eq!(msgs.card.buttons[0].len(), 2);
    assert_eq!(msgs.card.buttons[0][0].label, "✅ Add to queue");
    assert_eq!(msgs.card.buttons[0][0].payload, "accept:spotify:track:abc123");
    assert_eq!(msgs.card.buttons[0][1].label, "❌ Decline");
    assert_eq!(msgs.card.buttons[0][1].payload, "decline");
    assert!(!msgs.preview.is_disabled);
    assert_eq!(msgs.preview.url, Some("c1".to_string()));
    assert!(msgs.preview.show_above_text);
}

#[test]
fn preview_shape() {
    let p = link_preview_for_url(None);
    assert!(!p.is_disabled);
    assert_eq!(p.url, None);
    assert!(!p.prefer_small_media);
    assert!(!p.prefer_large_media);
    assert!(p.show_above_text);
}

#[test]
fn callback_payloads_decode_once() {
    let accept = "accept:spotify:track:xyz".to_string();
    assert_eq!(
        parse_callback(Some(&accept)),
        CallbackAction::Accept { track_id: "xyz".to_string() }
    );
    let junk = "accept:junk".to_string();
    assert_eq!(parse_callback(Some(&junk)), CallbackAction::AcceptInvalid);
    let decline = "decline".to_string();
    assert_eq!(parse_callback(Some(&decline)), CallbackAction::Decline);
    let other = "something else".to_string();
    assert_eq!(parse_callback(Some(&other)), CallbackAction::Unrecognized);
    assert_eq!(parse_callback(None), CallbackAction::Unrecognized);
}

#[test]
fn valid_accept_proceeds_to_the_queue() {
    let actor = "Bob".to_string();
    let plan = callback_plan(
        CallbackAction::Accept { track_id: "xyz".to_string() },
        &actor,
        None,
    );
    match plan {
        CallbackPlan::QueueTrack { track } => assert_eq!(track.track_id, "xyz"),
        _ => panic!("a valid accept must proceed to the queue"),
    }
}

#[test]
fn malformed_accepts_report_the_bad_identifier() {
    let actor = "Bob".to_string();
    for action in [
        CallbackAction::Accept { track_id: "ab_c".to_string() },
        CallbackAction::AcceptInvalid,
    ] {
        match callback_plan(action, &actor, None) {
            CallbackPlan::Respond { edit } => {
                assert_eq!(edit.text, "Invalid track ID");
                assert!(!edit.disable_preview);
                assert_eq!(edit.buttons.len(), 0);
            },
            _ => panic!("a malformed accept must answer directly"),
        }
    }
}

#[test]
fn decline_edits_terminally_without_buttons() {
    let actor = "Bob (@bob)".to_string();
    let origin = "User Alice requested:\nSong".to_string();
    match callback_plan(CallbackAction::Decline, &actor, Some(&origin)) {
        CallbackPlan::Respond { edit } => {
            assert_eq!(edit.text, "❌ Bob (@bob) hat abgelehnt: User Alice requested:\nSong");
            assert!(edit.disable_preview);
            assert_eq!(edit.buttons.len(), 0);
        },
        _ => panic!("decline must answer directly"),
    }
    match callback_plan(CallbackAction::Decline, &actor, None) {
        CallbackPlan::Respond { edit } => {
            assert_eq!(edit.text, "❌ Bob (@bob) hat abgelehnt.");
            assert!(edit.disable_preview);
        },
        _ => panic!("decline must answer directly"),
    }
}

#[test]
fn unrecognized_payload_is_a_no_op() {
    let actor = "Bob".to_string();
    assert!(matches!(
        callback_plan(CallbackAction::Unrecognized, &actor, None),
        CallbackPlan::NoOp
    ));
}

#[test]
fn queue_outcomes_edit_the_card() {
    let actor = "Bob".to_string();
    let origin = "card text".to_string();
    let track = SpotifyTrackId::from_id("xyz".to_string());
    let edit = queue_outcome_edit(Ok(()), &actor, Some(&origin), &track);
    assert_eq!(edit.text, "✅ Bob has added to queue:\ncard text");
    // a successful accept reaches its terminal state: preview suppressed
    assert!(edit.disable_preview);
    assert_eq!(edit.buttons.len(), 0);
    let edit = queue_outcome_edit(Ok(()), &actor, None, &track);
    assert_eq!(edit.text, "✅ Bob has added to queue:\nhttp://open.spotify.com/track/xyz");
    assert!(edit.disable_preview);
    let edit = queue_outcome_edit(Err("rate limited".to_string()), &actor, Some(&origin), &track);
    assert_eq!(edit.text, "Failed to queue track: rate limited");
    assert!(!edit.disable_preview);
    assert_eq!(edit.buttons.len(), 0);
}

#[test]
fn author_formatting() {
    let with_handle = UserInfo { first_name: "Alice".to_string(), username: Some("alice".to_string()) };
    assert_eq!(format_author(Some(&with_handle)), "Alice (@alice)");
    let bare = UserInfo { first_name: "Bob".to_string(), username: None };
    assert_eq!(format_author(Some(&bare)), "Bob");
    assert_eq!(format_author(None), "Unknown");
}

#[test]
fn fixed_replies() {
    assert_eq!(track_request_failed_reply(), "❌ Failed to find track.");
    assert_eq!(usage_hint(), "Send a Spotify URL.");
}

#[test]
fn id_reply_names_chat_and_thread() {
    assert_eq!(id_reply(-1001234, Some(42)), "This chat has ID -1001234, thread 42");
    assert_eq!(id_reply(55, None), "This chat has ID 55");
}
