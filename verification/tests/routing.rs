//! Event routing: scope checks, precedence, and the silence owed to
//! button presses from outside the voting scope.

use tg_music_bot::dialogue::State;
use tg_music_bot::router::{
    command_for_other_bot, is_voting_chat, parse_command, route_event, ChatScope, Command, Event,
    Route,
};

fn scope() -> ChatScope {
    ChatScope { chat_id: 99, thread_id: Some(7) }
}

fn message(chat_id: i64, thread_id: Option<i32>, is_private: bool, text: &str) -> Event {
    Event::Text { chat_id, thread_id, is_private, text: text.to_string() }
}

fn command(chat_id: i64, thread_id: Option<i32>, is_private: bool, command: Command) -> Event {
    Event::Command { chat_id, thread_id, is_private, command }
}

#[test]
fn voting_chat_needs_chat_and_thread() {
    let cfg = scope();
    assert!(is_voting_chat(99, Some(7), &cfg));
    assert!(!is_voting_chat(99, None, &cfg));
    assert!(!is_voting_chat(99, Some(8), &cfg));
    assert!(!is_voting_chat(98, Some(7), &cfg));
    let no_thread = ChatScope { chat_id: 99, thread_id: None };
    assert!(is_voting_chat(99, None, &no_thread));
    assert!(!is_voting_chat(99, Some(7), &no_thread));
}

#[test]
fn scope_callback_is_handled() {
    let ev = Event::Callback { chat_id: Some(99), payload: Some("decline".to_string()) };
    assert_eq!(route_event(&scope(), &ev, State::Start), Route::HandleCallback);
}

#[test]
fn foreign_callback_is_silently_ignored() {
    let ev = Event::Callback { chat_id: Some(123), payload: Some("decline".to_string()) };
    assert_eq!(route_event(&scope(), &ev, State::Start), Route::Ignore);
    let ev = Event::Callback { chat_id: None, payload: Some("accept:spotify:track:x".to_string()) };
    assert_eq!(route_event(&scope(), &ev, State::Start), Route::Ignore);
}

#[test]
fn scope_commands_at_rest() {
    assert_eq!(
        route_event(&scope(), &command(99, Some(7), false, Command::SpotifyLogin), State::Start),
        Route::SpotifyLogin
    );
    assert_eq!(
        route_event(&scope(), &command(99, Some(7), false, Command::Help), State::Start),
        Route::Help
    );
    assert_eq!(
        route_event(&scope(), &command(99, Some(7), false, Command::Id), State::Start),
        Route::Id
    );
}

#[test]
fn awaiting_code_swallows_everything_in_scope() {
    assert_eq!(
        route_event(&scope(), &message(99, Some(7), false, "anything"), State::SpotifyLogin),
        Route::LoginText
    );
    assert_eq!(
        route_event(&scope(), &command(99, Some(7), false, Command::Help), State::SpotifyLogin),
        Route::LoginText
    );
}

#[test]
fn free_text_in_scope_at_rest_is_ignored() {
    assert_eq!(route_event(&scope(), &message(99, Some(7), false, "chatter"), State::Start), Route::Ignore);
    assert_eq!(
        route_event(
            &scope(),
            &message(99, Some(7), false, "https://open.spotify.com/track/abc"),
            State::Start
        ),
        Route::Ignore
    );
}

#[test]
fn user_commands_work_everywhere() {
    assert_eq!(route_event(&scope(), &command(5, None, true, Command::Help), State::Start), Route::Help);
    assert_eq!(route_event(&scope(), &command(5, None, true, Command::Id), State::Start), Route::Id);
    // the login command is not open to outside actors
    assert_eq!(
        route_event(&scope(), &command(5, None, true, Command::SpotifyLogin), State::Start),
        Route::UsageHint
    );
}

#[test]
fn private_link_becomes_a_track_request() {
    assert_eq!(
        route_event(
            &scope(),
            &message(5, None, true, "check this out https://open.spotify.com/track/abc123 nice"),
            State::Start
        ),
        Route::RequestTrack
    );
    assert_eq!(
        route_event(&scope(), &message(5, None, true, "https://spotify.link/AbC12"), State::Start),
        Route::RequestTrack
    );
}

#[test]
fn private_text_without_link_gets_the_hint() {
    assert_eq!(route_event(&scope(), &message(5, None, true, "hello"), State::Start), Route::UsageHint);
}

#[test]
fn group_chats_never_trigger_track_requests() {
    assert_eq!(
        route_event(
            &scope(),
            &message(5, None, false, "https://open.spotify.com/track/abc"),
            State::Start
        ),
        Route::UsageHint
    );
}

#[test]
fn dialogue_state_outside_scope_changes_nothing() {
    assert_eq!(
        route_event(&scope(), &message(5, None, true, "hello"), State::SpotifyLogin),
        Route::UsageHint
    );
}

#[test]
fn commands_parse_from_message_text() {
    assert_eq!(parse_command("/help"), Some(Command::Help));
    assert_eq!(parse_command("/help extra words"), Some(Command::Help));
    assert_eq!(parse_command("/help@some_bot"), Some(Command::Help));
    assert_eq!(parse_command("/spotifylogin"), Some(Command::SpotifyLogin));
    assert_eq!(parse_command("/id@bot now"), Some(Command::Id));
    assert_eq!(parse_command("/idle"), None);
    assert_eq!(parse_command("help"), None);
    assert_eq!(parse_command(" /help"), None);
    assert_eq!(parse_command(""), None);
    assert_eq!(parse_command("/"), None);
}

#[test]
fn commands_addressed_to_another_bot_are_plain_text() {
    assert!(command_for_other_bot("/help@some_bot", "my_bot"));
    assert!(!command_for_other_bot("/help@my_bot", "my_bot"));
    assert!(!command_for_other_bot("/help@My_Bot extra", "my_bot"));
    assert!(!command_for_other_bot("/help", "my_bot"));
    assert!(!command_for_other_bot("hello", "my_bot"));
    assert!(command_for_other_bot("/id@", "my_bot"));
    assert!(command_for_other_bot("/id@my_bot2", "my_bot"));
}
