use lfs_stt::commands::{InsimCommand, InsimEvent};
use lfs_stt::layout::{
    get_channel_btn, get_message_preview_btn, get_state_btn, msg_to_btn_width, CHANNEL_ID,
    PREVIEW_ID, STATE_ID,
};
use lfs_stt::messages::{SttMessage, SttMessageType};
use lfs_stt::session::{split_message, ChatChannel, SessionAction, UiContext, UiEvent, UiState};

fn in_game() -> UiContext {
    let mut ctx = UiContext::default();
    assert!(matches!(ctx.handle_insim_event(InsimEvent::IsInGame(true)), SessionAction::Nothing));
    ctx.take_ui_events();
    ctx
}

#[test]
fn chat_commands_are_read() {
    assert_eq!(InsimCommand::from_string("stt talk".to_string()), Some(InsimCommand::ToggleRecording));
    assert_eq!(InsimCommand::from_string("stt accept".to_string()), Some(InsimCommand::AcceptMessage));
    assert_eq!(InsimCommand::from_string("stt nc".to_string()), None);
    assert_eq!(InsimCommand::from_string("hello".to_string()), None);
    assert_eq!(InsimEvent::from_string("stt talk".to_string()), Some(InsimEvent::ToggleRecording));
    assert_eq!(InsimEvent::from_string("stt accept".to_string()), Some(InsimEvent::AcceptMessage));
    assert_eq!(InsimEvent::from_string("stt nc".to_string()), Some(InsimEvent::NextChannel));
    assert_eq!(InsimEvent::from_string("stt pc".to_string()), Some(InsimEvent::PeviousChannel));
    assert_eq!(InsimEvent::from_string("stt talk ".to_string()), None);
    assert_eq!(InsimEvent::from_string(String::new()), None);
}

#[test]
fn new_session_is_stopped_on_the_say_channel() {
    let ctx = UiContext::default();
    assert_eq!(ctx.state(), UiState::Stopped);
    assert_eq!(ctx.message(), "");
    assert_eq!(ctx.chat_channels().len(), 2);
    assert_eq!(ctx.active_channel().display, "/say");
    assert_eq!(ctx.active_channel().prefix, "");
}

#[test]
fn entering_a_game_shows_the_session() {
    let mut ctx = UiContext::default();
    ctx.handle_insim_event(InsimEvent::IsInGame(true));
    assert_eq!(ctx.state(), UiState::Idle);
    let events = ctx.take_ui_events();
    assert_eq!(events.len(), 2);
    assert!(matches!(events[0], UiEvent::UpdateState(UiState::Idle)));
    assert!(matches!(&events[1], UiEvent::UpdateChannel(c) if c.display == "/say"));
    assert!(ctx.take_ui_events().is_empty());
    ctx.handle_insim_event(InsimEvent::IsInGame(true));
    assert!(ctx.take_ui_events().is_empty());
}

#[test]
fn leaving_the_game_stops_the_session() {
    let mut ctx = in_game();
    ctx.handle_insim_event(InsimEvent::IsInGame(false));
    assert_eq!(ctx.state(), UiState::Stopped);
    let events = ctx.take_ui_events();
    assert!(matches!(events.as_slice(), [UiEvent::RemoveAllBtns]));
    assert!(matches!(ctx.handle_insim_event(InsimEvent::ToggleRecording), SessionAction::Nothing));
    assert_eq!(ctx.state(), UiState::Stopped);
}

#[test]
fn toggle_starts_then_stops_a_recording() {
    let mut ctx = in_game();
    assert!(matches!(ctx.handle_insim_event(InsimEvent::ToggleRecording), SessionAction::StartRecording));
    assert_eq!(ctx.state(), UiState::Recording);
    assert!(matches!(
        ctx.handle_insim_event(InsimEvent::ToggleRecording),
        SessionAction::StopRecordingAndTranscribe
    ));
    assert_eq!(ctx.state(), UiState::Processing);
    assert!(matches!(ctx.handle_insim_event(InsimEvent::ToggleRecording), SessionAction::Nothing));
    let events = ctx.take_ui_events();
    assert!(matches!(
        events.as_slice(),
        [UiEvent::UpdateState(UiState::Recording), UiEvent::UpdateState(UiState::Processing)]
    ));
}

#[test]
fn stop_while_idle_is_a_no_op() {
    let mut ctx = in_game();
    assert!(matches!(ctx.request_stop(), SessionAction::Nothing));
    assert_eq!(ctx.state(), UiState::Idle);
    assert!(ctx.take_ui_events().is_empty());
    assert!(matches!(ctx.request_start(), SessionAction::StartRecording));
    assert!(matches!(ctx.request_start(), SessionAction::Nothing));
    assert!(matches!(ctx.request_stop(), SessionAction::StopRecordingAndTranscribe));
    assert_eq!(ctx.state(), UiState::Processing);
    assert!(matches!(ctx.request_stop(), SessionAction::Nothing));
}

#[test]
fn transcript_goes_on_preview_and_back_to_idle() {
    let mut ctx = in_game();
    ctx.request_start();
    ctx.request_stop();
    ctx.take_ui_events();
    let arm = ctx.handle_stt_message(SttMessage::new(SttMessageType::TranscriptionResult, "hello there".to_string()));
    assert!(arm);
    assert_eq!(ctx.state(), UiState::Idle);
    assert_eq!(ctx.message(), "hello there");
    assert!(ctx.preview_timer_armed());
    let events = ctx.take_ui_events();
    assert!(matches!(events[0], UiEvent::UpdateState(UiState::Idle)));
    assert!(matches!(&events[1], UiEvent::UpdatePreview(m) if m == "hello there"));
    ctx.clear_message_timeout();
    assert_eq!(ctx.message(), "");
    assert!(!ctx.preview_timer_armed());
    assert!(matches!(ctx.take_ui_events().as_slice(), [UiEvent::ClearPreview]));
    ctx.clear_message_timeout();
    assert!(ctx.take_ui_events().is_empty());
}

#[test]
fn transcription_error_returns_to_idle() {
    let mut ctx = in_game();
    ctx.request_start();
    ctx.request_stop();
    let arm = ctx.handle_stt_message(SttMessage::new(SttMessageType::TranscriptionError, "bad".to_string()));
    assert!(!arm);
    assert_eq!(ctx.state(), UiState::Idle);
    assert_eq!(ctx.message(), "");
}

#[test]
fn accepting_sends_the_preview_in_parts() {
    let mut ctx = in_game();
    let text: String = "abcdefghij".repeat(20);
    ctx.handle_stt_message(SttMessage::new(SttMessageType::TranscriptionResult, text.clone()));
    ctx.take_ui_events();
    match ctx.handle_insim_event(InsimEvent::AcceptMessage) {
        SessionAction::SendChat(lines) => {
            assert_eq!(lines.len(), 3);
            assert_eq!(lines[0], format!(" {}", &text[0..95]));
            assert_eq!(lines[1], format!(" {}", &text[95..190]));
            assert_eq!(lines[2], format!(" {}", &text[190..200]));
        }
        other => panic!("unexpected action {:?}", other),
    }
    assert_eq!(ctx.message(), "");
    assert!(!ctx.preview_timer_armed());
    assert!(matches!(ctx.take_ui_events().as_slice(), [UiEvent::ClearPreview]));
    assert!(matches!(ctx.handle_insim_event(InsimEvent::AcceptMessage), SessionAction::Nothing));
}

#[test]
fn split_message_leaves_room_for_the_prefix() {
    let text: String = "x".repeat(200);
    let lines = split_message(&text, &"!l".to_string());
    assert_eq!(lines.len(), 3);
    assert_eq!(lines[0], format!("!l {}", "x".repeat(93)));
    assert_eq!(lines[1], format!("!l {}", "x".repeat(93)));
    assert_eq!(lines[2], format!("!l {}", "x".repeat(14)));
    assert!(split_message(&String::new(), &"!l".to_string()).is_empty());
    let short = split_message(&"hi \u{e9}t\u{e9}".to_string(), &String::new());
    assert_eq!(short, vec![" hi \u{e9}t\u{e9}".to_string()]);
}

#[test]
fn channels_cycle_both_ways() {
    let mut ctx = in_game();
    ctx.handle_insim_event(InsimEvent::NextChannel);
    assert_eq!(ctx.active_channel().prefix, "!l");
    ctx.handle_insim_event(InsimEvent::NextChannel);
    assert_eq!(ctx.active_channel().prefix, "");
    ctx.handle_insim_event(InsimEvent::PeviousChannel);
    assert_eq!(ctx.active_channel().display, "^5!local");
    let events = ctx.take_ui_events();
    assert_eq!(events.len(), 3);
    assert!(matches!(&events[2], UiEvent::UpdateChannel(c) if c.prefix == "!l"));
}

#[test]
fn channels_are_equal_by_prefix() {
    let a = ChatChannel { display: "one".to_string(), prefix: "!l".to_string() };
    let b = ChatChannel { display: "two".to_string(), prefix: "!l".to_string() };
    let c = ChatChannel { display: "one".to_string(), prefix: "".to_string() };
    assert!(a == b);
    assert!(a != c);
    assert!(a.duplicate().display == "one");
}

#[test]
fn state_button_shows_the_state() {
    let idle = get_state_btn(UiState::Idle);
    assert_eq!(idle.text, "^2\u{2022}");
    assert_eq!(idle.click_id, STATE_ID);
    assert_eq!((idle.top, idle.left, idle.width, idle.height), (170, 10, 5, 5));
    assert!(!idle.align_left);
    assert_eq!(get_state_btn(UiState::Stopped).text, "");
    assert_eq!(get_state_btn(UiState::Recording).text, "^1\u{2022}");
}

#[test]
fn preview_button_escapes_and_sizes_its_text() {
    let btn = get_message_preview_btn("a/b".to_string());
    assert_eq!(btn.text, "^3a^sb");
    assert_eq!(btn.click_id, PREVIEW_ID);
    assert_eq!(btn.left, 15);
    assert_eq!(btn.width, 6);
    assert!(btn.align_left);
}

#[test]
fn channel_button_sits_under_the_state() {
    let btn = get_channel_btn(ChatChannel { display: "^5!local".to_string(), prefix: "!l".to_string() });
    assert_eq!(btn.text, "^5!local");
    assert_eq!(btn.click_id, CHANNEL_ID);
    assert_eq!(btn.top, 175);
    assert_eq!(btn.left, 10);
    assert_eq!(btn.width, 8);
}

#[test]
fn button_width_counts_text_without_colours() {
    assert_eq!(msg_to_btn_width("hello".to_string()), 7);
    assert_eq!(msg_to_btn_width("^1red".to_string()), 6);
    assert_eq!(msg_to_btn_width(String::new()), 3);
    assert_eq!(msg_to_btn_width("x".repeat(262)), 200);
    assert_eq!(msg_to_btn_width("x".repeat(263)), 200);
    assert_eq!(msg_to_btn_width("x".repeat(1000)), 200);
    assert_eq!(msg_to_btn_width("x".repeat(261)), 199);
}
