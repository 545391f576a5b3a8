use clear_view::settings::Setting;
use clear_view::state::AppState;
use clear_view::tts::{
    focus_event, focus_message, greeting, ignores_focus, to_voice_volume, Msg, Reader, TickPlan, TtsMode, TtsStep,
};

fn on() -> AppState {
    let mut s = AppState::default();
    s.apply(Setting::ToggleTts);
    s
}

fn name(s: &str) -> Option<String> {
    Some(String::from(s))
}

const NOTHING: TickPlan = TickPlan { set_volume: None, set_rate: None, hover: false };

#[test]
fn own_windows_are_ignored() {
    assert!(ignores_focus(Some(7), 7));
    assert!(!ignores_focus(Some(8), 7));
    assert!(!ignores_focus(None, 7));
}

#[test]
fn focus_messages_tell_text_apart() {
    assert_eq!(focus_message(true), Msg::TextFocusGained);
    assert_eq!(focus_message(false), Msg::TextFocusLost);
}

#[test]
fn the_voice_is_set_at_the_start() {
    let (reader, plan) = Reader::new(&AppState::default());
    assert_eq!(plan, TickPlan { set_volume: Some(80), set_rate: Some(0), hover: false });
    assert_eq!(reader.mode, TtsMode::Idle);
    assert_eq!(reader.last_name, "");
    assert_eq!((reader.last_volume, reader.last_rate), (80, 0));
}

#[test]
fn the_last_message_decides() {
    let (mut reader, _) = Reader::new(&on());
    reader.drain(&vec![]);
    assert_eq!(reader.mode, TtsMode::Idle);
    reader.drain(&vec![Msg::TextFocusGained, Msg::TextFocusLost, Msg::TextFocusGained]);
    assert_eq!(reader.mode, TtsMode::TextFocus);
    reader.drain(&vec![]);
    assert_eq!(reader.mode, TtsMode::TextFocus);
    reader.drain(&vec![Msg::TextFocusGained, Msg::TextFocusLost]);
    assert_eq!(reader.mode, TtsMode::Idle);
}

#[test]
fn hovering_pauses_while_text_has_the_focus() {
    let (mut reader, _) = Reader::new(&on());
    assert!(reader.begin_tick(&on()).hover);
    reader.drain(&vec![Msg::TextFocusGained]);
    assert!(!reader.begin_tick(&on()).hover);
    reader.drain(&vec![Msg::TextFocusLost]);
    assert!(reader.begin_tick(&on()).hover);
    let mut quiet = on();
    quiet.apply(Setting::HoverEcho(false));
    assert!(!reader.begin_tick(&quiet).hover);
}

#[test]
fn off_means_silence() {
    let (mut reader, _) = Reader::new(&on());
    let mut off = on();
    off.apply(Setting::Volume(5));
    off.apply(Setting::ToggleTts);
    assert_eq!(reader.begin_tick(&off), NOTHING);
    assert_eq!(reader.last_volume, 80);
}

#[test]
fn the_voice_is_set_only_when_changed() {
    let (mut reader, _) = Reader::new(&on());
    let mut s = on();
    s.apply(Setting::Volume(5));
    s.apply(Setting::Rate(-2));
    let plan = reader.begin_tick(&s);
    assert_eq!(plan, TickPlan { set_volume: Some(5), set_rate: Some(-2), hover: true });
    assert_eq!(reader.begin_tick(&s), TickPlan { hover: true, ..NOTHING });
}

#[test]
fn volume_is_cut_to_its_low_half() {
    assert_eq!(to_voice_volume(100), 100);
    assert_eq!(to_voice_volume(65535), 65535);
    assert_eq!(to_voice_volume(65536), 0);
    assert_eq!(to_voice_volume(65537), 1);
}

#[test]
fn names_are_spoken_once_in_a_row() {
    let (mut reader, _) = Reader::new(&on());
    assert_eq!(reader.hover(name("")), None);
    assert_eq!(reader.hover(name("Start")), name("Start"));
    assert_eq!(reader.hover(name("Start")), None);
    assert_eq!(reader.hover(None), None);
    assert_eq!(reader.hover(name("")), None);
    assert_eq!(reader.hover(name("Start")), None);
    assert_eq!(reader.hover(name("Öffnen")), name("Öffnen"));
    assert_eq!(reader.hover(name("Start")), name("Start"));
    assert_eq!(reader.last_name, "Start");
}

fn steps(outcomes: &[bool]) -> Vec<TtsStep> {
    let mut step = TtsStep::InitCom;
    let mut all = vec![step];
    for ok in outcomes {
        step = step.next(*ok);
        all.push(step);
    }
    all
}

#[test]
fn without_the_library_the_thread_stops() {
    assert_eq!(steps(&[false]), vec![TtsStep::InitCom, TtsStep::Stopped]);
}

#[test]
fn without_a_voice_the_library_is_given_back() {
    assert_eq!(
        steps(&[true, false, true]),
        vec![TtsStep::InitCom, TtsStep::CreateVoice, TtsStep::UninitCom, TtsStep::Stopped]
    );
}

#[test]
fn without_the_service_the_voice_is_given_back() {
    assert_eq!(
        steps(&[true, true, true, false, false, true, true]),
        vec![
            TtsStep::InitCom,
            TtsStep::CreateVoice,
            TtsStep::SetVoice,
            TtsStep::Announce,
            TtsStep::CreateAutomation,
            TtsStep::DropVoice,
            TtsStep::UninitCom,
            TtsStep::Stopped,
        ]
    );
}

#[test]
fn a_full_run_gives_everything_back() {
    let outcomes =
        [true, true, true, true, true, false, true, true, false, true, true, true, true, true, true];
    assert_eq!(
        steps(&outcomes),
        vec![
            TtsStep::InitCom,
            TtsStep::CreateVoice,
            TtsStep::SetVoice,
            TtsStep::Announce,
            TtsStep::CreateAutomation,
            TtsStep::AddHandler,
            TtsStep::Poll,
            TtsStep::Poll,
            TtsStep::Poll,
            TtsStep::RemoveHandler,
            TtsStep::DropHandler,
            TtsStep::DropAutomation,
            TtsStep::DropVoice,
            TtsStep::UninitCom,
            TtsStep::Stopped,
            TtsStep::Stopped,
        ]
    );
}

#[test]
fn focus_events_of_other_programs_send_a_message() {
    assert_eq!(focus_event(None, 7), None);
    assert_eq!(focus_event(Some((Some(7), true)), 7), None);
    assert_eq!(focus_event(Some((Some(7), false)), 7), None);
    assert_eq!(focus_event(Some((Some(8), true)), 7), Some(Msg::TextFocusGained));
    assert_eq!(focus_event(Some((Some(8), false)), 7), Some(Msg::TextFocusLost));
    assert_eq!(focus_event(Some((None, true)), 7), Some(Msg::TextFocusGained));
}

#[test]
fn the_greeting_is_fixed() {
    assert_eq!(greeting(), "clear-view ready");
}
