use cwos::apps::{CwController, Echo};
use cwos::session::{LinearController, Mode, SignalController, Step};
use cwos::symbol::{CwString, CwSymbol};
use cwos::timing::{CwConfig, InputConfig, OutputConfig, SignalConfig};
use cwos::symbol::CwSymbol::{E, Space, T};

fn config() -> CwConfig {
    CwConfig {
        input: InputConfig { signal: SignalConfig { unit_ms: 60, fw_ms: 60, freq: 550 } },
        output: OutputConfig { signal: SignalConfig { unit_ms: 60, fw_ms: 60, freq: 650 } },
    }
}

/// Records what it is asked and answers with a fixed reply.
struct Recorder {
    heard: Vec<CwString>,
    reply: CwString,
}

impl CwController for Recorder {
    fn tick(&mut self, input: CwString) -> CwString {
        self.heard.push(input);
        self.reply.clone()
    }
}

fn recorder(reply: Vec<CwSymbol>) -> Recorder {
    Recorder { heard: vec![], reply: CwString(reply) }
}

/// Keys a dot of 60 ms and then stays idle for three seconds.
fn key_e(session: &mut SignalController, responder: &mut Recorder) -> Vec<bool> {
    vec![
        session.tick(0, true, responder),
        session.tick(60, false, responder),
        session.tick(1000, false, responder),
        session.tick(1000, false, responder),
        session.tick(1000, false, responder),
    ]
}

#[test]
fn idle_after_letter_e_hands_e_to_the_responder_once() {
    let mut session = SignalController::new(&config());
    let mut responder = recorder(vec![CwSymbol::E]);
    let levels = key_e(&mut session, &mut responder);
    assert_eq!(levels, vec![true, false, false, false, false]);
    assert_eq!(session.get_mode(), Mode::Output);
    assert_eq!(responder.heard, vec![CwString(vec![CwSymbol::E])]);
    assert_eq!(session.playback_len(), 2);

    // the reply plays: a dot of 60 ms, then the symbol break
    assert!(session.tick(10, false, &mut responder));
    assert!(session.tick(60, false, &mut responder));
    assert!(!session.tick(200, false, &mut responder));
    assert_eq!(session.get_mode(), Mode::Output);
    assert!(!session.tick(10, false, &mut responder));
    assert_eq!(session.get_mode(), Mode::Input);

    for _ in 0..5 {
        assert!(!session.tick(5000, false, &mut responder));
    }
    assert_eq!(session.get_mode(), Mode::Input);
    assert_eq!(responder.heard.len(), 1);
}

#[test]
fn input_during_playback_takes_the_line_back() {
    let mut session = SignalController::new(&config());
    let mut responder = recorder(vec![CwSymbol::S, CwSymbol::O, CwSymbol::S]);
    key_e(&mut session, &mut responder);
    assert_eq!(session.get_mode(), Mode::Output);
    assert!(session.playback_len() > 0);
    assert!(session.tick(10, false, &mut responder));

    assert!(session.tick(10, true, &mut responder));
    assert_eq!(session.get_mode(), Mode::Input);
    assert_eq!(session.playback_len(), 0);
    assert_eq!(session.capture_len(), 0);
}

#[test]
fn idle_with_nothing_captured_stays_capturing() {
    let mut session = SignalController::new(&config());
    let mut responder = recorder(vec![CwSymbol::E]);
    assert!(!session.tick(5000, false, &mut responder));
    assert!(!session.tick(5000, false, &mut responder));
    assert_eq!(session.get_mode(), Mode::Input);
    assert!(responder.heard.is_empty());
}

#[test]
fn a_held_key_keeps_capturing() {
    let mut session = SignalController::new(&config());
    let mut responder = recorder(vec![]);
    assert!(session.tick(0, true, &mut responder));
    assert!(session.tick(5000, true, &mut responder));
    assert!(session.tick(5000, true, &mut responder));
    assert_eq!(session.get_mode(), Mode::Input);
    assert_eq!(session.capture_len(), 0);
    assert!(!session.tick(10, false, &mut responder));
    assert_eq!(session.capture_len(), 1);
    assert!(responder.heard.is_empty());
}

#[test]
fn an_empty_reply_returns_the_line_at_once() {
    let mut session = SignalController::new(&config());
    let mut responder = recorder(vec![]);
    key_e(&mut session, &mut responder);
    assert_eq!(session.get_mode(), Mode::Output);
    assert_eq!(session.playback_len(), 0);
    assert!(!session.tick(10, false, &mut responder));
    assert_eq!(session.get_mode(), Mode::Input);
}

#[test]
fn two_letters_and_a_word_break_are_decoded() {
    let mut session = SignalController::new(&config());
    let mut responder = recorder(vec![]);
    session.tick(0, true, &mut responder);
    session.tick(180, false, &mut responder); // dash
    session.tick(500, true, &mut responder); // silence longer than 420: word break
    session.tick(60, false, &mut responder); // dot
    session.tick(3000, false, &mut responder);
    assert_eq!(responder.heard, vec![CwString(vec![T, Space, E])]);
}

#[test]
fn step_and_play_split_a_tick() {
    let mut session = SignalController::new(&config());
    assert!(matches!(session.step(0, true), Step::Level(true)));
    assert!(matches!(session.step(60, false), Step::Level(false)));
    assert!(matches!(session.step(2000, false), Step::Level(false)));
    match session.step(1000, false) {
        Step::Decoded(text) => assert_eq!(text, CwString(vec![CwSymbol::E])),
        Step::Level(_) => panic!("the capture should have finished"),
    }
    assert_eq!(session.get_mode(), Mode::Output);
    session.play(&CwString(vec![CwSymbol::T]));
    assert_eq!(session.playback_len(), 2);
    assert!(matches!(session.step(10, false), Step::Level(true)));
}

#[test]
fn reset_keeps_the_mode() {
    let mut session = SignalController::new(&config());
    let mut responder = recorder(vec![]);
    session.tick(0, true, &mut responder);
    session.tick(60, false, &mut responder);
    assert_eq!(session.capture_len(), 1);
    session.reset();
    assert_eq!(session.capture_len(), 0);
    assert_eq!(session.get_mode(), Mode::Input);
}

#[test]
fn echo_answers_with_its_input() {
    let mut echo = Echo;
    let text = CwString(vec![CwSymbol::H, CwSymbol::I]);
    assert_eq!(echo.tick(text.clone()), text);
}

#[test]
fn linear_controller_tones_follow_the_role() {
    let mut ctl = LinearController::new(Echo, &config());
    assert_eq!(ctl.tick(1000, true), Some(550));
    assert_eq!(ctl.tick(1060, false), None);
    assert_eq!(ctl.tick(2000, false), None);
    assert_eq!(ctl.tick(3000, false), None);
    assert_eq!(ctl.get_mode(), Mode::Input);
    assert_eq!(ctl.tick(4100, false), None);
    assert_eq!(ctl.get_mode(), Mode::Output);
    assert_eq!(ctl.tick(4110, false), Some(650));
    ctl.reset();
    assert_eq!(ctl.get_mode(), Mode::Output);
    assert_eq!(ctl.tick(4120, false), None);
    assert_eq!(ctl.get_mode(), Mode::Input);
}

#[test]
fn linear_controller_handles_a_wrapping_clock() {
    let mut ctl = LinearController::new(Echo, &config());
    assert_eq!(ctl.tick(u32::MAX - 10, true), Some(550));
    assert_eq!(ctl.tick(49, false), None);
    // 60 ms have passed across the wrap: one dot captured, then idle
    assert_eq!(ctl.tick(3049, false), None);
    assert_eq!(ctl.get_mode(), Mode::Output);
}
