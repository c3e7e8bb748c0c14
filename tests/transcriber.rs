use trascri::{
    query_for, transcript_message, Command, DecodingState, InMsg, Msg, Phase, ResultQuery,
    SampleRouter, Transcriber, window_steps, WindowStep,
};

/// A recognizer that closes an utterance on every third window it is fed.
struct ThirdWindowRecognizer {
    fed: usize,
    resets: usize,
}

impl ThirdWindowRecognizer {
    fn feed(&mut self, _window: &[i16]) -> DecodingState {
        self.fed += 1;
        if self.fed % 3 == 0 {
            DecodingState::Finalized
        } else {
            DecodingState::Running
        }
    }
    fn result(&mut self) -> Vec<String> {
        vec!["final".to_string(), format!("{}", self.fed)]
    }
    fn partial_result(&mut self) -> Vec<String> {
        vec![format!("partial{}", self.fed)]
    }
    fn reset(&mut self) {
        self.fed = 0;
        self.resets += 1;
    }
}

/// Drives a transcriber the way its owner does, recording what each channel
/// receives and what the pipeline was asked to do.
struct Harness {
    core: Transcriber<&'static str, u32>,
    recognizer: ThirdWindowRecognizer,
    router: Option<SampleRouter>,
    build_ok: bool,
    play_ok: bool,
    built_from: Vec<&'static str>,
    halts: usize,
    sent: Vec<(u32, Msg)>,
    loudness_samples: usize,
}

impl Harness {
    fn new() -> Self {
        Harness {
            core: Transcriber::new("default"),
            recognizer: ThirdWindowRecognizer { fed: 0, resets: 0 },
            router: None,
            build_ok: true,
            play_ok: true,
            built_from: Vec::new(),
            halts: 0,
            sent: Vec::new(),
            loudness_samples: 0,
        }
    }

    fn run(&mut self, cmds: Vec<Command<u32>>) {
        for cmd in cmds {
            match cmd {
                Command::Halt => {
                    self.halts += 1;
                    self.router = None;
                }
                Command::ResetRecognizer => self.recognizer.reset(),
                Command::Build(n) => {
                    assert_eq!(n, self.core.session());
                    if self.build_ok {
                        self.built_from.push(*self.core.element());
                    }
                    let next = self.core.build_finished(self.build_ok);
                    self.run(next);
                }
                Command::Play => {
                    let next = self.core.play_finished(self.play_ok);
                    self.run(next);
                }
                Command::Route => self.router = Some(SampleRouter::new(4)),
                Command::NotifyStarted => {
                    let c = *self.core.channel().unwrap();
                    self.sent.push((c, Msg::Started));
                }
                Command::NotifyStopped(c) => self.sent.push((c, Msg::Stopped)),
            }
        }
    }

    fn send(&mut self, msg: InMsg<&'static str, u32>) {
        let cmds = self.core.handle(msg);
        self.run(cmds);
    }

    fn samples(&mut self, samples: &[i16]) {
        let channel = *self.core.channel().unwrap();
        let windows = self.router.as_mut().unwrap().push(samples);
        for w in windows {
            let mut state = None;
            for step in window_steps(w) {
                match step {
                    WindowStep::SendLoudness(_) => self.loudness_samples += 1,
                    WindowStep::Feed(samples) => state = Some(self.recognizer.feed(&samples)),
                    WindowStep::Report => {
                        let state = state.unwrap();
                        let words = match query_for(state) {
                            ResultQuery::Final => self.recognizer.result(),
                            ResultQuery::Partial => self.recognizer.partial_result(),
                        };
                        self.sent.push((channel, transcript_message(state, &words)));
                    }
                }
            }
        }
    }
}

#[test]
fn session_of_three_windows_reports_in_order() {
    let mut h = Harness::new();
    h.send(InMsg::Start(1));
    h.samples(&[1, 2, 3, 4, 5, 6]);
    h.samples(&[7, 8, 9, 10, 11, 12, 13]);
    h.send(InMsg::Stop);
    assert_eq!(
        h.sent,
        vec![
            (1, Msg::Started),
            (1, Msg::PartialResult("partial1".to_string())),
            (1, Msg::PartialResult("partial2".to_string())),
            (1, Msg::Result("final 3".to_string())),
            (1, Msg::Stopped),
        ]
    );
    assert_eq!(h.loudness_samples, 3);
    assert_eq!(h.core.phase(), Phase::Idle);
}

#[test]
fn start_then_stop_reports_started_then_stopped() {
    let mut core: Transcriber<&'static str, u32> = Transcriber::new("mic");
    assert_eq!(core.handle(InMsg::Start(5)), vec![Command::Build(1)]);
    assert_eq!(core.phase(), Phase::Building);
    assert_eq!(core.build_finished(true), vec![Command::Play]);
    assert_eq!(core.phase(), Phase::Starting);
    assert_eq!(core.play_finished(true), vec![Command::NotifyStarted, Command::Route]);
    assert_eq!(core.phase(), Phase::Playing);
    assert_eq!(core.channel(), Some(&5));
    assert_eq!(
        core.handle(InMsg::Stop),
        vec![Command::Halt, Command::ResetRecognizer, Command::NotifyStopped(5)]
    );
    assert_eq!(core.channel(), None);
    assert_eq!(core.phase(), Phase::Idle);
}

#[test]
fn start_while_playing_stops_the_old_session_first() {
    let mut h = Harness::new();
    h.send(InMsg::Start(1));
    h.samples(&[1, 2, 3, 4]);
    let resets_before = h.recognizer.resets;
    h.send(InMsg::Start(2));
    assert_eq!(h.halts, 1);
    assert_eq!(h.recognizer.resets, resets_before + 1);
    assert_eq!(h.recognizer.fed, 0);
    assert_eq!(
        h.sent,
        vec![
            (1, Msg::Started),
            (1, Msg::PartialResult("partial1".to_string())),
            (1, Msg::Stopped),
            (2, Msg::Started),
        ]
    );
}

#[test]
fn restart_matches_stop_then_start() {
    let mut direct: Transcriber<&'static str, u32> = Transcriber::new("mic");
    direct.handle(InMsg::Start(1));
    direct.build_finished(true);
    direct.play_finished(true);
    let mut twostep: Transcriber<&'static str, u32> = Transcriber::new("mic");
    twostep.handle(InMsg::Start(1));
    twostep.build_finished(true);
    twostep.play_finished(true);

    let x = direct.handle(InMsg::Start(2));
    let mut y = twostep.handle(InMsg::Stop);
    let z = twostep.handle(InMsg::Start(2));
    assert_eq!(x, vec![Command::Halt, Command::ResetRecognizer, Command::NotifyStopped(1), Command::Build(2)]);
    assert_eq!(y, vec![Command::Halt, Command::ResetRecognizer, Command::NotifyStopped(1)]);
    assert_eq!(z, vec![Command::Build(2)]);
    y.extend(z);
    assert_eq!(x, y);
    assert_eq!(direct.phase(), twostep.phase());
    assert_eq!(direct.channel(), twostep.channel());
    assert_eq!(direct.session(), twostep.session());
}

#[test]
fn start_from_idle_does_not_reset_the_recognizer() {
    let mut h = Harness::new();
    h.send(InMsg::Start(1));
    assert_eq!(h.recognizer.resets, 0);
    assert_eq!(h.halts, 0);
    assert_eq!(h.sent, vec![(1, Msg::Started)]);
}

#[test]
fn reset_changes_nothing_but_the_recognizer() {
    let mut core: Transcriber<&'static str, u32> = Transcriber::new("mic");
    assert_eq!(core.handle(InMsg::Reset), vec![Command::ResetRecognizer]);
    assert_eq!(core.phase(), Phase::Idle);
    core.handle(InMsg::Start(3));
    core.build_finished(true);
    core.play_finished(true);
    assert_eq!(core.handle(InMsg::Reset), vec![Command::ResetRecognizer]);
    assert_eq!(core.phase(), Phase::Playing);
    assert_eq!(core.channel(), Some(&3));
}

#[test]
fn last_element_set_is_used_for_the_pipeline() {
    let mut h = Harness::new();
    h.send(InMsg::SetElement("first"));
    h.send(InMsg::SetElement("second"));
    assert!(h.sent.is_empty());
    h.send(InMsg::Start(1));
    assert_eq!(h.built_from, vec!["second"]);
}

#[test]
fn element_change_while_playing_waits_for_the_next_start() {
    let mut h = Harness::new();
    h.send(InMsg::Start(1));
    h.send(InMsg::SetElement("usb"));
    assert_eq!(h.built_from, vec!["default"]);
    assert_eq!(h.core.phase(), Phase::Playing);
    h.send(InMsg::Start(2));
    assert_eq!(h.built_from, vec!["default", "usb"]);
}

#[test]
fn stop_when_idle_without_channel_reports_nothing() {
    let mut h = Harness::new();
    h.send(InMsg::Stop);
    assert_eq!(h.halts, 0);
    assert_eq!(h.recognizer.resets, 1);
    assert!(h.sent.is_empty());
    assert_eq!(h.core.phase(), Phase::Idle);
}

#[test]
fn stop_when_idle_with_channel_of_ended_stream_reports_stopped() {
    let mut h = Harness::new();
    h.send(InMsg::Start(4));
    let session = h.core.session();
    h.send(InMsg::StreamEnded(session));
    assert_eq!(h.core.phase(), Phase::Idle);
    assert_eq!(h.halts, 1);
    let halts = h.halts;
    h.send(InMsg::Stop);
    assert_eq!(h.halts, halts);
    assert_eq!(h.sent, vec![(4, Msg::Started), (4, Msg::Stopped)]);
}

#[test]
fn failed_build_leaves_the_transcriber_idle_and_silent() {
    let mut h = Harness::new();
    h.build_ok = false;
    h.send(InMsg::Start(9));
    assert_eq!(h.core.phase(), Phase::Idle);
    assert_eq!(h.core.channel(), None);
    assert!(h.sent.is_empty());
    h.send(InMsg::Stop);
    assert!(h.sent.is_empty());
    h.build_ok = true;
    h.send(InMsg::Start(10));
    assert_eq!(h.sent, vec![(10, Msg::Started)]);
}

#[test]
fn failed_play_ends_the_session_without_started() {
    let mut h = Harness::new();
    h.play_ok = false;
    h.send(InMsg::Start(9));
    assert_eq!(h.core.phase(), Phase::Idle);
    assert_eq!(h.core.channel(), None);
    assert!(h.sent.is_empty());
    assert!(h.router.is_none());
    assert_eq!(h.halts, 1);
    assert_eq!(h.recognizer.resets, 1);
    h.send(InMsg::Stop);
    assert!(h.sent.is_empty());
    h.play_ok = true;
    h.send(InMsg::Start(10));
    assert_eq!(h.sent, vec![(10, Msg::Started)]);
}

#[test]
fn stream_end_when_idle_is_ignored() {
    let mut core: Transcriber<&'static str, u32> = Transcriber::new("mic");
    assert_eq!(core.handle(InMsg::StreamEnded(0)), vec![]);
    assert_eq!(core.phase(), Phase::Idle);
}

#[test]
fn stream_end_of_an_earlier_session_is_ignored() {
    let mut h = Harness::new();
    h.send(InMsg::Start(1));
    let first = h.core.session();
    h.send(InMsg::Start(2));
    assert_ne!(h.core.session(), first);
    h.send(InMsg::StreamEnded(first));
    assert_eq!(h.core.phase(), Phase::Playing);
    assert_eq!(h.core.channel(), Some(&2));
    h.samples(&[1, 2, 3, 4]);
    assert_eq!(h.sent.last(), Some(&(2, Msg::PartialResult("partial1".to_string()))));
}
