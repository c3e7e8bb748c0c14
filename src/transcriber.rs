use vstd::prelude::*;

verus! {

/// Lifecycle phase of the transcription pipeline.
#[derive(PartialEq, Eq, Structural, Clone, Copy, Debug)]
pub enum Phase {
    /// No pipeline is playing.
    Idle,
    /// A pipeline is being built; the outcome is awaited.
    Building,
    /// The pipeline is built; the outcome of setting it playing is awaited.
    Starting,
    /// The pipeline is playing, `Started` has gone out, and samples flow to
    /// the recognizer.
    Playing,
}

/// Control messages, handled one at a time in arrival order.
#[derive(Debug, Clone)]
pub enum InMsg<E, C> {
    /// Begin a recording session that reports on the given channel.
    Start(C),
    /// End the current recording session.
    Stop,
    /// Use this capture element for the next pipeline that is built.
    SetElement(E),
    /// Discard the recognizer's decoding state.
    Reset,
    /// The pipeline of the numbered session reported an error or the end of
    /// its stream.
    StreamEnded(u64),
}

/// Work that the owner of the pipeline and the recognizer carries out, in
/// order, after each decision of the transcriber.
#[derive(Debug, PartialEq, Eq)]
pub enum Command<C> {
    /// Set the pipeline to the null state and detach its capture element;
    /// no sample is routed after it.
    Halt,
    /// Discard the recognizer's decoding state.
    ResetRecognizer,
    /// Build the pipeline of the numbered session from the current capture
    /// element at the recognizer's sample rate, not yet playing and with no
    /// sample routed; then report the outcome with `build_finished`.
    Build(u64),
    /// Set the built pipeline playing; then report the outcome with
    /// `play_finished`.
    Play,
    /// Send `Started` on the registered channel.
    NotifyStarted,
    /// From now on, hand the pipeline's samples to the router, whose results
    /// go out on the registered channel.
    Route,
    /// Send `Stopped` on this channel, which is no longer registered.
    NotifyStopped(C),
}

/// The number of the session that follows session `n`.
pub open spec fn next_session(n: u64) -> u64 {
    if n == u64::MAX {
        0
    } else {
        (n + 1) as u64
    }
}

/// Abstract state of a transcriber.
pub struct TranscriberState<E, C> {
    pub phase: Phase,
    pub element: E,
    pub channel: Option<C>,
    /// The number of the latest session that was started.
    pub session: u64,
}

impl<E, C> TranscriberState<E, C> {
    /// A session that is under way has a channel to report on.
    pub open spec fn wf(self) -> bool {
        self.phase != Phase::Idle ==> self.channel is Some
    }

    /// Not waiting for the outcome of a build or of a start of play: ready
    /// for a control message.
    pub open spec fn settled(self) -> bool {
        self.phase == Phase::Idle || self.phase == Phase::Playing
    }

    /// `Stopped` on the registered channel, if any.
    pub open spec fn release(self) -> Seq<Command<C>> {
        match self.channel {
            Some(c) => seq![Command::NotifyStopped(c)],
            None => Seq::empty(),
        }
    }

    /// The same state, idle and with no channel registered.
    pub open spec fn idle(self) -> TranscriberState<E, C> {
        TranscriberState { phase: Phase::Idle, element: self.element, channel: None, session: self.session }
    }

    /// The stop sequence: halt a playing pipeline, reset the recognizer, and
    /// report `Stopped` on the registered channel, if any, releasing it.
    pub open spec fn stop(self) -> (TranscriberState<E, C>, Seq<Command<C>>) {
        let halt = if self.phase == Phase::Playing {
            seq![Command::Halt]
        } else {
            Seq::empty()
        };
        (self.idle(), halt + seq![Command::ResetRecognizer] + self.release())
    }

    /// What a new session closes first: a playing session is stopped in
    /// full; when idle, only a channel left registered by a session whose
    /// stream ended is released, its recognizer having been reset then.
    pub open spec fn close(self) -> (TranscriberState<E, C>, Seq<Command<C>>) {
        if self.phase == Phase::Playing {
            self.stop()
        } else {
            (self.idle(), self.release())
        }
    }

    /// The next state and the commands that follow a control message.
    pub open spec fn on_message(self, msg: InMsg<E, C>) -> (
        TranscriberState<E, C>,
        Seq<Command<C>>,
    ) {
        match msg {
            InMsg::Start(c) => {
                let (idle, cmds) = self.close();
                let n = next_session(self.session);
                (
                    TranscriberState { phase: Phase::Building, element: idle.element, channel: Some(c), session: n },
                    cmds.push(Command::Build(n)),
                )
            },
            InMsg::Stop => self.stop(),
            InMsg::SetElement(e) => (
                TranscriberState { phase: self.phase, element: e, channel: self.channel, session: self.session },
                Seq::empty(),
            ),
            InMsg::Reset => (self, seq![Command::ResetRecognizer]),
            InMsg::StreamEnded(n) => if self.phase == Phase::Playing && n == self.session {
                (
                    TranscriberState { phase: Phase::Idle, element: self.element, channel: self.channel, session: self.session },
                    seq![Command::Halt, Command::ResetRecognizer],
                )
            } else {
                (self, Seq::empty())
            },
        }
    }

    /// The next state and the commands that follow the outcome of a build.
    /// A failed build ends the session without a word on its channel; a
    /// successful one asks for the pipeline to be set playing.
    pub open spec fn on_built(self, ok: bool) -> (TranscriberState<E, C>, Seq<Command<C>>) {
        if ok {
            (
                TranscriberState { phase: Phase::Starting, element: self.element, channel: self.channel, session: self.session },
                seq![Command::Play],
            )
        } else {
            (self.idle(), seq![Command::Halt, Command::ResetRecognizer])
        }
    }

    /// The next state and the commands that follow the outcome of setting
    /// the pipeline playing. Only a pipeline that plays reports `Started`,
    /// and only after that are its samples routed, so that no result comes
    /// before `Started`. A failure ends the session without a word on its
    /// channel, which never saw `Started`.
    pub open spec fn on_played(self, ok: bool) -> (TranscriberState<E, C>, Seq<Command<C>>) {
        if ok {
            (
                TranscriberState { phase: Phase::Playing, element: self.element, channel: self.channel, session: self.session },
                seq![Command::NotifyStarted, Command::Route],
            )
        } else {
            (self.idle(), seq![Command::Halt, Command::ResetRecognizer])
        }
    }
}

/// A session that is started and then stopped reports `Started` and then
/// `Stopped` on its own channel, and nothing can be reported on it outside
/// that span: starting closes what came before, registers the new channel
/// and asks for a build, with nothing reported, set playing or routed; a
/// successful build asks for play and nothing else; once the pipeline plays,
/// `Started` is reported and only then are samples routed; the stop that
/// follows halts the pipeline, so that no sample is routed any more, resets
/// the recognizer and reports `Stopped` on the channel, last. A session
/// whose build or play fails reports nothing at all.
pub proof fn lemma_started_before_stopped<E, C>(s: TranscriberState<E, C>, c: C)
    requires
        s.wf(),
        s.settled(),
    ensures
        ({
            let (building, a) = s.on_message(InMsg::Start(c));
            let (starting, b) = building.on_built(true);
            let (playing, p) = starting.on_played(true);
            let (idle, d) = playing.on_message(InMsg::Stop);
            &&& a == s.close().1.push(Command::Build(building.session))
            &&& forall|i: int|
                0 <= i < a.len() ==> !(#[trigger] a[i] is NotifyStarted) && !(a[i] is Play) && !(
                a[i] is Route)
            &&& building.channel == Some(c)
            &&& b == seq![Command::<C>::Play]
            &&& starting.channel == Some(c)
            &&& p == seq![Command::<C>::NotifyStarted, Command::Route]
            &&& building.on_built(false).1 == seq![Command::<C>::Halt, Command::ResetRecognizer]
            &&& building.on_built(false).0.channel is None
            &&& starting.on_played(false).1 == seq![Command::<C>::Halt, Command::ResetRecognizer]
            &&& starting.on_played(false).0.channel is None
            &&& playing.phase == Phase::Playing
            &&& playing.channel == Some(c)
            &&& d == seq![Command::Halt, Command::ResetRecognizer, Command::NotifyStopped(c)]
            &&& idle.phase == Phase::Idle
            &&& idle.channel is None
        }),
{
    let (building, a) = s.on_message(InMsg::Start(c));
    let (starting, b) = building.on_built(true);
    let (playing, p) = starting.on_played(true);
    let (idle, d) = playing.on_message(InMsg::Stop);
    assert(d =~= seq![Command::Halt, Command::ResetRecognizer, Command::NotifyStopped(c)]);
    assert(b =~= seq![Command::<C>::Play]);
    assert(p =~= seq![Command::<C>::NotifyStarted, Command::Route]);
}

/// `Stop` on an idle transcriber changes nothing in the pipeline: it asks
/// for no halt, resets the recognizer, and reports `Stopped` only on a
/// channel left registered by a session whose stream ended, releasing it;
/// with no channel registered it reports nothing.
pub proof fn lemma_stop_when_idle<E, C>(s: TranscriberState<E, C>)
    requires
        s.phase == Phase::Idle,
    ensures
        ({
            let (t, cmds) = s.on_message(InMsg::Stop);
            &&& t == s.idle()
            &&& t.channel is None
            &&& s.channel matches Some(c) ==> cmds == seq![
                Command::ResetRecognizer,
                Command::NotifyStopped(c),
            ]
            &&& s.channel is None ==> cmds == seq![Command::<C>::ResetRecognizer]
        }),
{
    let (t, cmds) = s.on_message(InMsg::Stop);
    assert(cmds =~= seq![Command::<C>::ResetRecognizer] + s.release());
}

/// Starting while a session is playing is stopping it and then starting
/// afresh: the same state is reached, and the commands are those of the stop
/// followed by those of the start, which resets the recognizer of the old
/// session before the new one is built.
pub proof fn lemma_restart_is_stop_then_start<E, C>(s: TranscriberState<E, C>, c: C)
    requires
        s.wf(),
        s.phase == Phase::Playing,
    ensures
        ({
            let (direct, x) = s.on_message(InMsg::Start(c));
            let (stopped, y) = s.on_message(InMsg::Stop);
            let (restarted, z) = stopped.on_message(InMsg::Start(c));
            &&& direct == restarted
            &&& x == y + z
            &&& y.contains(Command::ResetRecognizer)
        }),
{
    let (direct, x) = s.on_message(InMsg::Start(c));
    let (stopped, y) = s.on_message(InMsg::Stop);
    let (restarted, z) = stopped.on_message(InMsg::Start(c));
    assert(z =~= seq![Command::<C>::Build(next_session(s.session))]);
    assert(x =~= y + z);
    assert(y[1] == Command::<C>::ResetRecognizer);
}

/// A recognizer reset touches nothing else: the state, and with it the
/// pipeline's phase and the registered channel, stays as it was, and no
/// lifecycle event is reported.
pub proof fn lemma_reset_is_silent<E, C>(s: TranscriberState<E, C>)
    ensures
        s.on_message(InMsg::Reset) == (s, seq![Command::<C>::ResetRecognizer]),
{
}

/// The end of a stream reported by any session but the latest one changes
/// nothing, so a late report cannot stop a newer session.
pub proof fn lemma_stale_stream_end_ignored<E, C>(s: TranscriberState<E, C>, n: u64)
    requires
        n != s.session,
    ensures
        s.on_message(InMsg::StreamEnded(n)) == (s, Seq::<Command<C>>::empty()),
{
}

/// Every halt of the pipeline is followed, within the same decision, by a
/// reset of the recognizer, so that no decoding state outlives its session.
pub open spec fn reset_after_halt<C>(cmds: Seq<Command<C>>) -> bool {
    forall|i: int|
        0 <= i < cmds.len() && #[trigger] cmds[i] == Command::<C>::Halt ==> exists|j: int|
            i < j < cmds.len() && cmds[j] == Command::<C>::ResetRecognizer
}

/// The recognizer is reset whenever the pipeline stops: after any control
/// message, and after the outcome of any build or start of play, a halt is
/// followed by a recognizer reset.
pub proof fn lemma_halt_then_reset<E, C>(s: TranscriberState<E, C>, msg: InMsg<E, C>, ok: bool)
    ensures
        reset_after_halt(s.on_message(msg).1),
        reset_after_halt(s.on_built(ok).1),
        reset_after_halt(s.on_played(ok).1),
{
    let cmds = s.on_message(msg).1;
    assert forall|i: int|
        0 <= i < cmds.len() && #[trigger] cmds[i] == Command::<C>::Halt implies exists|j: int|
        i < j < cmds.len() && cmds[j] == Command::<C>::ResetRecognizer by {
        assert(cmds[i + 1] == Command::<C>::ResetRecognizer);
    }
    let built = s.on_built(ok).1;
    assert forall|i: int|
        0 <= i < built.len() && #[trigger] built[i] == Command::<C>::Halt implies exists|j: int|
        i < j < built.len() && built[j] == Command::<C>::ResetRecognizer by {
        assert(built[i + 1] == Command::<C>::ResetRecognizer);
    }
    let played = s.on_played(ok).1;
    assert forall|i: int|
        0 <= i < played.len() && #[trigger] played[i] == Command::<C>::Halt implies exists|j: int|
        i < j < played.len() && played[j] == Command::<C>::ResetRecognizer by {
        assert(played[i + 1] == Command::<C>::ResetRecognizer);
    }
}

/// The decisions of the transcription actor: which pipeline and recognizer
/// operations each control message calls for, and which lifecycle events
/// go out on which channel.
pub struct Transcriber<E, C> {
    phase: Phase,
    element: E,
    channel: Option<C>,
    session: u64,
}

impl<E, C> View for Transcriber<E, C> {
    type V = TranscriberState<E, C>;

    closed spec fn view(&self) -> TranscriberState<E, C> {
        TranscriberState {
            phase: self.phase,
            element: self.element,
            channel: self.channel,
            session: self.session,
        }
    }
}

impl<E, C> Transcriber<E, C> {
    /// An idle transcriber that will capture from `element`.
    pub fn new(element: E) -> (r: Transcriber<E, C>)
        ensures
            r@ == (TranscriberState::<E, C> { phase: Phase::Idle, element, channel: None, session: 0 }),
    {
        Transcriber { phase: Phase::Idle, element, channel: None, session: 0 }
    }

    /// The current phase.
    pub fn phase(&self) -> (r: Phase)
        ensures
            r == self@.phase,
    {
        self.phase
    }

    /// The number of the latest session that was started.
    pub fn session(&self) -> (r: u64)
        ensures
            r == self@.session,
    {
        self.session
    }

    /// The capture element that the next pipeline is built from.
    pub fn element(&self) -> (r: &E)
        ensures
            *r == self@.element,
    {
        &self.element
    }

    /// The channel of the current session, if one is registered.
    pub fn channel(&self) -> (r: Option<&C>)
        ensures
            r is Some <==> self@.channel is Some,
            r is Some ==> *r->0 == self@.channel->0,
    {
        self.channel.as_ref()
    }

    fn release(&mut self, cmds: &mut Vec<Command<C>>)
        ensures
            final(self)@ == old(self)@.idle(),
            final(cmds)@ == old(cmds)@ + old(self)@.release(),
    {
        self.phase = Phase::Idle;
        if let Some(c) = self.channel.take() {
            cmds.push(Command::NotifyStopped(c));
        }
        proof {
            assert(cmds@ =~= old(cmds)@ + old(self)@.release());
        }
    }

    fn stop(&mut self) -> (r: Vec<Command<C>>)
        ensures
            (final(self)@, r@) == old(self)@.stop(),
    {
        let mut cmds: Vec<Command<C>> = Vec::new();
        if self.phase == Phase::Playing {
            cmds.push(Command::Halt);
        }
        cmds.push(Command::ResetRecognizer);
        self.release(&mut cmds);
        proof {
            let expected = old(self)@.stop().1;
            assert(cmds@ =~= expected);
        }
        cmds
    }

    /// Decides what a control message calls for.
    ///
    /// `Start` stops a playing session first (from idle it only releases a
    /// channel left by a session whose stream ended), then registers the new
    /// channel under a new session number and asks for a build; `Stop` halts
    /// a playing pipeline, resets the recognizer and reports `Stopped` on the
    /// registered channel, if any; `SetElement` only records the element;
    /// `Reset` only resets the recognizer; `StreamEnded` from the latest
    /// session returns its playing pipeline to idle and keeps the channel
    /// registered until the next `Stop` or `Start`.
    pub fn handle(&mut self, msg: InMsg<E, C>) -> (r: Vec<Command<C>>)
        requires
            old(self)@.wf(),
            old(self)@.settled(),
        ensures
            final(self)@.wf(),
            (final(self)@, r@) == old(self)@.on_message(msg),
    {
        match msg {
            InMsg::Start(c) => {
                let mut cmds = if self.phase == Phase::Playing {
                    self.stop()
                } else {
                    let mut cmds: Vec<Command<C>> = Vec::new();
                    self.release(&mut cmds);
                    proof {
                        assert(cmds@ =~= old(self)@.release());
                    }
                    cmds
                };
                let n: u64 = if self.session == u64::MAX {
                    0
                } else {
                    self.session + 1
                };
                self.session = n;
                self.channel = Some(c);
                self.phase = Phase::Building;
                cmds.push(Command::Build(n));
                cmds
            },
            InMsg::Stop => self.stop(),
            InMsg::SetElement(e) => {
                self.element = e;
                Vec::new()
            },
            InMsg::Reset => {
                let mut cmds: Vec<Command<C>> = Vec::new();
                cmds.push(Command::ResetRecognizer);
                proof {
                    assert(cmds@ =~= seq![Command::<C>::ResetRecognizer]);
                }
                cmds
            },
            InMsg::StreamEnded(n) => {
                let mut cmds: Vec<Command<C>> = Vec::new();
                if self.phase == Phase::Playing && n == self.session {
                    self.phase = Phase::Idle;
                    cmds.push(Command::Halt);
                    cmds.push(Command::ResetRecognizer);
                    proof {
                        assert(cmds@ =~= seq![Command::<C>::Halt, Command::ResetRecognizer]);
                    }
                }
                cmds
            },
        }
    }

    /// Decides what follows the outcome of the build that `Start` asked for.
    pub fn build_finished(&mut self, ok: bool) -> (r: Vec<Command<C>>)
        requires
            old(self)@.wf(),
            old(self)@.phase == Phase::Building,
        ensures
            final(self)@.wf(),
            (final(self)@, r@) == old(self)@.on_built(ok),
    {
        let mut cmds: Vec<Command<C>> = Vec::new();
        if ok {
            self.phase = Phase::Starting;
            cmds.push(Command::Play);
            proof {
                assert(cmds@ =~= seq![Command::<C>::Play]);
            }
        } else {
            self.phase = Phase::Idle;
            self.channel = None;
            cmds.push(Command::Halt);
            cmds.push(Command::ResetRecognizer);
            proof {
                assert(cmds@ =~= seq![Command::<C>::Halt, Command::ResetRecognizer]);
            }
        }
        cmds
    }

    /// Decides what follows the outcome of the start of play that a
    /// successful build asked for.
    pub fn play_finished(&mut self, ok: bool) -> (r: Vec<Command<C>>)
        requires
            old(self)@.wf(),
            old(self)@.phase == Phase::Starting,
        ensures
            final(self)@.wf(),
            (final(self)@, r@) == old(self)@.on_played(ok),
    {
        let mut cmds: Vec<Command<C>> = Vec::new();
        if ok {
            self.phase = Phase::Playing;
            cmds.push(Command::NotifyStarted);
            cmds.push(Command::Route);
            proof {
                assert(cmds@ =~= seq![Command::<C>::NotifyStarted, Command::Route]);
            }
        } else {
            self.phase = Phase::Idle;
            self.channel = None;
            cmds.push(Command::Halt);
            cmds.push(Command::ResetRecognizer);
            proof {
                assert(cmds@ =~= seq![Command::<C>::Halt, Command::ResetRecognizer]);
            }
        }
        cmds
    }
}

} // verus!
