use crate::loudness::{loudness, measures, Loudness};
use vstd::arithmetic::div_mod::lemma_fundamental_div_mod_converse;
use vstd::prelude::*;

verus! {

/// One full window of samples, with its loudness measured once.
pub struct AudioWindow {
    pub samples: Vec<i16>,
    pub loudness: Loudness,
}

/// One step of the work on a full window, in the order it is carried out.
#[derive(Debug, PartialEq, Eq)]
pub enum WindowStep {
    /// Send this loudness on the loudness channel.
    SendLoudness(Loudness),
    /// Feed these samples to the recognizer.
    Feed(Vec<i16>),
    /// Fetch the result that the feed's outcome calls for (`query_for`) and
    /// send it as its transcript message (`transcript_message`).
    Report,
}

/// The work on a window: its loudness goes out first, then its samples are
/// fed to the recognizer, then the result of that feed is reported.
pub fn window_steps(w: AudioWindow) -> (r: Vec<WindowStep>)
    ensures
        r@.len() == 3,
        r@[0] == WindowStep::SendLoudness(w.loudness),
        r@[1] matches WindowStep::Feed(s) && s@ == w.samples@,
        r@[2] is Report,
{
    let mut steps: Vec<WindowStep> = Vec::new();
    steps.push(WindowStep::SendLoudness(w.loudness));
    steps.push(WindowStep::Feed(w.samples));
    steps.push(WindowStep::Report);
    steps
}

/// The sample sequences of a list of windows.
pub open spec fn window_samples(ws: Seq<AudioWindow>) -> Seq<Seq<i16>> {
    ws.map_values(|w: AudioWindow| w.samples@)
}

/// Abstract state of a router: the window size and the samples waiting for
/// their window to fill.
pub struct RouterState {
    pub chunk_size: nat,
    pub pending: Seq<i16>,
}

impl RouterState {
    /// The window size is positive and the pending samples never fill a
    /// window.
    pub open spec fn wf(self) -> bool {
        &&& self.chunk_size > 0
        &&& self.pending.len() < self.chunk_size
    }
}

/// Feeding `samples` to a router in state `before` emits the windows `ws` and
/// leaves it in state `after`: the pending samples followed by the new ones
/// are cut into full windows, in order, and what does not fill a window
/// stays pending.
pub open spec fn routes(
    before: RouterState,
    samples: Seq<i16>,
    ws: Seq<Seq<i16>>,
    after: RouterState,
) -> bool {
    &&& after.chunk_size == before.chunk_size
    &&& after.pending.len() < after.chunk_size
    &&& forall|i: int| 0 <= i < ws.len() ==> #[trigger] ws[i].len() == before.chunk_size
    &&& ws.flatten() + after.pending == before.pending + samples
}

proof fn lemma_flatten_uniform_len(ws: Seq<Seq<i16>>, n: nat)
    requires
        forall|i: int| 0 <= i < ws.len() ==> #[trigger] ws[i].len() == n,
    ensures
        ws.flatten().len() == ws.len() * n,
    decreases ws.len(),
{
    if ws.len() > 0 {
        let rest = ws.drop_first();
        assert forall|i: int| 0 <= i < rest.len() implies #[trigger] rest[i].len() == n by {
            assert(rest[i] == ws[i + 1]);
        }
        lemma_flatten_uniform_len(rest, n);
        assert(ws[0].len() == n);
        assert(ws.len() * n == n + rest.len() * n) by (nonlinear_arith)
            requires
                ws.len() == rest.len() + 1,
        ;
    }
}

/// The number of windows that a push emits is the number of whole windows in
/// the pending samples and the new ones together.
pub proof fn lemma_window_count(
    before: RouterState,
    samples: Seq<i16>,
    ws: Seq<Seq<i16>>,
    after: RouterState,
)
    requires
        before.wf(),
        routes(before, samples, ws, after),
    ensures
        ws.len() == (before.pending.len() + samples.len()) as int / (before.chunk_size as int),
        after.pending.len() == (before.pending.len() + samples.len()) as int % (
        before.chunk_size as int),
{
    let n = before.chunk_size;
    lemma_flatten_uniform_len(ws, n);
    assert((ws.flatten() + after.pending).len() == (before.pending + samples).len());
    lemma_fundamental_div_mod_converse(
        (before.pending.len() + samples.len()) as int,
        n as int,
        ws.len() as int,
        after.pending.len() as int,
    );
}

/// A router with nothing pending emits exactly one window, made of the
/// samples themselves, when it is fed exactly one window's worth of samples,
/// and emits none when it is fed fewer.
pub proof fn lemma_one_window_per_chunk(
    before: RouterState,
    samples: Seq<i16>,
    ws: Seq<Seq<i16>>,
    after: RouterState,
)
    requires
        before.wf(),
        before.pending.len() == 0,
        routes(before, samples, ws, after),
    ensures
        samples.len() == before.chunk_size ==> {
            &&& ws.len() == 1
            &&& ws[0] == samples
            &&& after.pending.len() == 0
        },
        samples.len() < before.chunk_size ==> {
            &&& ws.len() == 0
            &&& after.pending == samples
        },
{
    let n = before.chunk_size as int;
    lemma_flatten_uniform_len(ws, before.chunk_size);
    assert(before.pending + samples =~= samples);
    assert((ws.flatten() + after.pending).len() == samples.len());
    let k = ws.len() as int;
    if samples.len() == n {
        assert(k == 1) by (nonlinear_arith)
            requires
                k * n + after.pending.len() == n,
                0 <= after.pending.len() < n,
                k >= 0,
        ;
        ws.lemma_flatten_one_element();
        assert(after.pending.len() == 0);
        assert(ws.flatten() + after.pending =~= ws.flatten());
    } else if samples.len() < n {
        assert(k == 0) by (nonlinear_arith)
            requires
                k * n + after.pending.len() == samples.len(),
                samples.len() < n,
                k >= 0,
        ;
        assert(ws.flatten() =~= Seq::<i16>::empty());
        assert(ws.flatten() + after.pending =~= after.pending);
    }
}

/// Accumulates decoded samples into fixed-size windows.
pub struct SampleRouter {
    chunk_size: usize,
    pending: Vec<i16>,
}

impl View for SampleRouter {
    type V = RouterState;

    closed spec fn view(&self) -> RouterState {
        RouterState { chunk_size: self.chunk_size as nat, pending: self.pending@ }
    }
}

impl SampleRouter {
    /// A router with windows of `chunk_size` samples and nothing pending.
    pub fn new(chunk_size: usize) -> (r: SampleRouter)
        requires
            chunk_size > 0,
        ensures
            r@.wf(),
            r@.chunk_size == chunk_size,
            r@.pending == Seq::<i16>::empty(),
    {
        SampleRouter { chunk_size, pending: Vec::new() }
    }

    /// The window size.
    pub fn chunk_size(&self) -> (r: usize)
        ensures
            r == self@.chunk_size,
    {
        self.chunk_size
    }

    /// The number of samples waiting for their window to fill.
    pub fn pending_len(&self) -> (r: usize)
        ensures
            r == self@.pending.len(),
    {
        self.pending.len()
    }

    /// Takes a chunk of decoded samples and returns every window that it
    /// completes, in arrival order, each with its loudness.
    pub fn push(&mut self, samples: &[i16]) -> (r: Vec<AudioWindow>)
        requires
            old(self)@.wf(),
        ensures
            final(self)@.wf(),
            routes(old(self)@, samples@, window_samples(r@), final(self)@),
            forall|i: int| 0 <= i < r@.len() ==> measures(#[trigger] r@[i].loudness, r@[i].samples@),
    {
        broadcast use Seq::lemma_flatten_push, Seq::lemma_push_map_commute;

        let n = self.chunk_size;
        let mut pending: Vec<i16> = Vec::new();
        std::mem::swap(&mut pending, &mut self.pending);
        let ghost start = pending@;
        let mut out: Vec<AudioWindow> = Vec::new();
        let mut i: usize = 0;
        while i < samples.len()
            invariant
                n == old(self)@.chunk_size,
                start == old(self)@.pending,
                n > 0,
                i <= samples@.len(),
                pending@.len() < n,
                forall|j: int| 0 <= j < out@.len() ==> (#[trigger] out@[j]).samples@.len() == n,
                forall|j: int|
                    0 <= j < out@.len() ==> measures(#[trigger] out@[j].loudness, out@[j].samples@),
                window_samples(out@).flatten() + pending@ == start + samples@.subrange(0, i as int),
            decreases samples@.len() - i,
        {
            let ghost before = pending@;
            pending.push(samples[i]);
            assert(samples@.subrange(0, i + 1) =~= samples@.subrange(0, i as int).push(samples@[i as int]));
            let ghost flat = window_samples(out@).flatten();
            assert(flat + pending@ =~= (flat + before).push(samples@[i as int]));
            if pending.len() == n {
                let mut full: Vec<i16> = Vec::new();
                std::mem::swap(&mut full, &mut pending);
                let l = loudness(full.as_slice());
                let ghost ws = window_samples(out@);
                let w = AudioWindow { samples: full, loudness: l };
                out.push(w);
                assert(window_samples(out@) =~= ws.push(full@));
                proof {
                    ws.lemma_flatten_push(full@);
                }
                assert(pending@ =~= Seq::<i16>::empty());
                assert(window_samples(out@).flatten() + pending@ =~= flat + full@);
            }
            i = i + 1;
        }
        assert(samples@.subrange(0, samples@.len() as int) =~= samples@);
        self.pending = pending;
        out
    }
}

} // verus!
