//! The current pipeline, the list of retired ones and the frame counter that
//! decides when the retired ones can be released.
use vstd::prelude::*;

verus! {

/// Abstract state of a [`PipelineSlots`].
pub ghost struct SlotsView<P> {
    /// The one pipeline that frames bind.
    pub current: P,
    /// Retired pipelines that are not yet released, oldest first.
    pub discarded: Seq<P>,
    /// For each entry of `discarded`, the number of frames recorded since it
    /// stopped being current.
    pub ages: Seq<nat>,
    /// Frames recorded since the most recent swap (saturating).
    pub in_use: nat,
    /// Frames that must pass before a retired pipeline is released.
    pub frames_in_flight: nat,
}

/// Owns the current pipeline and the pipelines retired by swaps.
///
/// A retired pipeline stays in the discard list until at least
/// `frames_in_flight` frames were recorded after the swap that retired it.
pub struct PipelineSlots<P> {
    current: P,
    discarded: Vec<P>,
    ages: Ghost<Seq<nat>>,
    in_use: usize,
    frames_in_flight: usize,
}

impl<P> View for PipelineSlots<P> {
    type V = SlotsView<P>;

    closed spec fn view(&self) -> SlotsView<P> {
        SlotsView {
            current: self.current,
            discarded: self.discarded@,
            ages: self.ages@,
            in_use: self.in_use as nat,
            frames_in_flight: self.frames_in_flight as nat,
        }
    }
}

/// Adds one recorded frame to the age of each retired pipeline.
pub open spec fn aged_by_one(ages: Seq<nat>) -> Seq<nat> {
    Seq::new(ages.len(), |i: int| ages[i] + 1)
}

impl<P> SlotsView<P> {
    /// The counters fit in `usize`, there is one age per retired pipeline,
    /// and each retired pipeline has aged at least as long as the counter
    /// says, since the counter restarts at each swap.
    pub open spec fn wf(self) -> bool {
        &&& self.ages.len() == self.discarded.len()
        &&& self.in_use <= usize::MAX
        &&& self.frames_in_flight <= usize::MAX
        &&& forall|i: int| 0 <= i < self.ages.len() ==> self.in_use <= #[trigger] self.ages[i]
    }

    /// Whether enough frames have passed since the last swap for every retired
    /// pipeline to be released.
    pub open spec fn sweep_due(self) -> bool {
        self.in_use >= self.frames_in_flight
    }

    /// The state after `next` replaces the current pipeline.
    pub open spec fn installed(self, next: P) -> Self {
        SlotsView {
            current: next,
            discarded: self.discarded.push(self.current),
            ages: self.ages.push(0),
            in_use: 0,
            frames_in_flight: self.frames_in_flight,
        }
    }

    /// The state after one frame is recorded.
    pub open spec fn framed(self) -> Self {
        SlotsView {
            ages: aged_by_one(self.ages),
            in_use: if self.in_use < usize::MAX {
                self.in_use + 1
            } else {
                self.in_use
            },
            ..self
        }
    }

    /// The state after `n` frames are recorded.
    pub open spec fn framed_times(self, n: nat) -> Self
        decreases n,
    {
        if n == 0 {
            self
        } else {
            self.framed_times((n - 1) as nat).framed()
        }
    }

    /// The state after a sweep.
    pub open spec fn swept(self) -> Self {
        if self.sweep_due() {
            SlotsView { discarded: Seq::empty(), ages: Seq::empty(), ..self }
        } else {
            self
        }
    }
}

/// Every operation keeps the relation between the ages of the retired
/// pipelines and the frame counter.
pub proof fn lemma_transitions_keep_wf<P>(v: SlotsView<P>, next: P)
    requires
        v.wf(),
    ensures
        v.installed(next).wf(),
        v.framed().wf(),
        v.swept().wf(),
{
}

/// A sweep releases a retired pipeline only when at least
/// `frames_in_flight` frames were recorded since it was retired.
pub proof fn lemma_safe_retirement<P>(v: SlotsView<P>, i: int)
    requires
        v.wf(),
        0 <= i < v.discarded.len(),
        v.swept().discarded.len() < v.discarded.len(),
    ensures
        v.ages[i] >= v.frames_in_flight,
{
}

/// After a swap, `n` recorded frames leave the counter at `n` and the
/// discard list as the swap left it.
pub proof fn lemma_frames_after_swap<P>(v: SlotsView<P>, next: P, n: nat)
    requires
        n <= usize::MAX,
    ensures
        v.installed(next).framed_times(n).in_use == n,
        v.installed(next).framed_times(n).current == next,
        v.installed(next).framed_times(n).discarded == v.discarded.push(v.current),
        v.installed(next).framed_times(n).frames_in_flight == v.frames_in_flight,
    decreases n,
{
    if n > 0 {
        lemma_frames_after_swap(v, next, (n - 1) as nat);
    }
}

/// A pipeline retired by a swap survives every sweep until
/// `frames_in_flight` frames have been recorded after that swap.
pub proof fn lemma_retired_kept_until_frames_in_flight<P>(v: SlotsView<P>, next: P, n: nat)
    requires
        v.wf(),
        n < v.frames_in_flight,
    ensures
        v.installed(next).framed_times(n).swept().discarded.last() == v.current,
        v.installed(next).framed_times(n).swept().discarded.len() == v.discarded.len() + 1,
{
    lemma_frames_after_swap(v, next, n);
}

impl<P> PipelineSlots<P> {
    /// Starts with `initial` as the current pipeline and nothing retired.
    pub fn new(initial: P, frames_in_flight: usize) -> (s: Self)
        ensures
            s@.wf(),
            s@.current == initial,
            s@.discarded == Seq::<P>::empty(),
            s@.in_use == frames_in_flight,
            s@.frames_in_flight == frames_in_flight,
    {
        PipelineSlots {
            current: initial,
            discarded: Vec::new(),
            ages: Ghost(Seq::empty()),
            in_use: frames_in_flight,
            frames_in_flight,
        }
    }

    /// Installs `next` as the current pipeline. The previous one goes to the
    /// tail of the discard list and the frame counter restarts at zero.
    pub fn install(&mut self, next: P)
        requires
            old(self)@.wf(),
        ensures
            final(self)@.wf(),
            final(self)@ == old(self)@.installed(next),
    {
        let mut retired = next;
        std::mem::swap(&mut self.current, &mut retired);
        self.discarded.push(retired);
        self.ages = Ghost(self.ages@.push(0));
        self.in_use = 0;
    }

    /// Takes the outcome of a pipeline build. A built pipeline is installed
    /// and `Ok(())` tells the caller to re-record its command buffers; a
    /// failed build leaves everything as it was and hands its error back.
    pub fn apply_rebuild<E>(&mut self, built: Result<P, E>) -> (r: Result<(), E>)
        requires
            old(self)@.wf(),
        ensures
            final(self)@.wf(),
            r is Ok <==> built is Ok,
            built is Ok ==> final(self)@ == old(self)@.installed(built->Ok_0),
            built is Err ==> r->Err_0 == built->Err_0 && final(self)@ == old(self)@,
    {
        match built {
            Ok(p) => {
                self.install(p);
                Ok(())
            },
            Err(e) => Err(e),
        }
    }

    /// Records one frame against the current pipeline, which it returns.
    /// The counter grows by one (it stops at `usize::MAX`).
    pub fn record_frame(&mut self) -> (bound: &P)
        requires
            old(self)@.wf(),
        ensures
            final(self)@.wf(),
            *bound == old(self)@.current,
            final(self)@ == old(self)@.framed(),
    {
        self.in_use = self.in_use.saturating_add(1);
        self.ages = Ghost(aged_by_one(self.ages@));
        &self.current
    }

    /// Releases every retired pipeline once the counter has reached
    /// `frames_in_flight`; returns how many were released.
    pub fn sweep(&mut self) -> (released: usize)
        requires
            old(self)@.wf(),
        ensures
            final(self)@.wf(),
            final(self)@ == old(self)@.swept(),
            released == old(self)@.discarded.len() - final(self)@.discarded.len(),
            // a pipeline leaves the list only after enough frames have aged it
            released > 0 ==> forall|i: int|
                0 <= i < old(self)@.discarded.len()
                    ==> #[trigger] old(self)@.ages[i] >= old(self)@.frames_in_flight,
    {
        if self.in_use >= self.frames_in_flight {
            let released = self.discarded.len();
            self.discarded.clear();
            self.ages = Ghost(Seq::empty());
            released
        } else {
            0
        }
    }

    /// The pipeline that frames bind.
    pub fn current(&self) -> (c: &P)
        ensures
            *c == self@.current,
    {
        &self.current
    }

    /// Number of retired pipelines not yet released.
    pub fn discarded_len(&self) -> (n: usize)
        ensures
            n == self@.discarded.len(),
    {
        self.discarded.len()
    }

    /// Frames recorded since the last swap.
    pub fn in_use(&self) -> (n: usize)
        ensures
            n == self@.in_use,
    {
        self.in_use
    }

    /// Frames that must pass before retired pipelines are released.
    pub fn frames_in_flight(&self) -> (n: usize)
        ensures
            n == self@.frames_in_flight,
    {
        self.frames_in_flight
    }
}

} // verus!
