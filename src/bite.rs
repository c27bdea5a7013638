use vstd::prelude::*;

verus! {

/// Where a cast cycle stands.
#[derive(Clone, Copy, Debug, PartialEq, Eq, Structural)]
pub enum FishingState {
    /// The line was just cast; no positive sample has been seen yet.
    Casting,
    /// The line is in the water and samples are classified.
    WaitingForBite,
    /// A bite was detected; terminal for the cycle.
    Reeling,
}

/// The mathematical state of a detector: the cycle state, the carried
/// counters and the threshold the detector was made with.
pub struct DetectorModel {
    pub state: FishingState,
    pub peak_value: u32,
    pub last_value: u32,
    pub falling_count: u32,
    pub post_peak_count: u64,
    pub threshold: u32,
}

/// State at the start of every cycle: `Casting`, all counters zero.
pub open spec fn initial_model(threshold: u32) -> DetectorModel {
    DetectorModel {
        state: FishingState::Casting,
        peak_value: 0,
        last_value: 0,
        falling_count: 0,
        post_peak_count: 0,
        threshold,
    }
}

/// What every reachable detector state satisfies: the last sample never
/// exceeds the peak, a falling run is never longer than the drop from the
/// peak allows, and the post-peak count passes the threshold only once the
/// cycle reels.
pub open spec fn model_wf(m: DetectorModel) -> bool {
    &&& m.last_value <= m.peak_value
    &&& m.falling_count + m.last_value <= m.peak_value
    &&& m.post_peak_count <= m.threshold + 1
    &&& m.state != FishingState::Reeling ==> m.post_peak_count <= m.threshold
}

/// Bite classification of one sample `v` while waiting for a bite.
pub open spec fn bite_step(m: DetectorModel, v: u32) -> DetectorModel {
    if v > m.peak_value {
        DetectorModel {
            state: FishingState::WaitingForBite,
            peak_value: v,
            last_value: v,
            falling_count: 0,
            post_peak_count: 0,
            ..m
        }
    } else if v < m.last_value {
        let falling = (m.falling_count + 1) as u32;
        if falling > 2 && m.peak_value > 2 {
            let post = (m.post_peak_count + 1) as u64;
            DetectorModel {
                state: if post > m.threshold {
                    FishingState::Reeling
                } else {
                    FishingState::WaitingForBite
                },
                last_value: v,
                falling_count: falling,
                post_peak_count: post,
                ..m
            }
        } else {
            DetectorModel {
                state: FishingState::WaitingForBite,
                last_value: v,
                falling_count: falling,
                ..m
            }
        }
    } else {
        DetectorModel {
            state: FishingState::WaitingForBite,
            last_value: v,
            falling_count: 0,
            ..m
        }
    }
}

/// One sample `v` fed to the detector in whatever state it is in.
pub open spec fn fishing_step(m: DetectorModel, v: u32) -> DetectorModel {
    match m.state {
        FishingState::Casting => if v > 0 {
            DetectorModel { state: FishingState::WaitingForBite, ..m }
        } else {
            m
        },
        FishingState::WaitingForBite => bite_step(m, v),
        FishingState::Reeling => m,
    }
}

/// The detector after the samples `s`, fed in order, starting from `m`.
pub open spec fn run_samples(m: DetectorModel, s: Seq<u32>) -> DetectorModel
    decreases s.len(),
{
    if s.len() == 0 {
        m
    } else {
        fishing_step(run_samples(m, s.drop_last()), s.last())
    }
}

/// The state after each prefix of `s`, starting from a fresh detector.
pub open spec fn state_trace(threshold: u32, s: Seq<u32>) -> Seq<FishingState> {
    Seq::new(s.len(), |i: int| run_samples(initial_model(threshold), s.take(i + 1)).state)
}

/// Every sample of `s` is zero.
pub open spec fn all_zero(s: Seq<u32>) -> bool {
    forall|k: int| 0 <= k < s.len() ==> s[k] == 0
}

/// One step keeps a well-formed detector well-formed.
pub proof fn lemma_step_wf(m: DetectorModel, v: u32)
    requires
        model_wf(m),
    ensures
        model_wf(fishing_step(m, v)),
        fishing_step(m, v).threshold == m.threshold,
{
}

/// Feeding any samples keeps a well-formed detector well-formed.
pub proof fn lemma_run_wf(m: DetectorModel, s: Seq<u32>)
    requires
        model_wf(m),
    ensures
        model_wf(run_samples(m, s)),
        run_samples(m, s).threshold == m.threshold,
    decreases s.len(),
{
    if s.len() > 0 {
        lemma_run_wf(m, s.drop_last());
        lemma_step_wf(run_samples(m, s.drop_last()), s.last());
    }
}

/// Once a cycle reels it keeps reeling, whatever samples follow; and a
/// fresh detector is still casting exactly while every sample so far was
/// zero, so it leaves `Casting` for good at the first positive sample.
pub proof fn lemma_state_progress(threshold: u32, s: Seq<u32>, i: int, j: int)
    requires
        0 <= i <= j <= s.len(),
    ensures
        run_samples(initial_model(threshold), s.take(i)).state == FishingState::Reeling
            ==> run_samples(initial_model(threshold), s.take(j)).state == FishingState::Reeling,
        run_samples(initial_model(threshold), s.take(j)).state == FishingState::Casting
            <==> all_zero(s.take(j)),
    decreases j - i,
{
    lemma_casting_iff_zero(threshold, s.take(j));
    if i < j {
        lemma_state_progress(threshold, s, i, j - 1);
        assert(s.take(j).drop_last() =~= s.take(j - 1));
    }
}

/// A fresh detector is casting after `s` exactly when `s` is all zeros.
proof fn lemma_casting_iff_zero(threshold: u32, s: Seq<u32>)
    ensures
        run_samples(initial_model(threshold), s).state == FishingState::Casting <==> all_zero(s),
    decreases s.len(),
{
    if s.len() > 0 {
        let p = s.drop_last();
        lemma_casting_iff_zero(threshold, p);
        if all_zero(s) {
            assert(all_zero(p));
        } else if all_zero(p) {
            assert(s.last() != 0) by {
                let k = choose|k: int| 0 <= k < s.len() && s[k] != 0;
                if k < s.len() - 1 {
                    assert(p[k] == s[k]);
                }
            }
        } else {
            let k = choose|k: int| 0 <= k < p.len() && p[k] != 0;
            assert(s[k] == p[k]);
        }
    }
}

/// A bite detector for one cast cycle.
pub struct BiteDetector {
    state: FishingState,
    peak_value: u32,
    last_value: u32,
    falling_count: u32,
    post_peak_count: u64,
    threshold: u32,
}

impl View for BiteDetector {
    type V = DetectorModel;

    closed spec fn view(&self) -> DetectorModel {
        DetectorModel {
            state: self.state,
            peak_value: self.peak_value,
            last_value: self.last_value,
            falling_count: self.falling_count,
            post_peak_count: self.post_peak_count,
            threshold: self.threshold,
        }
    }
}

impl BiteDetector {
    /// A fresh detector, as at the start of a cycle.
    pub fn new(threshold: u32) -> (r: Self)
        ensures
            r@ == initial_model(threshold),
            model_wf(r@),
    {
        BiteDetector {
            state: FishingState::Casting,
            peak_value: 0,
            last_value: 0,
            falling_count: 0,
            post_peak_count: 0,
            threshold,
        }
    }

    /// Classifies one sample while waiting for a bite.
    pub fn update_bite_detection(&mut self, current_value: u32) -> (r: FishingState)
        requires
            model_wf(old(self)@),
            old(self)@.state == FishingState::WaitingForBite,
        ensures
            final(self)@ == bite_step(old(self)@, current_value),
            model_wf(final(self)@),
            r == final(self)@.state,
    {
        if current_value > self.peak_value {
            self.peak_value = current_value;
            self.falling_count = 0;
            self.post_peak_count = 0;
        } else if current_value < self.last_value {
            self.falling_count = self.falling_count + 1;
            if self.falling_count > 2 && self.peak_value > 2 {
                self.post_peak_count = self.post_peak_count + 1;
                if self.post_peak_count > self.threshold as u64 {
                    self.state = FishingState::Reeling;
                }
            }
        } else {
            self.falling_count = 0;
        }
        self.last_value = current_value;
        self.state
    }

    /// Feeds one sample to the detector, in whatever state it is in.
    pub fn update_fishing_state(&mut self, current_value: u32) -> (r: FishingState)
        requires
            model_wf(old(self)@),
        ensures
            final(self)@ == fishing_step(old(self)@, current_value),
            model_wf(final(self)@),
            r == final(self)@.state,
    {
        match self.state {
            FishingState::Casting => {
                if current_value > 0 {
                    self.state = FishingState::WaitingForBite;
                }
                self.state
            },
            FishingState::WaitingForBite => self.update_bite_detection(current_value),
            FishingState::Reeling => self.state,
        }
    }

    /// Feeds `samples` in order and returns the state after each one.
    pub fn state_sequence(threshold: u32, samples: &Vec<u32>) -> (r: Vec<FishingState>)
        ensures
            r@ == state_trace(threshold, samples@),
    {
        let mut d = BiteDetector::new(threshold);
        let mut r: Vec<FishingState> = Vec::new();
        let mut i: usize = 0;
        while i < samples.len()
            invariant
                i <= samples.len(),
                model_wf(d@),
                d@ == run_samples(initial_model(threshold), samples@.take(i as int)),
                r@.len() == i,
                forall|k: int| 0 <= k < i ==> r@[k] == state_trace(threshold, samples@)[k],
            decreases samples.len() - i,
        {
            let s = d.update_fishing_state(samples[i]);
            assert(samples@.take(i as int + 1).drop_last() =~= samples@.take(i as int));
            r.push(s);
            i = i + 1;
        }
        assert(r@ =~= state_trace(threshold, samples@));
        r
    }

    pub fn state(&self) -> (r: FishingState)
        ensures
            r == self@.state,
    {
        self.state
    }

    pub fn peak_value(&self) -> (r: u32)
        ensures
            r == self@.peak_value,
    {
        self.peak_value
    }

    pub fn last_value(&self) -> (r: u32)
        ensures
            r == self@.last_value,
    {
        self.last_value
    }

    pub fn falling_count(&self) -> (r: u32)
        ensures
            r == self@.falling_count,
    {
        self.falling_count
    }

    pub fn post_peak_count(&self) -> (r: u64)
        ensures
            r == self@.post_peak_count,
    {
        self.post_peak_count
    }

    pub fn threshold(&self) -> (r: u32)
        ensures
            r == self@.threshold,
    {
        self.threshold
    }
}

} // verus!
