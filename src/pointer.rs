use vstd::prelude::*;

verus! {

/// Why a pointer chain could not be resolved.
#[derive(Clone, Copy, Debug, PartialEq, Eq, Structural)]
pub enum ResolveError {
    /// The read of step `step` (counted from zero) failed.
    ReadFailed { step: usize },
    /// The pointer read at step `step` plus that step's offset does not fit
    /// in an address.
    AddressOverflow { step: usize },
}

/// The mathematical state of a walk: the base, the offsets, the current
/// address, how many steps were taken and how the walk failed, if it did.
pub struct WalkModel {
    pub base: usize,
    pub offsets: Seq<usize>,
    pub addr: usize,
    pub step: nat,
    pub error: Option<ResolveError>,
}

/// A walk that has read nothing yet: it stands at `base`.
pub open spec fn walk_start(base: usize, offsets: Seq<usize>) -> WalkModel {
    WalkModel { base, offsets, addr: base, step: 0, error: None }
}

/// The walk never passes its last offset, and it fails only at a step that
/// it had yet to take.
pub open spec fn walk_wf(w: WalkModel) -> bool {
    &&& w.step <= w.offsets.len()
    &&& w.error.is_some() ==> w.step < w.offsets.len()
}

/// The walk still needs a read, at its current address.
pub open spec fn walk_pending(w: WalkModel) -> bool {
    w.error.is_none() && w.step < w.offsets.len()
}

/// The walk after the read that it was waiting for gave `read` (`None`
/// when the read failed): the pointer read plus the step's offset becomes
/// the new address.
pub open spec fn walk_step(w: WalkModel, read: Option<usize>) -> WalkModel {
    match read {
        None => WalkModel { error: Some(ResolveError::ReadFailed { step: w.step as usize }), ..w },
        Some(v) => if v + w.offsets[w.step as int] <= usize::MAX {
            WalkModel {
                addr: (v + w.offsets[w.step as int]) as usize,
                step: w.step + 1,
                ..w
            }
        } else {
            WalkModel { error: Some(ResolveError::AddressOverflow { step: w.step as usize }), ..w }
        },
    }
}

/// The walk after the read results `reads`, in order, starting from `w`.
/// Results handed in after the walk stopped needing reads are ignored.
pub open spec fn walk_run(w: WalkModel, reads: Seq<Option<usize>>) -> WalkModel
    decreases reads.len(),
{
    if reads.len() == 0 {
        w
    } else {
        let p = walk_run(w, reads.drop_last());
        if walk_pending(p) {
            walk_step(p, reads.last())
        } else {
            p
        }
    }
}

/// What the walk has to say: nothing while a read is owed, the error once
/// one came, the final address once every offset was applied.
pub open spec fn walk_outcome(w: WalkModel) -> Option<Result<usize, ResolveError>> {
    match w.error {
        Some(e) => Some(Err(e)),
        None => if w.step == w.offsets.len() {
            Some(Ok(w.addr))
        } else {
            None
        },
    }
}

/// The address a chain resolves to when the pointer read at each step is
/// `values[i]`: each value plus its offset, the last one not followed.
pub open spec fn chain_address(base: usize, offsets: Seq<usize>, values: Seq<usize>) -> int {
    if values.len() == 0 {
        base as int
    } else {
        values.last() + offsets[values.len() - 1]
    }
}

/// Each value read plus its step's offset stays within `usize::MAX`.
pub open spec fn fits(offsets: Seq<usize>, values: Seq<usize>) -> bool {
    forall|i: int| 0 <= i < values.len() ==> values[i] + offsets[i] <= usize::MAX
}

/// The read results handed in are the values, all successful.
pub open spec fn successes(values: Seq<usize>) -> Seq<Option<usize>> {
    values.map_values(|v: usize| Some(v))
}

/// Resolving a chain of `n` offsets takes exactly `n` reads when every read
/// succeeds: after fewer the walk still asks for a read, after `n` it asks
/// for none and yields the address that the last value plus the last offset
/// gives. When the read at any step `k` fails, the walk stops right there,
/// after `k + 1` reads, yields that error and no address, and asks for no
/// further read whatever comes next.
pub proof fn lemma_reads_all_or_nothing(
    base: usize,
    offsets: Seq<usize>,
    values: Seq<usize>,
    rest: Seq<Option<usize>>,
)
    requires
        values.len() <= offsets.len(),
        offsets.len() <= usize::MAX,
        fits(offsets, values),
    ensures
        walk_run(walk_start(base, offsets), successes(values)).step == values.len(),
        values.len() < offsets.len() ==> walk_pending(
            walk_run(walk_start(base, offsets), successes(values)),
        ),
        values.len() == offsets.len() ==> !walk_pending(
            walk_run(walk_start(base, offsets), successes(values)),
        ) && walk_outcome(walk_run(walk_start(base, offsets), successes(values))) == Some(
            Ok::<usize, ResolveError>(chain_address(base, offsets, values) as usize),
        ),
        values.len() < offsets.len() ==> walk_outcome(
            walk_run(
                walk_start(base, offsets),
                successes(values).push(None) + rest,
            ),
        ) == Some(Err::<usize, ResolveError>(ResolveError::ReadFailed { step: values.len() as usize })),
{
    let w0 = walk_start(base, offsets);
    lemma_successful_reads(base, offsets, values);
    let w = walk_run(w0, successes(values));
    if values.len() < offsets.len() {
        lemma_stopped_stays(walk_step(w, None), rest);
        lemma_run_append(w0, successes(values).push(None), rest);
        assert((successes(values).push(None)).drop_last() =~= successes(values));
    }
}

/// Successful reads move the walk one step each, to the address that the
/// last value plus its offset gives.
proof fn lemma_successful_reads(base: usize, offsets: Seq<usize>, values: Seq<usize>)
    requires
        values.len() <= offsets.len(),
        fits(offsets, values),
    ensures
        walk_run(walk_start(base, offsets), successes(values)).step == values.len(),
        walk_run(walk_start(base, offsets), successes(values)).error.is_none(),
        walk_run(walk_start(base, offsets), successes(values)).addr == chain_address(
            base,
            offsets,
            values,
        ),
        walk_run(walk_start(base, offsets), successes(values)).offsets == offsets,
    decreases values.len(),
{
    if values.len() > 0 {
        let p = values.drop_last();
        assert(successes(values).drop_last() =~= successes(p));
        assert(successes(values).last() == Some(values.last()));
        lemma_successful_reads(base, offsets, p);
    }
}

/// A walk that needs no read ignores whatever is handed in.
proof fn lemma_stopped_stays(w: WalkModel, rest: Seq<Option<usize>>)
    requires
        !walk_pending(w),
    ensures
        walk_run(w, rest) == w,
    decreases rest.len(),
{
    if rest.len() > 0 {
        lemma_stopped_stays(w, rest.drop_last());
    }
}

/// Running two batches of results is running the first, then the second.
proof fn lemma_run_append(w: WalkModel, a: Seq<Option<usize>>, b: Seq<Option<usize>>)
    ensures
        walk_run(w, a + b) == walk_run(walk_run(w, a), b),
    decreases b.len(),
{
    if b.len() == 0 {
        assert(a + b =~= a);
    } else {
        assert((a + b).drop_last() =~= a + b.drop_last());
        lemma_run_append(w, a, b.drop_last());
    }
}

/// A pointer chain walked one read at a time: the caller reads the address
/// that `pending_read` names and hands the result to `supply`, until
/// `outcome` has an answer.
pub struct PointerWalk {
    base: usize,
    offsets: Vec<usize>,
    addr: usize,
    step: usize,
    error: Option<ResolveError>,
}

impl View for PointerWalk {
    type V = WalkModel;

    closed spec fn view(&self) -> WalkModel {
        WalkModel {
            base: self.base,
            offsets: self.offsets@,
            addr: self.addr,
            step: self.step as nat,
            error: self.error,
        }
    }
}

impl PointerWalk {
    /// A walk of `offsets` from `base`.
    pub fn new(base: usize, offsets: Vec<usize>) -> (r: Self)
        ensures
            r@ == walk_start(base, offsets@),
            walk_wf(r@),
    {
        PointerWalk { base, offsets, addr: base, step: 0, error: None }
    }

    /// The address whose pointer-width value the walk needs next, if any.
    pub fn pending_read(&self) -> (r: Option<usize>)
        requires
            walk_wf(self@),
        ensures
            r.is_some() == walk_pending(self@),
            r.is_some() ==> r == Some(self@.addr),
    {
        if self.error.is_none() && self.step < self.offsets.len() {
            Some(self.addr)
        } else {
            None
        }
    }

    /// Hands in the result of the pending read (`None` when it failed).
    /// A walk that needs no read is left as it is.
    pub fn supply(&mut self, read: Option<usize>)
        requires
            walk_wf(old(self)@),
        ensures
            walk_wf(final(self)@),
            final(self)@ == (if walk_pending(old(self)@) {
                walk_step(old(self)@, read)
            } else {
                old(self)@
            }),
    {
        if self.error.is_some() || self.step >= self.offsets.len() {
            return;
        }
        match read {
            None => {
                self.error = Some(ResolveError::ReadFailed { step: self.step });
            },
            Some(v) => {
                let off = self.offsets[self.step];
                if v <= usize::MAX - off {
                    self.addr = v + off;
                    self.step = self.step + 1;
                } else {
                    self.error = Some(ResolveError::AddressOverflow { step: self.step });
                }
            },
        }
    }

    /// The resolved address, the error that ended the walk, or `None`
    /// while a read is still owed.
    pub fn outcome(&self) -> (r: Option<Result<usize, ResolveError>>)
        requires
            walk_wf(self@),
        ensures
            r == walk_outcome(self@),
    {
        match self.error {
            Some(e) => Some(Err(e)),
            None => if self.step == self.offsets.len() {
                Some(Ok(self.addr))
            } else {
                None
            },
        }
    }

    /// How many reads the walk has taken in so far.
    pub fn reads_taken(&self) -> (r: usize)
        requires
            walk_wf(self@),
        ensures
            r == self@.step + (if self@.error.is_some() { 1int } else { 0 }),
    {
        if self.error.is_some() {
            assert(self.step < self.offsets.len());
            self.step + 1
        } else {
            self.step
        }
    }
}

} // verus!
