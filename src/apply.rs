use vstd::prelude::*;
use vstd::string::StringExecFns;

use crate::command::{command_outcome, poll_interrupts, CommandPoll, InterruptibleFnError};
use crate::pipeline::{sort_pending_patches, sorted_by_index, PendingPatch};
use crate::status::PatchingStatus;

verus! {

/// The persisted record of the last patch applied.
#[derive(Debug, Clone, Copy, PartialEq, Eq, Structural)]
pub struct PatcherCache {
    pub last_patch_index: u64,
}

/// The little-endian value of eight bytes.
pub open spec fn le_u64(b: Seq<u8>) -> u64 {
    (b[0] as u64) | (b[1] as u64) << 8u64 | (b[2] as u64) << 16u64 | (b[3] as u64) << 24u64 | (b[4] as u64)
        << 32u64 | (b[5] as u64) << 40u64 | (b[6] as u64) << 48u64 | (b[7] as u64) << 56u64
}

/// The eight little-endian bytes of `v`.
pub open spec fn le_bytes(v: u64) -> Seq<u8> {
    seq![
        (v & 0xff) as u8,
        ((v >> 8u64) & 0xff) as u8,
        ((v >> 16u64) & 0xff) as u8,
        ((v >> 24u64) & 0xff) as u8,
        ((v >> 32u64) & 0xff) as u8,
        ((v >> 40u64) & 0xff) as u8,
        ((v >> 48u64) & 0xff) as u8,
        ((v >> 56u64) & 0xff) as u8,
    ]
}

impl PatcherCache {
    /// The content of the cache file: the index in eight little-endian bytes.
    pub fn to_bytes(&self) -> (r: Vec<u8>)
        ensures
            r@ == le_bytes(self.last_patch_index),
    {
        let v = self.last_patch_index;
        let r = vec![
            (v & 0xff) as u8,
            ((v >> 8u64) & 0xff) as u8,
            ((v >> 16u64) & 0xff) as u8,
            ((v >> 24u64) & 0xff) as u8,
            ((v >> 32u64) & 0xff) as u8,
            ((v >> 40u64) & 0xff) as u8,
            ((v >> 48u64) & 0xff) as u8,
            ((v >> 56u64) & 0xff) as u8,
        ];
        assert(r@ =~= le_bytes(v));
        r
    }

    /// Reads a cache file's content; anything but eight bytes is a corrupt
    /// file, which counts as no cache.
    pub fn from_bytes(b: &[u8]) -> (r: Option<PatcherCache>)
        ensures
            b@.len() != 8 ==> r is None,
            b@.len() == 8 ==> r == Some(PatcherCache { last_patch_index: le_u64(b@) }),
    {
        if b.len() != 8 {
            return None;
        }
        let v = (b[0] as u64) | (b[1] as u64) << 8u64 | (b[2] as u64) << 16u64 | (b[3] as u64) << 24u64
            | (b[4] as u64) << 32u64 | (b[5] as u64) << 40u64 | (b[6] as u64) << 48u64 | (b[7] as u64)
            << 56u64;
        Some(PatcherCache { last_patch_index: v })
    }
}

/// Reading back a written cache file gives the record that was written.
pub proof fn law_cache_round_trip(c: PatcherCache)
    ensures
        le_bytes(c.last_patch_index).len() == 8,
        le_u64(le_bytes(c.last_patch_index)) == c.last_patch_index,
{
    let v = c.last_patch_index;
    let b = le_bytes(v);
    let b0 = b[0];
    let b1 = b[1];
    let b2 = b[2];
    let b3 = b[3];
    let b4 = b[4];
    let b5 = b[5];
    let b6 = b[6];
    let b7 = b[7];
    assert(b0 == (v & 0xff) as u8 && b1 == ((v >> 8u64) & 0xff) as u8 && b2 == ((v >> 16u64) & 0xff) as u8
        && b3 == ((v >> 24u64) & 0xff) as u8 && b4 == ((v >> 32u64) & 0xff) as u8 && b5 == ((v >> 40u64)
        & 0xff) as u8 && b6 == ((v >> 48u64) & 0xff) as u8 && b7 == ((v >> 56u64) & 0xff) as u8);
    assert((b0 as u64) | (b1 as u64) << 8u64 | (b2 as u64) << 16u64 | (b3 as u64) << 24u64 | (b4 as u64)
        << 32u64 | (b5 as u64) << 40u64 | (b6 as u64) << 48u64 | (b7 as u64) << 56u64 == v) by (bit_vector)
        requires
            b0 == (v & 0xff) as u8,
            b1 == ((v >> 8u64) & 0xff) as u8,
            b2 == ((v >> 16u64) & 0xff) as u8,
            b3 == ((v >> 24u64) & 0xff) as u8,
            b4 == ((v >> 32u64) & 0xff) as u8,
            b5 == ((v >> 40u64) & 0xff) as u8,
            b6 == ((v >> 48u64) & 0xff) as u8,
            b7 == ((v >> 56u64) & 0xff) as u8,
    ;
}

/// What the apply engine does next.
#[derive(Debug, PartialEq, Eq, Structural)]
pub enum ApplyStep {
    /// Apply the patch at this position of the queue.
    Apply(usize),
    /// The user cancelled: stop, keeping what was applied.
    Cancelled,
    /// Every patch was applied.
    Done,
}

/// The sequential application of downloaded patches. The queue is sorted by
/// index; `next` patches have been applied, and the cache records the index of
/// the last of them, or the index it held before the run when none was.
#[derive(Debug)]
pub struct ApplyRun {
    queue: Vec<PendingPatch>,
    next: usize,
    initial: Option<u64>,
}

impl ApplyRun {
    /// The queue is sorted by index and no more than its length was applied.
    pub closed spec fn wf(&self) -> bool {
        &&& sorted_by_index(self.queue@)
        &&& self.next <= self.queue@.len()
    }

    /// The patches to apply, in the order of application.
    pub closed spec fn queue(&self) -> Seq<PendingPatch> {
        self.queue@
    }

    /// How many patches have been applied.
    pub closed spec fn applied(&self) -> nat {
        self.next as nat
    }

    /// The cache's index before the run.
    pub closed spec fn initial(&self) -> Option<u64> {
        self.initial
    }

    /// The index that the cache records now.
    pub closed spec fn recorded(&self) -> Option<u64> {
        if self.next == 0 {
            self.initial
        } else {
            Some(self.queue@[self.next - 1].info.index)
        }
    }

    /// Starts a run over the downloaded patches, whatever order they came in,
    /// with the index that the cache held.
    pub fn new(pending: Vec<PendingPatch>, cached: Option<u64>) -> (r: Self)
        ensures
            sorted_by_index(r.queue()),
            r.queue().to_multiset() == pending@.to_multiset(),
            r.queue().len() == pending@.len(),
            r.applied() == 0,
            r.initial() == cached,
            r.recorded() == cached,
            r.wf(),
    {
        let queue = sort_pending_patches(pending);
        ApplyRun { queue, next: 0, initial: cached }
    }

    pub fn len(&self) -> (r: usize)
        ensures
            r == self.queue().len(),
    {
        self.queue.len()
    }

    /// The status sent when application starts.
    pub fn started_status(&self) -> (r: PatchingStatus)
        ensures
            r == PatchingStatus::InstallationInProgress(0, self.queue().len() as usize),
    {
        PatchingStatus::InstallationInProgress(0, self.queue.len())
    }

    /// Decides the next step from a look at the command channel taken before
    /// it; the look matters only while patches remain.
    pub fn next_step(&self, poll: CommandPoll) -> (r: ApplyStep)
        requires
            self.wf(),
        ensures
            self.applied() == self.queue().len() ==> r == ApplyStep::Done,
            self.applied() < self.queue().len() && poll_interrupts(poll) ==> r == ApplyStep::Cancelled,
            self.applied() < self.queue().len() && !poll_interrupts(poll) ==> r == ApplyStep::Apply(self.applied() as usize),
    {
        if self.next >= self.queue.len() {
            return ApplyStep::Done;
        }
        match command_outcome(poll) {
            Ok(()) => ApplyStep::Apply(self.next),
            Err(_) => ApplyStep::Cancelled,
        }
    }

    /// The patch to apply next, if any remains.
    pub fn current(&self) -> (r: Option<&PendingPatch>)
        ensures
            self.applied() < self.queue().len() ==> r == Some(&self.queue()[self.applied() as int]),
            self.applied() >= self.queue().len() ==> r is None,
    {
        if self.next < self.queue.len() {
            Some(&self.queue[self.next])
        } else {
            None
        }
    }

    /// Records that the current patch was applied: returns the cache record to
    /// persist and the progress status to send. Nothing changes when no patch
    /// remains.
    pub fn record_applied(&mut self) -> (r: Option<(PatcherCache, PatchingStatus)>)
        requires
            old(self).wf(),
        ensures
            final(self).wf(),
            final(self).queue() == old(self).queue(),
            final(self).initial() == old(self).initial(),
            old(self).applied() < old(self).queue().len() ==> {
                let idx = old(self).queue()[old(self).applied() as int].info.index;
                &&& r == Some((
                    PatcherCache { last_patch_index: idx },
                    PatchingStatus::InstallationInProgress(
                        (old(self).applied() + 1) as usize,
                        old(self).queue().len() as usize,
                    ),
                ))
                &&& final(self).applied() == old(self).applied() + 1
                &&& final(self).recorded() == Some(idx)
            },
            old(self).applied() >= old(self).queue().len() ==> r is None && final(self).applied()
                == old(self).applied() && final(self).recorded() == old(self).recorded(),
    {
        if self.next >= self.queue.len() {
            return None;
        }
        let idx = self.queue[self.next].info.index;
        self.next = self.next + 1;
        Some((
            PatcherCache { last_patch_index: idx },
            PatchingStatus::InstallationInProgress(self.next, self.queue.len()),
        ))
    }

    /// The error that ends the run when the current patch failed to apply.
    pub fn failure(&self, reason: &str) -> (r: InterruptibleFnError)
        ensures
            r is Error,
            self.applied() < self.queue().len() ==> r->Error_0@ == apply_failure_text(
                self.queue()[self.applied() as int].info.file_name@,
                reason@,
            ),
            self.applied() >= self.queue().len() ==> r->Error_0@ == reason@,
    {
        if self.next < self.queue.len() {
            let name = self.queue[self.next].info.file_name.as_str();
            let msg = String::from_str("Failed to apply patch '").concat(name).concat("': ").concat(
                reason,
            ).concat(".");
            InterruptibleFnError::Error(msg)
        } else {
            InterruptibleFnError::Error(String::from_str(reason))
        }
    }
}

/// After each applied patch the cache holds an index at least as large as
/// that patch's.
pub proof fn law_applied_patches_are_recorded(run: &ApplyRun)
    requires
        run.wf(),
    ensures
        forall|i: int| 0 <= i < run.applied() ==> {
            &&& run.recorded() is Some
            &&& #[trigger] run.queue()[i].info.index <= run.recorded()->0
        },
{
}

/// Whenever a run stops (cancelled, failed or done), the cache holds the index
/// of the last patch applied in full, or what it held before the run when no
/// patch was.
pub proof fn law_recorded_is_last_applied(run: &ApplyRun)
    requires
        run.wf(),
    ensures
        run.applied() <= run.queue().len(),
        run.applied() == 0 ==> run.recorded() == run.initial(),
        run.applied() > 0 ==> run.recorded() == Some(run.queue()[run.applied() - 1].info.index),
{
}

/// A run that applied its whole non-empty queue leaves in the cache the
/// largest index of the queue.
pub proof fn law_finished_run_records_newest(run: &ApplyRun)
    requires
        run.wf(),
        run.queue().len() > 0,
        run.applied() == run.queue().len(),
    ensures
        run.recorded() is Some,
        forall|i: int| 0 <= i < run.queue().len() ==> #[trigger] run.queue()[i].info.index <= run.recorded()->0,
        exists|i: int| 0 <= i < run.queue().len() && #[trigger] run.queue()[i].info.index == run.recorded()->0,
{
    let last = run.queue().len() - 1;
    assert(run.queue()[last].info.index == run.recorded()->0);
}

/// Patches with distinct indexes are applied in strictly ascending order.
pub proof fn law_apply_order_ascending(run: &ApplyRun)
    requires
        run.wf(),
        forall|i: int, j: int| 0 <= i < j < run.queue().len() ==> #[trigger] run.queue()[i].info.index
            != #[trigger] run.queue()[j].info.index,
    ensures
        forall|i: int, j: int| 0 <= i < j < run.queue().len() ==> #[trigger] run.queue()[i].info.index
            < #[trigger] run.queue()[j].info.index,
{
}

/// The message of a patch that failed to apply.
pub open spec fn apply_failure_text(name: Seq<char>, reason: Seq<char>) -> Seq<char> {
    "Failed to apply patch '"@ + name + "': "@ + reason + "."@
}

} // verus!
