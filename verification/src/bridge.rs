use vstd::prelude::*;

verus! {

/// The shape of one native "parallel-for" request, as handed to the
/// worker-pool bridge: `job_count` jobs, each `elem_size` bytes apart in
/// an opaque job buffer owned by the engine. The buffer's base address
/// and the native entry point stay with the unverified shell that makes
/// the calls; this crate only decides which offsets the jobs live at and
/// never interprets the buffer's contents.
#[derive(Clone, Copy, Debug, PartialEq, Eq, Structural)]
pub struct WorkItem {
    /// Distance in bytes between consecutive job descriptors.
    pub elem_size: usize,
    /// How many jobs the request covers: indices `0 .. job_count`.
    pub job_count: usize,
}

/// The byte offset at which job `i` of a work item lives.
pub open spec fn job_offset(item: WorkItem, i: int) -> int {
    i * item.elem_size
}

impl WorkItem {
    /// The offsets fit the address space: the last job's offset is still
    /// representable, so every `i * elem_size` the dispatch computes is.
    pub open spec fn offsets_in_bounds(self) -> bool {
        self.job_count == 0 || (self.job_count - 1) * self.elem_size <= usize::MAX
    }
}

/// The dispatch schedule of a work item: the byte offset of every job,
/// in index order. The worker pool invokes the native entry point once
/// at `base + offsets[i]` for each `i`; position `i` of the result is
/// exactly job `i`'s offset, so every job in `0 .. job_count` is covered
/// exactly once and none is invented.
pub fn dispatch_offsets(item: &WorkItem) -> (offsets: Vec<usize>)
    requires
        item.offsets_in_bounds(),
    ensures
        offsets.len() == item.job_count,
        forall|i: int| 0 <= i < item.job_count ==> offsets[i] == job_offset(*item, i),
{
    let mut offsets: Vec<usize> = Vec::new();
    let mut i: usize = 0;
    while i < item.job_count
        invariant
            i <= item.job_count,
            item.offsets_in_bounds(),
            offsets.len() == i,
            forall|j: int| 0 <= j < i ==> offsets[j] == job_offset(*item, j),
        decreases item.job_count - i,
    {
        proof {
            lemma_job_offset_in_bounds(*item, i as int);
        }
        offsets.push(i * item.elem_size);
        i = i + 1;
    }
    offsets
}

/// Every job offset of an in-bounds work item is representable: job `i`
/// lies no further out than the last job.
proof fn lemma_job_offset_in_bounds(item: WorkItem, i: int)
    requires
        item.offsets_in_bounds(),
        0 <= i < item.job_count,
    ensures
        0 <= job_offset(item, i) <= usize::MAX,
{
    assert(i * item.elem_size <= (item.job_count - 1) * item.elem_size) by (nonlinear_arith)
        requires
            0 <= i <= item.job_count - 1,
            item.elem_size >= 0,
    ;
    assert(i * item.elem_size >= 0) by (nonlinear_arith)
        requires
            i >= 0,
            item.elem_size >= 0,
    ;
}

/// Dispatch completeness: distinct jobs of a work item never collide.
/// With position `i` of [`dispatch_offsets`] pinned to `i * elem_size`,
/// this says the schedule reaches `job_count` pairwise distinct offsets —
/// each job index in `0 .. job_count` is dispatched exactly once.
pub proof fn lemma_dispatch_complete(item: WorkItem, i: int, j: int)
    requires
        item.elem_size >= 1,
        0 <= i < item.job_count,
        0 <= j < item.job_count,
        i != j,
    ensures
        job_offset(item, i) != job_offset(item, j),
{
    assert(i * item.elem_size != j * item.elem_size) by (nonlinear_arith)
        requires
            item.elem_size >= 1,
            i != j,
    ;
}

/// Disjointness of the job regions: the `elem_size` bytes starting at
/// job `i`'s offset end before job `j`'s begin, for `i < j`. Concurrent
/// workers therefore touch the shared job buffer at non-overlapping
/// ranges only, which is what makes the fan-out safe to interleave.
pub proof fn lemma_job_regions_disjoint(item: WorkItem, i: int, j: int)
    requires
        item.elem_size >= 1,
        0 <= i < j < item.job_count,
    ensures
        job_offset(item, i) + item.elem_size <= job_offset(item, j),
{
    assert(i * item.elem_size + item.elem_size <= j * item.elem_size) by (nonlinear_arith)
        requires
            item.elem_size >= 1,
            0 <= i < j,
    ;
}

} // verus!
