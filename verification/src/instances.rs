//! Walking the game's object tree and its task scheduler: which slots hold
//! the children of an instance or the jobs of the scheduler, which children
//! are kept, and which child or job carries a given name.
//!
//! The caller reads the slots and names; these functions decide what to read
//! and what the reads amount to.
use vstd::prelude::*;
use crate::layout::Offsets;
use crate::layout::CHILD_STRIDE;
use crate::layout::JOB_STRIDE;
use crate::text::decode_text;
use vstd::utf8::decode_utf8;
use vstd::utf8::valid_utf8;

verus! {

/// How many slots of width `stride` start at `first` and lie below `end`.
pub open spec fn slot_count(first: int, end: int, stride: int) -> int {
    if first < end {
        (end - first + stride - 1) / stride
    } else {
        0
    }
}

/// The slot addresses `first`, `first + stride`, ... that lie below `end`.
pub open spec fn slots_below(first: int, end: int, stride: int) -> Seq<int> {
    Seq::new(slot_count(first, end, stride) as nat, |i: int| first + stride * i)
}

/// Whether a walk from `first` to `end` in steps of `stride` stays within
/// `usize`: the step past the last slot must not overflow.
pub open spec fn walk_fits(first: int, end: int, stride: int) -> bool {
    first + stride * slot_count(first, end, stride) <= usize::MAX
}

/// The slots of a children table whose entries run from `first` up to `end`,
/// eight bytes apart.
pub fn child_slots(first: usize, end: usize) -> (r: Vec<usize>)
    requires
        walk_fits(first as int, end as int, CHILD_STRIDE as int),
    ensures
        r@.len() == slot_count(first as int, end as int, CHILD_STRIDE as int),
        forall|i: int| 0 <= i < r@.len() ==> r@[i] == slots_below(first as int, end as int, CHILD_STRIDE as int)[i],
{
    let mut slots: Vec<usize> = Vec::new();
    let mut cursor = first;
    let ghost count = slot_count(first as int, end as int, 8);
    while cursor < end
        invariant
            first + 8 * count <= usize::MAX,
            count == slot_count(first as int, end as int, 8),
            cursor == first + 8 * slots@.len(),
            slots@.len() <= count,
            slots@.len() < count <==> cursor < end,
            forall|i: int| 0 <= i < slots@.len() ==> slots@[i] == first + 8 * i,
        decreases count - slots@.len(),
    {
        slots.push(cursor);
        cursor = cursor + 8;
    }
    slots
}

/// The slots of the players table after the first one, which belongs to the
/// local player: every other player.
pub fn other_player_slots(first: usize, end: usize) -> (r: Vec<usize>)
    requires
        first + CHILD_STRIDE <= usize::MAX,
        walk_fits(first + CHILD_STRIDE, end as int, CHILD_STRIDE as int),
    ensures
        r@.len() == slot_count(first + CHILD_STRIDE, end as int, CHILD_STRIDE as int),
        forall|i: int| 0 <= i < r@.len() ==> r@[i] == slots_below(first + CHILD_STRIDE, end as int, CHILD_STRIDE as int)[i],
{
    child_slots(first + CHILD_STRIDE, end)
}

/// Whether the walk over a children table from `first` up to `end` stays
/// within `usize`, so that `child_slots` may take it.
pub fn child_walk_fits(first: usize, end: usize) -> (r: bool)
    ensures
        r == walk_fits(first as int, end as int, CHILD_STRIDE as int),
{
    if first >= end {
        return true;
    }
    let span = end - first;
    let rem = span % 8;
    let pad = if rem == 0 { 0 } else { 8 - rem };
    assert(8 * slot_count(first as int, end as int, 8) == span + pad) by (nonlinear_arith)
        requires
            first < end,
            span == end - first,
            rem == span % 8,
            pad == (if rem == 0 { 0int } else { 8 - rem }),
            slot_count(first as int, end as int, 8) == (end - first + 8 - 1) / 8,
    ;
    pad <= usize::MAX - end
}

/// Whether the walk over the players table that skips its first slot stays
/// within `usize`, so that `other_player_slots` may take it.
pub fn other_player_walk_fits(first: usize, end: usize) -> (r: bool)
    ensures
        r == (first + CHILD_STRIDE <= usize::MAX && walk_fits(first + CHILD_STRIDE, end as int, CHILD_STRIDE as int)),
{
    if first > usize::MAX - CHILD_STRIDE {
        false
    } else {
        child_walk_fits(first + CHILD_STRIDE, end)
    }
}

/// The job slots from `begin` up to `end`, eight bytes apart. The job list
/// ends exactly at `end`: a list whose length is not a whole number of slots,
/// or that ends before it begins, is never left by the scheduler walk.
pub fn job_slots(begin: usize, end: usize) -> (r: Vec<usize>)
    requires
        begin <= end,
        (end - begin) % (JOB_STRIDE as int) == 0,
    ensures
        r@.len() == (end - begin) / (JOB_STRIDE as int),
        forall|i: int| 0 <= i < r@.len() ==> r@[i] == begin + JOB_STRIDE * i,
{
    let mut slots: Vec<usize> = Vec::new();
    let mut cursor = begin;
    while cursor != end
        invariant
            begin <= cursor <= end,
            (end - cursor) % 8 == 0,
            cursor == begin + 8 * slots@.len(),
            forall|i: int| 0 <= i < slots@.len() ==> slots@[i] == begin + 8 * i,
        decreases end - cursor,
    {
        slots.push(cursor);
        cursor = cursor + 8;
    }
    slots
}

/// The children among `pointers` whose name (the same index of `names`) is
/// not empty, in order.
pub open spec fn named(pointers: Seq<usize>, names: Seq<String>) -> Seq<usize>
    decreases pointers.len(),
{
    if pointers.len() == 0 {
        Seq::empty()
    } else {
        let rest = named(pointers.drop_last(), names.drop_last());
        if names.last()@.len() > 0 {
            rest.push(pointers.last())
        } else {
            rest
        }
    }
}

/// The children of an instance: the pointers read from its children table,
/// less those whose name is empty.
pub fn named_children(pointers: &[usize], names: &[String]) -> (r: Vec<usize>)
    requires
        pointers@.len() == names@.len(),
    ensures
        r@ == named(pointers@, names@),
{
    let mut kept: Vec<usize> = Vec::new();
    let mut i: usize = 0;
    while i < pointers.len()
        invariant
            pointers@.len() == names@.len(),
            i <= pointers@.len(),
            kept@ == named(pointers@.take(i as int), names@.take(i as int)),
        decreases pointers@.len() - i,
    {
        assert(pointers@.take(i + 1).drop_last() == pointers@.take(i as int));
        assert(names@.take(i + 1).drop_last() == names@.take(i as int));
        if names[i].as_str().unicode_len() != 0 {
            kept.push(pointers[i]);
        }
        i = i + 1;
    }
    assert(pointers@.take(i as int) == pointers@);
    assert(names@.take(i as int) == names@);
    kept
}

/// Keeping the named children of two runs of candidates one after the other
/// keeps those of the first run, then those of the second.
proof fn lemma_named_concat(a: Seq<usize>, na: Seq<String>, b: Seq<usize>, nb: Seq<String>)
    requires
        a.len() == na.len(),
        b.len() == nb.len(),
    ensures
        named(a + b, na + nb) == named(a, na) + named(b, nb),
    decreases b.len(),
{
    if b.len() == 0 {
        assert(a + b == a);
        assert(na + nb == na);
        assert(named(a, na) + named(b, nb) == named(a, na));
    } else {
        lemma_named_concat(a, na, b.drop_last(), nb.drop_last());
        assert((a + b).drop_last() == a + b.drop_last());
        assert((na + nb).drop_last() == na + nb.drop_last());
        assert((a + b).last() == b.last());
        assert((na + nb).last() == nb.last());
    }
}

/// The walk that skips the first slot of a table reads the slots of the full
/// walk but its first; so the players it keeps are the children of the
/// players service, less the first one (the local player) when that one is
/// named. Here `pointers` and `names` are what the full walk reads from its
/// slots, in order.
pub proof fn lemma_other_players_are_children_but_the_first(
    first: int,
    end: int,
    pointers: Seq<usize>,
    names: Seq<String>,
)
    requires
        pointers.len() == slot_count(first, end, CHILD_STRIDE as int),
        names.len() == pointers.len(),
    ensures
        first >= end ==> slots_below(first, end, CHILD_STRIDE as int).len() == 0
            && slots_below(first + CHILD_STRIDE, end, CHILD_STRIDE as int).len() == 0
            && named(pointers, names).len() == 0,
        first < end ==> slots_below(first + CHILD_STRIDE, end, CHILD_STRIDE as int)
            == slots_below(first, end, CHILD_STRIDE as int).drop_first(),
        first < end ==> named(pointers, names) == (if names[0]@.len() > 0 {
            seq![pointers[0]]
        } else {
            Seq::<usize>::empty()
        }) + named(pointers.drop_first(), names.drop_first()),
{
    let all = slots_below(first, end, 8);
    let rest = slots_below(first + 8, end, 8);
    if first < end {
        assert(slot_count(first + 8, end, 8) == slot_count(first, end, 8) - 1);
        assert(rest =~= all.drop_first());
        let head = pointers.take(1);
        let head_names = names.take(1);
        assert(pointers == head + pointers.drop_first());
        assert(names == head_names + names.drop_first());
        lemma_named_concat(head, head_names, pointers.drop_first(), names.drop_first());
        assert(head.drop_last() =~= Seq::<usize>::empty());
        assert(head_names.drop_last() =~= Seq::<String>::empty());
        assert(named(head.drop_last(), head_names.drop_last()) == Seq::<usize>::empty());
        if names[0]@.len() > 0 {
            assert(named(head, head_names) =~= seq![pointers[0]]);
        } else {
            assert(named(head, head_names) =~= Seq::<usize>::empty());
        }
    } else {
        assert(pointers.len() == 0);
    }
}

/// The candidate at the first index, from `from` on, whose name is `target`;
/// zero when there is none.
pub open spec fn first_named(candidates: Seq<usize>, names: Seq<String>, target: Seq<char>, from: int) -> usize
    decreases candidates.len() - from,
{
    if from < 0 || from >= candidates.len() {
        0
    } else if names[from]@ == target {
        candidates[from]
    } else {
        first_named(candidates, names, target, from + 1)
    }
}

/// The first candidate whose name is `target`, or zero.
fn first_with_name(candidates: &[usize], names: &[String], target: &str) -> (r: usize)
    requires
        candidates@.len() == names@.len(),
    ensures
        r == first_named(candidates@, names@, target@, 0),
{
    let wanted = target.to_owned();
    let mut i: usize = 0;
    while i < candidates.len()
        invariant
            candidates@.len() == names@.len(),
            i <= candidates@.len(),
            wanted@ == target@,
            first_named(candidates@, names@, target@, 0) == first_named(candidates@, names@, target@, i as int),
        decreases candidates@.len() - i,
    {
        if names[i] == wanted {
            return candidates[i];
        }
        i = i + 1;
    }
    0
}

impl Offsets {
    /// The first child of an instance named `child_name`: of the `children`
    /// (with their `names` at the same index) the first one so named, or
    /// zero when none is.
    pub fn find_first_child(&self, children: &[usize], names: &[String], child_name: &str) -> (r: usize)
        requires
            children@.len() == names@.len(),
        ensures
            r == first_named(children@, names@, child_name@, 0),
    {
        first_with_name(children, names, child_name)
    }

    /// The first child of an instance whose class is `class_name`: of the
    /// `children` (with the names of their classes at the same index in
    /// `class_names`) the first one of that class, or zero when none is.
    pub fn find_first_child_of_class(&self, children: &[usize], class_names: &[String], class_name: &str) -> (r: usize)
        requires
            children@.len() == class_names@.len(),
        ensures
            r == first_named(children@, class_names@, class_name@, 0),
    {
        first_with_name(children, class_names, class_name)
    }

    /// The job named `to_find`: of the `jobs` (with their `names` at the same
    /// index) the first one so named, or zero.
    pub fn get_job(&self, jobs: &[usize], names: &[String], to_find: &str) -> (r: usize)
        requires
            jobs@.len() == names@.len(),
        ensures
            r == first_named(jobs@, names@, to_find@, 0),
    {
        first_with_name(jobs, names, to_find)
    }
}

/// Where a job's name is found: the name slot of a job holds either the
/// name itself or a pointer to it.
pub enum JobName {
    /// The slot holds the name.
    Inline(String),
    /// The slot holds a pointer to the name, which must be read there.
    Behind,
}

/// The name of a job from the bytes at its name slot, read up to the first
/// NUL: those bytes are the name when they are valid UTF-8; otherwise the
/// slot holds a pointer to the name.
pub fn job_name_from_slot(inline: &[u8]) -> (r: JobName)
    ensures
        r is Inline <==> valid_utf8(inline@),
        r matches JobName::Inline(name) ==> name@ == decode_utf8(inline@),
{
    match decode_text(inline) {
        Some(name) => JobName::Inline(name),
        None => JobName::Behind,
    }
}

/// A search for the first job named `target`, offered one job at a time, so
/// that no name is read after the job sought is found.
pub struct JobSearch {
    pub target: String,
    pub found: Option<usize>,
    /// The jobs offered so far, with their names at the same index.
    pub jobs: Ghost<Seq<usize>>,
    pub names: Ghost<Seq<String>>,
}

impl JobSearch {
    /// The search has found the last job offered exactly when that job is
    /// the first one named `target`.
    pub open spec fn wf(&self) -> bool {
        &&& self.jobs@.len() == self.names@.len()
        &&& match self.found {
            None => forall|i: int| 0 <= i < self.names@.len() ==> (#[trigger] self.names@[i])@ != self.target@,
            Some(job) => {
                &&& self.jobs@.len() > 0
                &&& self.names@.last()@ == self.target@
                &&& self.jobs@.last() == job
                &&& forall|i: int| 0 <= i < self.names@.len() - 1 ==> (#[trigger] self.names@[i])@ != self.target@
            },
        }
    }

    /// A search for `to_find` with no job offered yet.
    pub fn new(to_find: &str) -> (r: Self)
        ensures
            r.wf(),
            r.target@ == to_find@,
            r.found is None,
            r.jobs@ == Seq::<usize>::empty(),
            r.names@ == Seq::<String>::empty(),
    {
        JobSearch { target: to_find.to_owned(), found: None, jobs: Ghost(Seq::empty()), names: Ghost(Seq::empty()) }
    }

    /// Offers the next job with its name; the search ends on it when the
    /// name is the one sought.
    pub fn offer(&mut self, job: usize, name: &String)
        requires
            old(self).wf(),
            old(self).found is None,
        ensures
            final(self).wf(),
            final(self).target == old(self).target,
            final(self).jobs@ == old(self).jobs@.push(job),
            final(self).names@ == old(self).names@.push(*name),
            final(self).found == (if name@ == old(self).target@ { Some(job) } else { None::<usize> }),
    {
        let ghost jobs = self.jobs@;
        let ghost names = self.names@;
        self.jobs = Ghost(jobs.push(job));
        self.names = Ghost(names.push(*name));
        if *name == self.target {
            self.found = Some(job);
        }
        assert forall|i: int| 0 <= i < self.names@.len() - 1 implies (#[trigger] self.names@[i])@ != self.target@ by {
            assert(self.names@[i] == names[i]);
        }
    }

    /// The job found, or zero when no job offered carries the name: the
    /// first job so named among those offered.
    pub fn result(&self) -> (r: usize)
        requires
            self.wf(),
        ensures
            r == first_named(self.jobs@, self.names@, self.target@, 0),
    {
        proof {
            let n = self.jobs@.len() as int;
            if self.found is Some {
                lemma_first_skips(self.jobs@, self.names@, self.target@, 0, n - 1);
            } else {
                lemma_first_skips(self.jobs@, self.names@, self.target@, 0, n);
            }
        }
        match self.found {
            Some(job) => job,
            None => 0,
        }
    }
}

/// Skipping candidates whose name is not `target` does not change the first
/// match.
proof fn lemma_first_skips(candidates: Seq<usize>, names: Seq<String>, target: Seq<char>, from: int, to: int)
    requires
        0 <= from <= to <= candidates.len(),
        candidates.len() == names.len(),
        forall|j: int| from <= j < to ==> names[j]@ != target,
    ensures
        first_named(candidates, names, target, from) == first_named(candidates, names, target, to),
    decreases to - from,
{
    if from < to {
        lemma_first_skips(candidates, names, target, from + 1, to);
    }
}

/// What a name search finds, when it finds something, is a candidate that
/// carries the name.
pub proof fn lemma_found_carries_name(candidates: Seq<usize>, names: Seq<String>, target: Seq<char>, from: int)
    requires
        0 <= from,
        candidates.len() == names.len(),
        first_named(candidates, names, target, from) != 0,
    ensures
        exists|i: int|
            from <= i < candidates.len() && #[trigger] names[i]@ == target
                && candidates[i] == first_named(candidates, names, target, from),
    decreases candidates.len() - from,
{
    if from < candidates.len() && names[from]@ != target {
        lemma_found_carries_name(candidates, names, target, from + 1);
    }
}

} // verus!
