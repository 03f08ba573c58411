use vstd::prelude::*;

use crate::target::Target;

verus! {

/// The facts about one compilation unit that staleness detection reads:
/// the target itself, the last-modified time of its source file, and
/// whether its object file currently exists.
pub struct TargetState {
    pub target: Target,
    pub source_mtime: u64,
    pub object_exists: bool,
}

/// When a target must be (re)compiled for an output artifact.
///
/// With an existing output (`output_mtime` is `Some` of its modified
/// time), a target is stale when its source is strictly newer than the
/// output, or when its object file is missing. Without an output, only
/// targets lacking an object file are stale: existing objects are assumed
/// already satisfied, so outputs can reuse previously compiled shared
/// objects.
pub open spec fn is_stale(ts: TargetState, output_mtime: Option<u64>) -> bool {
    match output_mtime {
        Some(out) => ts.source_mtime > out || !ts.object_exists,
        None => !ts.object_exists,
    }
}

/// The staleness queue: the targets of the stale entries, in the order of
/// the entries handed in.
pub open spec fn spec_stale_queue(states: Seq<TargetState>, output_mtime: Option<u64>) -> Seq<
    Target,
>
    decreases states.len(),
{
    if states.len() == 0 {
        Seq::empty()
    } else {
        let rest = spec_stale_queue(states.drop_last(), output_mtime);
        if is_stale(states.last(), output_mtime) {
            rest.push(states.last().target)
        } else {
            rest
        }
    }
}

/// No two entries track the same source file.
pub open spec fn unique_sources(states: Seq<TargetState>) -> bool {
    forall|i: int, j: int|
        0 <= i < j < states.len() ==> states[i].target.source@ != states[j].target.source@
}

/// Builds the staleness queue for one output artifact.
///
/// `output_mtime` is `None` when the output artifact does not exist, and
/// `Some` of its last-modified time when it does. The result lists, in
/// input order, the target of every stale entry and nothing else.
pub fn build_object_queue(states: &Vec<TargetState>, output_mtime: Option<u64>) -> (q: Vec<Target>)
    ensures
        q@ == spec_stale_queue(states@, output_mtime),
{
    let mut q: Vec<Target> = Vec::new();
    let mut i: usize = 0;
    proof {
        assert(states@.take(0) =~= Seq::<TargetState>::empty());
    }
    while i < states.len()
        invariant
            i <= states@.len(),
            q@ == spec_stale_queue(states@.take(i as int), output_mtime),
        decreases states@.len() - i,
    {
        let st = &states[i];
        let stale = match output_mtime {
            Some(out) => st.source_mtime > out || !st.object_exists,
            None => !st.object_exists,
        };
        proof {
            assert(states@.take(i + 1).drop_last() =~= states@.take(i as int));
            assert(states@.take(i + 1).last() == states@[i as int]);
        }
        if stale {
            q.push(st.target.clone());
        }
        i = i + 1;
    }
    proof {
        assert(states@.take(states@.len() as int) =~= states@);
    }
    q
}

/// Exactly the targets of stale entries are in the queue.
pub proof fn lemma_queue_membership(states: Seq<TargetState>, output_mtime: Option<u64>)
    ensures
        forall|t: Target|
            spec_stale_queue(states, output_mtime).contains(t) <==> exists|i: int|
                0 <= i < states.len() && states[i].target == t && is_stale(
                    states[i],
                    output_mtime,
                ),
    decreases states.len(),
{
    if states.len() > 0 {
        lemma_queue_membership(states.drop_last(), output_mtime);
        let q = spec_stale_queue(states, output_mtime);
        let rest = spec_stale_queue(states.drop_last(), output_mtime);
        assert forall|t: Target| q.contains(t) implies exists|i: int|
            0 <= i < states.len() && states[i].target == t && is_stale(states[i], output_mtime) by {
            if rest.contains(t) {
                let i = choose|i: int|
                    0 <= i < states.drop_last().len() && states.drop_last()[i].target == t
                        && is_stale(states.drop_last()[i], output_mtime);
                assert(states[i].target == t && is_stale(states[i], output_mtime));
            } else {
                assert(is_stale(states.last(), output_mtime) && states.last().target == t);
                assert(states[states.len() - 1].target == t);
            }
        }
        assert forall|t: Target|
            exists|i: int|
                0 <= i < states.len() && states[i].target == t && is_stale(
                    states[i],
                    output_mtime,
                ) implies q.contains(t) by {
            let i = choose|i: int|
                0 <= i < states.len() && states[i].target == t && is_stale(
                    states[i],
                    output_mtime,
                );
            if i < states.len() - 1 {
                assert(states.drop_last()[i].target == t && is_stale(
                    states.drop_last()[i],
                    output_mtime,
                ));
                assert(rest.contains(t));
                if is_stale(states.last(), output_mtime) {
                    let j = choose|j: int| 0 <= j < rest.len() && rest[j] == t;
                    assert(q[j] == t);
                } else {
                    assert(q == rest);
                }
            } else {
                assert(q.last() == t);
            }
        }
    }
}

/// A target whose source modification time does not exceed the existing
/// output's, and whose object file exists, is excluded from the
/// staleness queue.
pub proof fn lemma_fresh_target_excluded(states: Seq<TargetState>, out: u64, i: int)
    requires
        unique_sources(states),
        0 <= i < states.len(),
        states[i].source_mtime <= out,
        states[i].object_exists,
    ensures
        !spec_stale_queue(states, Some(out)).contains(states[i].target),
{
    lemma_queue_membership(states, Some(out));
    if spec_stale_queue(states, Some(out)).contains(states[i].target) {
        let j = choose|j: int|
            0 <= j < states.len() && states[j].target == states[i].target && is_stale(
                states[j],
                Some(out),
            );
        assert(states[j].target.source@ == states[i].target.source@);
        assert(j == i);
    }
}

/// A target whose object file is missing is queued regardless of any
/// modification times.
pub proof fn lemma_missing_object_included(
    states: Seq<TargetState>,
    output_mtime: Option<u64>,
    i: int,
)
    requires
        0 <= i < states.len(),
        !states[i].object_exists,
    ensures
        spec_stale_queue(states, output_mtime).contains(states[i].target),
{
    lemma_queue_membership(states, output_mtime);
}

/// When the output artifact does not exist, the staleness queue holds
/// exactly the targets lacking an object file.
pub proof fn lemma_absent_output_queue(states: Seq<TargetState>)
    ensures
        forall|t: Target|
            spec_stale_queue(states, None).contains(t) <==> exists|i: int|
                0 <= i < states.len() && states[i].target == t && !states[i].object_exists,
{
    lemma_queue_membership(states, None);
}

/// The staleness queue never holds the same target twice.
pub proof fn lemma_queue_no_duplicates(states: Seq<TargetState>, output_mtime: Option<u64>)
    requires
        unique_sources(states),
    ensures
        forall|i: int, j: int|
            0 <= i < j < spec_stale_queue(states, output_mtime).len() ==> spec_stale_queue(
                states,
                output_mtime,
            )[i] != spec_stale_queue(states, output_mtime)[j],
    decreases states.len(),
{
    if states.len() > 0 {
        lemma_queue_no_duplicates(states.drop_last(), output_mtime);
        let q = spec_stale_queue(states, output_mtime);
        let rest = spec_stale_queue(states.drop_last(), output_mtime);
        if is_stale(states.last(), output_mtime) {
            assert forall|i: int, j: int| 0 <= i < j < q.len() implies q[i] != q[j] by {
                if j == q.len() - 1 {
                    assert(q[j] == states.last().target);
                    assert(q[i] == rest[i]);
                    lemma_queue_membership(states.drop_last(), output_mtime);
                    if rest[i] == states.last().target {
                        assert(rest.contains(rest[i]));
                        let k = choose|k: int|
                            0 <= k < states.drop_last().len() && states.drop_last()[k].target
                                == rest[i] && is_stale(states.drop_last()[k], output_mtime);
                        assert(states[k].target.source@ == states[states.len()
                            - 1].target.source@);
                    }
                } else {
                    assert(q[i] == rest[i] && q[j] == rest[j]);
                }
            }
        }
    }
}

} // verus!
