//! Which task runs next: round robin among the tasks of the highest
//! priority, in the order of their handles.
use crate::host::task::Task;
use vstd::arithmetic::div_mod::{lemma_basic_div, lemma_div_is_ordered, lemma_div_plus_one};
use vstd::prelude::*;

verus! {

/// Whether the handles of `tasks` strictly increase.
pub open spec fn sorted_by_id(tasks: Seq<Task>) -> bool {
    forall|i: int, j: int| 0 <= i < j < tasks.len() ==> tasks[i].id < tasks[j].id
}

/// Whether the numbers of `ids` strictly increase.
pub open spec fn increasing(ids: Seq<u32>) -> bool {
    forall|i: int, j: int| 0 <= i < j < ids.len() ==> ids[i] < ids[j]
}

/// Whether no task of `tasks` has a higher priority than `priority`.
pub open spec fn is_top(tasks: Seq<Task>, priority: u32) -> bool {
    forall|j: int| 0 <= j < tasks.len() ==> (#[trigger] tasks[j]).priority <= priority
}

/// The handles of those tasks of `part` that have the priority `priority`,
/// in the order of `part`.
pub open spec fn ids_with_priority(part: Seq<Task>, priority: u32) -> Seq<u32>
    decreases part.len(),
{
    if part.len() == 0 {
        Seq::empty()
    } else {
        let rest = ids_with_priority(part.drop_last(), priority);
        if part.last().priority == priority {
            rest.push(part.last().id)
        } else {
            rest
        }
    }
}

/// The highest priority that a task of `tasks` has; 0 where there is no
/// task.
pub open spec fn highest_priority(tasks: Seq<Task>) -> u32
    decreases tasks.len(),
{
    if tasks.len() == 0 {
        0
    } else {
        let rest = highest_priority(tasks.drop_last());
        if tasks.last().priority > rest {
            tasks.last().priority
        } else {
            rest
        }
    }
}

/// The tasks that may run next: the handles of the tasks of the highest
/// priority, in the order of `tasks`.
pub open spec fn candidates(tasks: Seq<Task>) -> Seq<u32> {
    ids_with_priority(tasks, highest_priority(tasks))
}

/// Index of the first number of `ids` above `current`; the length of `ids`
/// where there is none.
pub open spec fn first_above(ids: Seq<u32>, current: u32) -> int
    decreases ids.len(),
{
    if ids.len() == 0 || ids[0] > current {
        0
    } else {
        1 + first_above(ids.drop_first(), current)
    }
}

/// The task that follows `current` among `ids`: the first handle above
/// `current`, or the first of all where none is above.
pub open spec fn next_task(ids: Seq<u32>, current: u32) -> Option<u32> {
    if ids.len() == 0 {
        None
    } else if first_above(ids, current) < ids.len() {
        Some(ids[first_above(ids, current)])
    } else {
        Some(ids[0])
    }
}

/// No task lies above the highest priority, and some task has it unless
/// there is no task.
pub proof fn lemma_highest_priority(tasks: Seq<Task>)
    ensures
        is_top(tasks, highest_priority(tasks)),
        tasks.len() > 0 ==> exists|i: int|
            0 <= i < tasks.len() && (#[trigger] tasks[i]).priority == highest_priority(tasks),
    decreases tasks.len(),
{
    if tasks.len() > 0 {
        let front = tasks.drop_last();
        lemma_highest_priority(front);
        assert forall|j: int| 0 <= j < tasks.len() implies (#[trigger] tasks[j]).priority
            <= highest_priority(tasks) by {
            if j < front.len() {
                assert(front[j] == tasks[j]);
            }
        }
        if tasks.last().priority > highest_priority(front) || front.len() == 0 {
            assert(tasks[tasks.len() - 1].priority == highest_priority(tasks));
        } else {
            let i = choose|i: int|
                0 <= i < front.len() && (#[trigger] front[i]).priority == highest_priority(front);
            assert(tasks[i] == front[i]);
        }
    }
}

/// A handle is among [`ids_with_priority`] exactly if a task of `part` has
/// that handle and that priority.
pub proof fn lemma_ids_with_priority(part: Seq<Task>, priority: u32)
    ensures
        forall|id: u32|
            ids_with_priority(part, priority).contains(id) <==> exists|i: int|
                0 <= i < part.len() && (#[trigger] part[i]).id == id && part[i].priority == priority,
        ids_with_priority(part, priority).len() <= part.len(),
        sorted_by_id(part) ==> increasing(ids_with_priority(part, priority)),
        sorted_by_id(part) ==> forall|k: int|
            0 <= k < ids_with_priority(part, priority).len() && part.len() > 0 ==> (
            #[trigger] ids_with_priority(part, priority)[k]) <= part.last().id,
    decreases part.len(),
{
    let ids = ids_with_priority(part, priority);
    if part.len() > 0 {
        let front = part.drop_last();
        let rest = ids_with_priority(front, priority);
        lemma_ids_with_priority(front, priority);
        assert forall|id: u32| ids.contains(id) implies exists|i: int|
            0 <= i < part.len() && (#[trigger] part[i]).id == id && part[i].priority == priority by {
            let k = choose|k: int| 0 <= k < ids.len() && ids[k] == id;
            if k < rest.len() {
                assert(rest[k] == id);
                assert(rest.contains(id));
                let i = choose|i: int|
                    0 <= i < front.len() && (#[trigger] front[i]).id == id && front[i].priority
                        == priority;
                assert(part[i] == front[i]);
            } else {
                assert(part[part.len() - 1].id == id);
            }
        }
        assert forall|id: u32|
            (exists|i: int|
                0 <= i < part.len() && (#[trigger] part[i]).id == id && part[i].priority
                    == priority) implies ids.contains(id) by {
            let i = choose|i: int|
                0 <= i < part.len() && (#[trigger] part[i]).id == id && part[i].priority == priority;
            if i < front.len() {
                assert(front[i] == part[i]);
                assert(rest.contains(id));
                let k = choose|k: int| 0 <= k < rest.len() && rest[k] == id;
                assert(ids[k] == id);
            } else {
                assert(ids[ids.len() - 1] == id);
            }
        }
        if sorted_by_id(part) {
            assert(sorted_by_id(front)) by {
                assert forall|i: int, j: int| 0 <= i < j < front.len() implies front[i].id
                    < front[j].id by {
                    assert(front[i] == part[i] && front[j] == part[j]);
                }
            }
            if front.len() > 0 {
                assert(front.last() == part[part.len() - 2]);
            }
            assert forall|k: int| 0 <= k < ids.len() implies (#[trigger] ids[k]) <= part.last().id by {
                if k < rest.len() {
                    assert(ids[k] == rest[k]);
                }
            }
            assert forall|i: int, j: int| 0 <= i < j < ids.len() implies ids[i] < ids[j] by {
                if j < rest.len() {
                    assert(ids[i] == rest[i] && ids[j] == rest[j]);
                } else {
                    assert(ids[i] == rest[i]);
                    assert(rest[i] <= front.last().id);
                }
            }
        }
    } else {
        assert forall|id: u32| ids.contains(id) implies false by {}
    }
}

/// What [`candidates`] holds: the handles of the tasks above which no task
/// lies, in increasing order where `tasks` is in that order; and some
/// handle unless there is no task.
pub proof fn lemma_candidates(tasks: Seq<Task>)
    ensures
        forall|id: u32|
            candidates(tasks).contains(id) <==> exists|i: int|
                0 <= i < tasks.len() && (#[trigger] tasks[i]).id == id && is_top(
                    tasks,
                    tasks[i].priority,
                ),
        sorted_by_id(tasks) ==> increasing(candidates(tasks)),
        tasks.len() > 0 <==> candidates(tasks).len() > 0,
{
    let top = highest_priority(tasks);
    lemma_highest_priority(tasks);
    lemma_ids_with_priority(tasks, top);
    let ids = candidates(tasks);
    assert forall|id: u32| ids.contains(id) implies exists|i: int|
        0 <= i < tasks.len() && (#[trigger] tasks[i]).id == id && is_top(tasks, tasks[i].priority) by {
        let i = choose|i: int|
            0 <= i < tasks.len() && (#[trigger] tasks[i]).id == id && tasks[i].priority == top;
        assert(is_top(tasks, tasks[i].priority));
    }
    assert forall|id: u32|
        (exists|i: int|
            0 <= i < tasks.len() && (#[trigger] tasks[i]).id == id && is_top(
                tasks,
                tasks[i].priority,
            )) implies ids.contains(id) by {
        let i = choose|i: int|
            0 <= i < tasks.len() && (#[trigger] tasks[i]).id == id && is_top(tasks, tasks[i].priority);
        if tasks.len() > 0 {
            let m = choose|m: int| 0 <= m < tasks.len() && (#[trigger] tasks[m]).priority == top;
            assert(tasks[m].priority <= tasks[i].priority);
            assert(tasks[i].priority <= top);
        }
    }
    if tasks.len() > 0 {
        let m = choose|m: int| 0 <= m < tasks.len() && (#[trigger] tasks[m]).priority == top;
        assert(ids.contains(tasks[m].id));
    }
}

/// Who may run next depends on the handles and the priorities of the tasks
/// alone.
pub proof fn lemma_candidates_depend_on_priorities(before: Seq<Task>, after: Seq<Task>)
    requires
        before.len() == after.len(),
        forall|i: int|
            0 <= i < before.len() ==> (#[trigger] after[i]).id == before[i].id && after[i].priority
                == before[i].priority,
    ensures
        highest_priority(after) == highest_priority(before),
        candidates(after) == candidates(before),
        forall|priority: u32| ids_with_priority(after, priority) == ids_with_priority(before, priority),
    decreases before.len(),
{
    if before.len() > 0 {
        let b = before.drop_last();
        let a = after.drop_last();
        assert forall|i: int| 0 <= i < b.len() implies (#[trigger] a[i]).id == b[i].id && a[i].priority
            == b[i].priority by {
            assert(a[i] == after[i] && b[i] == before[i]);
        }
        lemma_candidates_depend_on_priorities(b, a);
        assert(after[after.len() - 1].id == before[before.len() - 1].id);
        assert(after.last().priority == before.last().priority);
        assert forall|priority: u32|
            ids_with_priority(after, priority) == ids_with_priority(before, priority) by {
            assert(ids_with_priority(a, priority) == ids_with_priority(b, priority));
        }
    } else {
        assert forall|priority: u32|
            ids_with_priority(after, priority) == ids_with_priority(before, priority) by {}
    }
}

/// Where [`first_above`] points: every handle before it is at most
/// `current`, and the handle at it, if there is one, is above `current`.
pub proof fn lemma_first_above(ids: Seq<u32>, current: u32)
    ensures
        0 <= first_above(ids, current) <= ids.len(),
        forall|k: int| 0 <= k < first_above(ids, current) ==> ids[k] <= current,
        first_above(ids, current) < ids.len() ==> ids[first_above(ids, current)] > current,
    decreases ids.len(),
{
    if ids.len() > 0 && ids[0] <= current {
        let rest = ids.drop_first();
        lemma_first_above(rest, current);
        assert forall|k: int| 0 <= k < first_above(ids, current) implies ids[k] <= current by {
            if k > 0 {
                assert(ids[k] == rest[k - 1]);
            }
        }
        if first_above(ids, current) < ids.len() {
            assert(ids[first_above(ids, current)] == rest[first_above(rest, current)]);
        }
    }
}

/// The task that [`next_task`] picks is one of `ids`.
pub proof fn lemma_next_task_is_candidate(ids: Seq<u32>, current: u32)
    ensures
        ids.len() > 0 <==> next_task(ids, current) is Some,
        next_task(ids, current) matches Some(id) ==> ids.contains(id),
{
    lemma_first_above(ids, current);
}

/// The index that a linear search for the first handle above `current`
/// stops at is [`first_above`].
pub proof fn lemma_first_above_is(ids: Seq<u32>, current: u32, k: int)
    requires
        0 <= k <= ids.len(),
        forall|j: int| 0 <= j < k ==> ids[j] <= current,
        k < ids.len() ==> ids[k] > current,
    ensures
        first_above(ids, current) == k,
    decreases ids.len(),
{
    if ids.len() > 0 && ids[0] <= current {
        let rest = ids.drop_first();
        assert forall|j: int| 0 <= j < k - 1 implies rest[j] <= current by {
            assert(rest[j] == ids[j + 1]);
        }
        lemma_first_above_is(rest, current, k - 1);
    }
}

/// The handles that `turns` switches of tasks pick one after the other
/// among `ids`, the first of them after `current`.
pub open spec fn picks(ids: Seq<u32>, current: u32, turns: nat) -> Seq<u32>
    decreases turns,
{
    if turns == 0 {
        Seq::empty()
    } else {
        match next_task(ids, current) {
            Some(id) => seq![id] + picks(ids, id, (turns - 1) as nat),
            None => Seq::empty(),
        }
    }
}

/// How often `id` occurs in `picked`.
pub open spec fn times_picked(picked: Seq<u32>, id: u32) -> nat
    decreases picked.len(),
{
    if picked.len() == 0 {
        0
    } else {
        times_picked(picked.drop_first(), id) + if picked[0] == id {
            1nat
        } else {
            0nat
        }
    }
}

/// The index that follows `p` when the indices of `n` tasks are walked
/// round and round.
spec fn following(p: int, n: int) -> int {
    if p + 1 < n {
        p + 1
    } else {
        0
    }
}

/// The handles of `ids` from index `p` on, taken round and round, `turns`
/// of them.
spec fn walk(ids: Seq<u32>, p: int, turns: nat) -> Seq<u32>
    decreases turns,
{
    if turns == 0 {
        Seq::empty()
    } else {
        seq![ids[p]] + walk(ids, following(p, ids.len() as int), (turns - 1) as nat)
    }
}

/// How many steps forward lead from index `p` to index `j`.
spec fn distance(p: int, j: int, n: int) -> int {
    if j >= p {
        j - p
    } else {
        j - p + n
    }
}

/// After the task at index `j` comes the task at the following index.
proof fn lemma_next_of_member(ids: Seq<u32>, j: int)
    requires
        increasing(ids),
        0 <= j < ids.len(),
    ensures
        next_task(ids, ids[j]) == Some(ids[following(j, ids.len() as int)]),
{
    assert forall|k: int| 0 <= k < j + 1 implies ids[k] <= ids[j] by {
        if k < j {
            assert(ids[k] < ids[j]);
        }
    }
    lemma_first_above_is(ids, ids[j], j + 1);
}

/// Switching tasks again and again walks the handles round and round.
proof fn lemma_picks_walk(ids: Seq<u32>, current: u32, turns: nat)
    requires
        increasing(ids),
        ids.len() > 0,
        turns > 0,
    ensures
        exists|p: int| 0 <= p < ids.len() && picks(ids, current, turns) == walk(ids, p, turns),
{
    lemma_first_above(ids, current);
    let p = if first_above(ids, current) < ids.len() {
        first_above(ids, current)
    } else {
        0
    };
    lemma_picks_walk_from(ids, current, p, turns);
}

proof fn lemma_picks_walk_from(ids: Seq<u32>, current: u32, p: int, turns: nat)
    requires
        increasing(ids),
        0 <= p < ids.len(),
        next_task(ids, current) == Some(ids[p]),
    ensures
        picks(ids, current, turns) == walk(ids, p, turns),
    decreases turns,
{
    if turns > 0 {
        lemma_next_of_member(ids, p);
        lemma_picks_walk_from(ids, ids[p], following(p, ids.len() as int), (turns - 1) as nat);
    }
}

/// How often a walk visits the task at index `j`.
proof fn lemma_walk_count(ids: Seq<u32>, p: int, turns: nat, j: int)
    requires
        increasing(ids),
        0 <= p < ids.len(),
        0 <= j < ids.len(),
    ensures
        times_picked(walk(ids, p, turns), ids[j]) == (turns + ids.len() - 1 - distance(
            p,
            j,
            ids.len() as int,
        )) / (ids.len() as int),
    decreases turns,
{
    let n = ids.len() as int;
    let d = distance(p, j, n);
    if turns == 0 {
        lemma_basic_div(n - 1 - d, n);
    } else {
        let q = following(p, n);
        let w = walk(ids, p, turns);
        let rest = walk(ids, q, (turns - 1) as nat);
        assert(w.drop_first() =~= rest);
        assert(w[0] == ids[p]);
        lemma_walk_count(ids, q, (turns - 1) as nat, j);
        if j == p {
            assert(distance(q, j, n) == n - 1);
            lemma_div_plus_one(turns - 1, n);
        } else {
            if j < p {
                assert(ids[j] < ids[p]);
            } else {
                assert(ids[p] < ids[j]);
            }
            assert(distance(q, j, n) == d - 1);
        }
    }
}

/// Round robin is fair: while the same `ids.len()` tasks have the highest
/// priority, any `turns` switches in a row pick each of them either
/// `turns / ids.len()` times, rounded down, or that rounded up.
pub proof fn lemma_round_robin_is_fair(ids: Seq<u32>, current: u32, turns: nat, id: u32)
    requires
        increasing(ids),
        ids.contains(id),
    ensures
        picks(ids, current, turns).len() == turns,
        turns / ids.len() <= times_picked(picks(ids, current, turns), id) <= (turns + ids.len() - 1)
            / (ids.len() as int),
{
    let n = ids.len() as int;
    let j = choose|j: int| 0 <= j < ids.len() && ids[j] == id;
    if turns == 0 {
        lemma_basic_div(0, n);
        lemma_basic_div(n - 1, n);
    } else {
        lemma_picks_walk(ids, current, turns);
        let p = choose|p: int| 0 <= p < ids.len() && picks(ids, current, turns) == walk(ids, p, turns);
        lemma_walk_count(ids, p, turns, j);
        lemma_walk_len(ids, p, turns);
        let d = distance(p, j, n);
        lemma_div_is_ordered(turns as int, turns + n - 1 - d, n);
        lemma_div_is_ordered(turns + n - 1 - d, turns + n - 1, n);
    }
}

proof fn lemma_walk_len(ids: Seq<u32>, p: int, turns: nat)
    ensures
        walk(ids, p, turns).len() == turns,
    decreases turns,
{
    if turns > 0 {
        lemma_walk_len(ids, following(p, ids.len() as int), (turns - 1) as nat);
    }
}

} // verus!
