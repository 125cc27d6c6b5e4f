//! The cooperative kernel: a fixed table of task slots entered in order.
use vstd::prelude::*;
use crate::os::task::{Task, TaskState};

verus! {

/// Number of task slots.
pub const TASK_SLOTS: usize = 3;

/// The slots of `s` before index `k` that hold a ready task, in order.
pub open spec fn ready_slots<E>(s: Seq<Option<Task<E>>>, k: nat) -> Seq<usize>
    decreases k,
{
    if k == 0 {
        Seq::empty()
    } else {
        let rest = ready_slots(s, (k - 1) as nat);
        match s[k - 1] {
            Some(t) => if t.state == TaskState::Ready {
                rest.push((k - 1) as usize)
            } else {
                rest
            },
            None => rest,
        }
    }
}

/// `k` is the first free slot of `s`.
pub open spec fn first_free<E>(s: Seq<Option<Task<E>>>, k: int) -> bool {
    &&& 0 <= k < s.len()
    &&& s[k] is None
    &&& forall|j: int| 0 <= j < k ==> #[trigger] s[j] is Some
}

/// `s` has no free slot.
pub open spec fn full<E>(s: Seq<Option<Task<E>>>) -> bool {
    forall|j: int| 0 <= j < s.len() ==> #[trigger] s[j] is Some
}

/// Slot `i` of `s` holds a ready task.
pub open spec fn is_ready<E>(s: Seq<Option<Task<E>>>, i: int) -> bool {
    s[i] is Some && s[i]->Some_0.state == TaskState::Ready
}

/// The slots one pass enters are exactly the slots that hold a ready task.
proof fn lemma_ready_slots_members<E>(s: Seq<Option<Task<E>>>, n: nat)
    requires
        n <= s.len(),
        s.len() <= TASK_SLOTS,
    ensures
        forall|i: int| 0 <= i < n ==> (ready_slots(s, n).contains(i as usize) <==> is_ready(s, i)),
        forall|j: int| 0 <= j < ready_slots(s, n).len() ==> (#[trigger] ready_slots(s, n)[j]) < n,
    decreases n,
{
    if n > 0 {
        lemma_ready_slots_members(s, (n - 1) as nat);
        let rest = ready_slots(s, (n - 1) as nat);
        assert forall|i: int| 0 <= i < n implies (ready_slots(s, n).contains(i as usize) <==> is_ready(s, i)) by {
            if is_ready(s, n - 1) {
                assert(ready_slots(s, n) == rest.push((n - 1) as usize));
                if i < n - 1 {
                    if ready_slots(s, n).contains(i as usize) {
                        let j = choose|j: int| 0 <= j < ready_slots(s, n).len() && ready_slots(s, n)[j] == i as usize;
                        assert(j < rest.len());
                        assert(rest.contains(i as usize));
                    }
                    if rest.contains(i as usize) {
                        let j = choose|j: int| 0 <= j < rest.len() && rest[j] == i as usize;
                        assert(ready_slots(s, n)[j] == i as usize);
                    }
                } else {
                    assert(ready_slots(s, n)[rest.len() as int] == (n - 1) as usize);
                }
            } else {
                assert(ready_slots(s, n) == rest);
                if i == n - 1 && rest.contains(i as usize) {
                    let j = choose|j: int| 0 <= j < rest.len() && rest[j] == i as usize;
                    assert(rest[j] < n - 1);
                }
            }
        }
    }
}

/// A ready task added to a kernel with a free slot is entered by the next
/// pass of the loop, and every task that was entered before still is.
pub proof fn lemma_added_task_runs<E>(s: Seq<Option<Task<E>>>, k: int, task: Task<E>)
    requires
        s.len() == TASK_SLOTS,
        first_free(s, k),
        task.state == TaskState::Ready,
    ensures
        ready_slots(s.update(k, Some(task)), TASK_SLOTS as nat).contains(k as usize),
        forall|i: int|
            0 <= i < TASK_SLOTS && #[trigger] ready_slots(s, TASK_SLOTS as nat).contains(i as usize)
                ==> ready_slots(s.update(k, Some(task)), TASK_SLOTS as nat).contains(i as usize),
{
    let t = s.update(k, Some(task));
    lemma_ready_slots_members(s, TASK_SLOTS as nat);
    lemma_ready_slots_members(t, TASK_SLOTS as nat);
    assert(is_ready(t, k));
    assert forall|i: int|
        0 <= i < TASK_SLOTS && #[trigger] ready_slots(s, TASK_SLOTS as nat).contains(i as usize)
            implies ready_slots(t, TASK_SLOTS as nat).contains(i as usize) by {
        assert(is_ready(s, i));
        assert(i != k);
        assert(is_ready(t, i));
    }
}

/// A kernel with three task slots.
pub struct Kernel<E> {
    tasks: [Option<Task<E>>; 3],
    current: usize,
}

impl<E> Kernel<E> {
    /// The task slots.
    pub closed spec fn tasks(&self) -> Seq<Option<Task<E>>> {
        self.tasks@
    }

    /// A kernel with all slots free.
    pub fn new() -> (k: Self)
        ensures
            k.tasks() == seq![None::<Task<E>>, None, None],
    {
        let k = Kernel { tasks: [None, None, None], current: 0 };
        assert(k.tasks() =~= seq![None::<Task<E>>, None, None]);
        k
    }

    /// Puts `task` into the first free slot. When every slot is taken the
    /// task is dropped and the kernel is unchanged.
    pub fn add_task(&mut self, task: Task<E>)
        ensures
            final(self).tasks().len() == TASK_SLOTS,
            full(old(self).tasks()) ==> final(self).tasks() == old(self).tasks(),
            forall|k: int|
                first_free(old(self).tasks(), k) ==> final(self).tasks() == old(self).tasks().update(
                    k,
                    Some(task),
                ),
    {
        let mut i: usize = 0;
        while i < TASK_SLOTS
            invariant
                i <= TASK_SLOTS,
                self.tasks@ == old(self).tasks@,
                self.tasks@.len() == TASK_SLOTS,
                forall|j: int| 0 <= j < i ==> #[trigger] self.tasks@[j] is Some,
            decreases TASK_SLOTS - i,
        {
            if self.tasks[i].is_none() {
                self.tasks[i] = Some(task);
                return;
            }
            i = i + 1;
        }
    }

    /// One pass of the kernel's loop: the slots whose task is ready, in
    /// slot order; each is entered in turn by calling its entry point.
    pub fn run(&self) -> (order: Vec<usize>)
        ensures
            order@ == ready_slots(self.tasks(), TASK_SLOTS as nat),
    {
        let mut order: Vec<usize> = Vec::new();
        let mut i: usize = 0;
        while i < TASK_SLOTS
            invariant
                i <= TASK_SLOTS,
                self.tasks@.len() == TASK_SLOTS,
                order@ == ready_slots(self.tasks(), i as nat),
            decreases TASK_SLOTS - i,
        {
            match &self.tasks[i] {
                Some(t) => {
                    if t.state == TaskState::Ready {
                        order.push(i);
                    }
                },
                None => {},
            }
            i = i + 1;
        }
        order
    }

    /// The entry point of the task in slot `i`.
    pub fn entry_point(&self, i: usize) -> (e: &E)
        requires
            i < TASK_SLOTS,
            self.tasks()[i as int] is Some,
        ensures
            *e == self.tasks()[i as int]->Some_0.entry_point,
    {
        &self.tasks[i].as_ref().unwrap().entry_point
    }
}

} // verus!
