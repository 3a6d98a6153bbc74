//! Upcalls: kernel-scheduled invocations of user functions, and the task
//! queue entries that carry them to a process.

use vstd::prelude::*;
use crate::process::ProcessId;

verus! {

/// Identifier of one subscribe slot: the driver and its subscribe number.
#[derive(Clone, Copy, Debug, PartialEq, Eq, Structural)]
pub struct UpcallId {
    pub driver_num: usize,
    pub subscribe_num: usize,
}

/// A userspace callback registered through the Subscribe syscall.
///
/// A function pointer of zero denotes the null upcall: scheduling it is a
/// no-op, and it is what a process gets back before it ever subscribed.
#[derive(Clone, Copy, Debug, PartialEq, Eq, Structural)]
pub struct Upcall {
    /// The process this upcall belongs to.
    pub process_id: ProcessId,
    /// The subscribe slot this upcall was registered on.
    pub upcall_id: UpcallId,
    /// Opaque word the process asked to receive back in the callback.
    pub appdata: usize,
    /// Address of the user function; zero for the null upcall.
    pub fn_ptr: usize,
}

impl Upcall {
    /// A fresh upcall for the given slot.
    pub fn new(process_id: ProcessId, upcall_id: UpcallId, appdata: usize, fn_ptr: usize) -> (r:
        Upcall)
        ensures
            r == (Upcall { process_id, upcall_id, appdata, fn_ptr }),
    {
        Upcall { process_id, upcall_id, appdata, fn_ptr }
    }

    /// The null upcall for the given slot: no function pointer, no appdata.
    pub fn null(process_id: ProcessId, upcall_id: UpcallId) -> (r: Upcall)
        ensures
            r == (Upcall { process_id, upcall_id, appdata: 0, fn_ptr: 0 }),
    {
        Upcall { process_id, upcall_id, appdata: 0, fn_ptr: 0 }
    }

    /// True when no user function is installed.
    pub open spec fn is_null(self) -> bool {
        self.fn_ptr == 0
    }
}

/// Who queued a function call on a process.
#[derive(Clone, Copy, Debug, PartialEq, Eq, Structural)]
pub enum FunctionCallSource {
    /// Queued directly by the kernel (e.g. process startup).
    Kernel,
    /// Queued on behalf of a driver's subscribe slot.
    Driver(UpcallId),
}

/// A queued invocation of a user function: entry point plus four argument
/// words.
#[derive(Clone, Copy, Debug, PartialEq, Eq, Structural)]
pub struct FunctionCall {
    pub source: FunctionCallSource,
    pub pc: usize,
    pub argument0: usize,
    pub argument1: usize,
    pub argument2: usize,
    pub argument3: usize,
}

/// The two kinds of inter-process notification.
#[derive(Clone, Copy, Debug, PartialEq, Eq, Structural)]
pub enum IpcType {
    Service,
    Client,
}

/// One entry of a process's task queue.
#[derive(Clone, Copy, Debug, PartialEq, Eq, Structural)]
pub enum Task {
    /// Run a user function (an upcall or the startup entry point).
    FunctionCall(FunctionCall),
    /// Notify the process about IPC activity from the given peer.
    IPC(ProcessId, IpcType),
}

/// True for a task that delivers an upcall registered on `id`.
pub open spec fn task_is_upcall_for(t: Task, id: UpcallId) -> bool {
    match t {
        Task::FunctionCall(fc) => fc.source == FunctionCallSource::Driver(id),
        Task::IPC(_, _) => false,
    }
}

/// The task sequence with every upcall task for `id` removed, order kept.
pub open spec fn without_upcalls(s: Seq<Task>, id: UpcallId) -> Seq<Task>
    decreases s.len(),
{
    if s.len() == 0 {
        Seq::empty()
    } else {
        let rest = without_upcalls(s.drop_first(), id);
        if task_is_upcall_for(s[0], id) {
            rest
        } else {
            seq![s[0]] + rest
        }
    }
}

/// How many IPC notifications a task sequence holds.
pub open spec fn ipc_task_count(s: Seq<Task>) -> nat
    decreases s.len(),
{
    if s.len() == 0 {
        0
    } else {
        (if s[0] is IPC {
            1nat
        } else {
            0nat
        }) + ipc_task_count(s.drop_first())
    }
}

/// Appending one task extends the filtered sequence by that task or not at
/// all, depending on whether it matches.
pub proof fn lemma_without_upcalls_push(s: Seq<Task>, id: UpcallId, t: Task)
    ensures
        without_upcalls(s.push(t), id) == if task_is_upcall_for(t, id) {
            without_upcalls(s, id)
        } else {
            without_upcalls(s, id).push(t)
        },
    decreases s.len(),
{
    reveal_with_fuel(without_upcalls, 3);
    if s.len() == 0 {
        assert(s.push(t).drop_first() =~= Seq::<Task>::empty());
        assert(s.push(t)[0] == t);
        if !task_is_upcall_for(t, id) {
            assert(seq![t] + Seq::<Task>::empty() =~= Seq::<Task>::empty().push(t));
        }
    } else {
        assert(s.push(t).drop_first() =~= s.drop_first().push(t));
        assert(s.push(t)[0] == s[0]);
        lemma_without_upcalls_push(s.drop_first(), id, t);
        if !task_is_upcall_for(s[0], id) && !task_is_upcall_for(t, id) {
            assert(seq![s[0]] + without_upcalls(s.drop_first(), id).push(t) =~= (seq![s[0]]
                + without_upcalls(s.drop_first(), id)).push(t));
        }
    }
}

/// Filtering never lengthens the sequence.
pub proof fn lemma_without_upcalls_len(s: Seq<Task>, id: UpcallId)
    ensures
        without_upcalls(s, id).len() <= s.len(),
    decreases s.len(),
{
    if s.len() > 0 {
        lemma_without_upcalls_len(s.drop_first(), id);
    }
}

/// No upcall task for `id` survives the filter.
pub proof fn lemma_without_upcalls_clean(s: Seq<Task>, id: UpcallId)
    ensures
        forall|j: int|
            0 <= j < without_upcalls(s, id).len() ==> !task_is_upcall_for(
                without_upcalls(s, id)[j],
                id,
            ),
    decreases s.len(),
{
    reveal_with_fuel(without_upcalls, 2);
    if s.len() > 0 {
        lemma_without_upcalls_clean(s.drop_first(), id);
        if !task_is_upcall_for(s[0], id) {
            let r = seq![s[0]] + without_upcalls(s.drop_first(), id);
            assert(forall|j: int|
                1 <= j < r.len() ==> r[j] == without_upcalls(s.drop_first(), id)[j - 1]);
        }
    }
}

/// The filter drops only function-call tasks, so IPC notifications survive.
pub proof fn lemma_without_upcalls_ipc(s: Seq<Task>, id: UpcallId)
    ensures
        ipc_task_count(without_upcalls(s, id)) == ipc_task_count(s),
    decreases s.len(),
{
    if s.len() > 0 {
        lemma_without_upcalls_ipc(s.drop_first(), id);
        if !task_is_upcall_for(s[0], id) {
            let r = seq![s[0]] + without_upcalls(s.drop_first(), id);
            assert(r[0] == s[0]);
            assert(r.drop_first() =~= without_upcalls(s.drop_first(), id));
        }
    }
}

/// Appending one task raises the IPC count by one exactly for IPC tasks.
pub proof fn lemma_ipc_count_push(s: Seq<Task>, t: Task)
    ensures
        ipc_task_count(s.push(t)) == ipc_task_count(s) + (if t is IPC {
            1nat
        } else {
            0nat
        }),
    decreases s.len(),
{
    reveal_with_fuel(ipc_task_count, 3);
    if s.len() == 0 {
        assert(s.push(t).drop_first() =~= Seq::<Task>::empty());
        assert(s.push(t)[0] == t);
    } else {
        assert(s.push(t).drop_first() =~= s.drop_first().push(t));
        assert(s.push(t)[0] == s[0]);
        lemma_ipc_count_push(s.drop_first(), t);
    }
}

/// A sequence extended only by function-call tasks keeps its IPC count.
pub proof fn lemma_ipc_count_fc_extension(a: Seq<Task>, b: Seq<Task>)
    requires
        a.len() <= b.len(),
        a =~= b.take(a.len() as int),
        forall|j: int| a.len() <= j < b.len() ==> b[j] is FunctionCall,
    ensures
        ipc_task_count(b) == ipc_task_count(a),
    decreases b.len() - a.len(),
{
    if a.len() == b.len() {
        assert(a =~= b);
    } else {
        let b1 = b.take(b.len() - 1);
        assert(b =~= b1.push(b[b.len() - 1]));
        lemma_ipc_count_push(b1, b[b.len() - 1]);
        assert(a =~= b1.take(a.len() as int));
        lemma_ipc_count_fc_extension(a, b1);
    }
}

} // verus!
