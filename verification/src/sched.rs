//! The task table and the round-robin scheduling policy.
//!
//! The scheduler owns a fixed table of `MAX_TASKS` task control blocks,
//! addressed by small integer ids; tasks are registered once at boot and are
//! never destroyed. `schedule` walks the table cyclically from the slot after
//! `current` and picks the first `Ready` entry, so the policy is
//! starvation-free and O(capacity) per call. The table is mutated only from
//! trap context (or, for `create_task`, from the boot path before interrupts
//! are enabled): that single-writer discipline, not a lock, is what keeps the
//! table race-free.

use vstd::prelude::*;
use vstd::arithmetic::div_mod::{
    lemma_small_mod,
    lemma_add_mod_noop_right,
    lemma_mod_add_multiples_vanish,
    lemma_mod_pos_bound,
};

use crate::trap::{TrapFrame, FrameView, NUM_REGS, SP_REG};

verus! {

/// Fixed capacity of the task table.
pub const MAX_TASKS: usize = 16;

/// Size in bytes of each task's exclusively-owned stack region.
pub const STACK_SIZE: usize = 4096;

/// Bytes reserved at the top of a fresh stack for one full register frame.
pub const FRAME_RESERVE: usize = NUM_REGS * 8;

/// Scheduling state of one task table slot.
///
/// `Available` slots have never been handed out; a created task moves between
/// `Ready`, `Running` and `Blocked` and never returns to `Available`.
/// `Blocked` is a placeholder for future blocking primitives: nothing in this
/// core blocks, but the state exists so callers cannot observe an invalid
/// combination.
#[derive(Copy, Clone, PartialEq, Eq, Structural, Debug)]
pub enum TaskState {
    Available,
    Running,
    Ready,
    Blocked,
}

/// The kernel's error taxonomy.
#[derive(Copy, Clone, PartialEq, Eq, Structural, Debug)]
pub enum KernelError {
    /// `create_task` found no `Available` slot; recoverable by the boot code.
    SchedulerFull,
    /// A synchronous trap this core does not recognize; fatal, the system
    /// halts rather than resume with unknown corrupted state.
    UnhandledException,
    /// A timer interrupt arrived before `init` armed the first deadline; an
    /// init-ordering violation that the contracts rule out statically.
    TimerMisconfiguration,
}

/// One task control block: a stable id, an exclusively-owned stack region,
/// the scheduling state, and the full register context captured when the task
/// last stopped running.
pub struct Task {
    /// Slot of the entry in the table; never changes once created.
    pub id: usize,
    /// Exclusively-owned execution stack; never shared, never resized.
    pub stack: Vec<u8>,
    /// Offset of the task's stack pointer within `stack`.
    pub stack_ptr: usize,
    /// Scheduling state of this slot.
    pub state: TaskState,
    /// Every general-purpose register, the program counter and the status
    /// word as they were when the owning entry last lost the processor; all
    /// zero before its first turn.
    pub saved_context: TrapFrame,
}

impl Task {
    /// A table slot is well formed when it knows its own index, owns a full
    /// stack region, and its context has one slot per register.
    pub open spec fn wf(self, id: int) -> bool {
        &&& self.id == id
        &&& self.stack@.len() == STACK_SIZE
        &&& self.saved_context.wf()
    }
}

/// `t` with its scheduling state replaced and everything else intact.
pub open spec fn with_state(t: Task, st: TaskState) -> Task {
    Task { state: st, ..t }
}

/// `t` with its saved context replaced and everything else intact.
pub open spec fn with_context(t: Task, ctx: TrapFrame) -> Task {
    Task { saved_context: ctx, ..t }
}

/// Abstract value of the scheduler: the task table and the cursor.
/// `current == MAX_TASKS` is the sentinel meaning none/idle.
pub struct SchedulerView {
    pub tasks: Seq<Task>,
    pub current: int,
}

impl SchedulerView {
    /// The scheduling states of the table, in slot order.
    pub open spec fn states(self) -> Seq<TaskState> {
        self.tasks.map(|i: int, t: Task| t.state)
    }

    /// The saved contexts of the table, in slot order.
    pub open spec fn contexts(self) -> Seq<FrameView> {
        self.tasks.map(|i: int, t: Task| t.saved_context@)
    }

    /// The table has exactly `MAX_TASKS` well-formed slots, the cursor is a
    /// valid index or the idle sentinel, and a slot is `Running` exactly when
    /// the cursor points at it — so at most one task runs at any time.
    pub open spec fn wf(self) -> bool {
        &&& self.tasks.len() == MAX_TASKS
        &&& 0 <= self.current <= MAX_TASKS
        &&& forall|i: int| 0 <= i < MAX_TASKS ==> (#[trigger] self.tasks[i]).wf(i)
        &&& forall|i: int|
            0 <= i < MAX_TASKS ==> ((#[trigger] self.tasks[i].state) is Running <==> i
                == self.current)
    }
}

/// Index at which the cyclic scan begins: the slot after `current`, or slot 0
/// when the processor is idle.
pub open spec fn scan_start(current: int) -> int {
    if current == MAX_TASKS {
        0int
    } else {
        (current + 1) % (MAX_TASKS as int)
    }
}

/// The cyclic scan itself: the first `Ready` slot at offset `j` or beyond
/// from `start`, over at most `states.len()` slots in all.
pub open spec fn rr_scan(states: Seq<TaskState>, start: int, j: nat) -> Option<int>
    decreases states.len() - j,
{
    if j >= states.len() {
        None
    } else {
        let i = (start + j) % (states.len() as int);
        if states[i] is Ready {
            Some(i)
        } else {
            rr_scan(states, start, j + 1)
        }
    }
}

/// The slot the round-robin policy selects from view `v`, if any is `Ready`.
pub open spec fn rr_select(v: SchedulerView) -> Option<int> {
    rr_scan(v.states(), scan_start(v.current), 0)
}

/// Whatever the scan returns is a valid slot index, and that slot is `Ready`.
pub proof fn lemma_rr_scan_in_range(states: Seq<TaskState>, start: int, j: nat)
    requires
        states.len() > 0,
    ensures
        rr_scan(states, start, j) matches Some(s) ==> 0 <= s < states.len() && states[s] is Ready,
    decreases states.len() - j,
{
    if j < states.len() {
        let i = (start + j) % (states.len() as int);
        if !(states[i] is Ready) {
            lemma_rr_scan_in_range(states, start, j + 1);
        }
    }
}

/// The lowest `Available` slot at index `j` or beyond.
pub open spec fn first_available(states: Seq<TaskState>, j: nat) -> Option<int>
    decreases states.len() - j,
{
    if j >= states.len() {
        None
    } else if states[j as int] is Available {
        Some(j as int)
    } else {
        first_available(states, j + 1)
    }
}

/// Process-wide singleton owning the task table and the scheduling cursor.
///
/// Ownership contract: exactly one writer ever mutates this value — the trap
/// handling path, plus the boot path for `create_task` before interrupts are
/// enabled. Task code never touches the table.
pub struct Scheduler {
    tasks: Vec<Task>,
    current_task: usize,
}

impl View for Scheduler {
    type V = SchedulerView;

    closed spec fn view(&self) -> SchedulerView {
        SchedulerView { tasks: self.tasks@, current: self.current_task as int }
    }
}

impl Scheduler {
    /// A full table of `Available` slots with zeroed stacks and contexts, and
    /// the cursor at the idle sentinel.
    pub fn new() -> (s: Scheduler)
        ensures
            s@.wf(),
            s@.current == MAX_TASKS,
            forall|i: int| 0 <= i < MAX_TASKS ==> (#[trigger] s@.tasks[i].state) is Available,
            forall|i: int| 0 <= i < MAX_TASKS ==> (#[trigger] s@.tasks[i]).saved_context.is_zeroed(),
    {
        let mut tasks: Vec<Task> = Vec::new();
        let mut i: usize = 0;
        while i < MAX_TASKS
            invariant
                i <= MAX_TASKS,
                tasks@.len() == i,
                forall|k: int| 0 <= k < i ==> (#[trigger] tasks@[k]).wf(k),
                forall|k: int| 0 <= k < i ==> (#[trigger] tasks@[k].state) is Available,
                forall|k: int| 0 <= k < i ==> (#[trigger] tasks@[k]).saved_context.is_zeroed(),
            decreases MAX_TASKS - i,
        {
            let mut stack: Vec<u8> = Vec::new();
            let mut b: usize = 0;
            while b < STACK_SIZE
                invariant
                    b <= STACK_SIZE,
                    stack@.len() == b,
                decreases STACK_SIZE - b,
            {
                stack.push(0);
                b += 1;
            }
            let task = Task {
                id: i,
                stack,
                stack_ptr: 0,
                state: TaskState::Available,
                saved_context: TrapFrame::new(),
            };
            tasks.push(task);
            i += 1;
        }
        Scheduler { tasks, current_task: MAX_TASKS }
    }

    /// The cursor: the id of the task presently holding the processor, or
    /// `MAX_TASKS` when the processor is idle.
    pub fn current(&self) -> (r: usize)
        ensures
            r == self@.current,
    {
        self.current_task
    }

    /// Read one task table slot.
    pub fn task(&self, id: usize) -> (t: &Task)
        requires
            id < MAX_TASKS,
            self@.wf(),
        ensures
            *t == self@.tasks[id as int],
    {
        &self.tasks[id]
    }

    /// Registers a new task that will begin execution at address `entry`.
    ///
    /// Scans for the first `Available` slot; on success the slot becomes
    /// `Ready` with an initial context that starts at `entry` with the stack
    /// pointer at the top of the slot's stack region minus the reservation
    /// for one full register frame. Fails with `SchedulerFull` exactly when
    /// no slot is `Available`; the table is then left unchanged.
    pub fn create_task(&mut self, entry: usize) -> (r: Result<usize, KernelError>)
        requires
            old(self)@.wf(),
        ensures
            final(self)@.wf(),
            match first_available(old(self)@.states(), 0) {
                None => r == Err::<usize, KernelError>(KernelError::SchedulerFull) && final(self)@
                    == old(self)@,
                Some(slot) => {
                    &&& r == Ok::<usize, KernelError>(slot as usize)
                    &&& final(self)@.current == old(self)@.current
                    &&& final(self)@.tasks.len() == MAX_TASKS
                    &&& forall|j: int|
                        0 <= j < MAX_TASKS && j != slot ==> final(self)@.tasks[j] == old(self)@.tasks[j]
                    &&& final(self)@.tasks[slot].state is Ready
                    &&& final(self)@.tasks[slot].id == slot
                    &&& final(self)@.tasks[slot].stack@ == old(self)@.tasks[slot].stack@
                    &&& final(self)@.tasks[slot].stack_ptr == STACK_SIZE - FRAME_RESERVE
                    &&& final(self)@.tasks[slot].saved_context@.sepc == entry
                    &&& final(self)@.tasks[slot].saved_context@.mstatus == 0
                    &&& final(self)@.tasks[slot].saved_context@.regs == Seq::new(
                        NUM_REGS as nat,
                        |k: int| 0usize,
                    ).update(SP_REG as int, (STACK_SIZE - FRAME_RESERVE) as usize)
                },
            },
    {
        let ghost states = self@.states();
        let mut j: usize = 0;
        let mut slot: usize = MAX_TASKS;
        while j < MAX_TASKS
            invariant_except_break
                self@.wf(),
                j <= MAX_TASKS,
                slot == MAX_TASKS,
                states == self@.states(),
                first_available(states, 0) == first_available(states, j as nat),
            ensures
                self@.wf(),
                states == self@.states(),
                slot <= MAX_TASKS,
                slot == MAX_TASKS ==> first_available(states, 0) is None,
                slot < MAX_TASKS ==> first_available(states, 0) == Some(slot as int)
                    && self@.tasks[slot as int].state is Available,
            decreases MAX_TASKS - j,
        {
            if matches!(self.tasks[j].state, TaskState::Available) {
                slot = j;
                proof {
                    assert(first_available(states, j as nat) == Some(j as int));
                }
                break ;
            }
            j += 1;
        }
        if slot == MAX_TASKS {
            return Err(KernelError::SchedulerFull);
        }

        // Build the initial saved context: execution begins at `entry` with
        // the stack pointer at the top of the stack region, minus space for
        // one full register frame.
        let sp = STACK_SIZE - FRAME_RESERVE;
        self.tasks[slot].saved_context.reset();
        self.tasks[slot].saved_context.set_reg(SP_REG, sp);
        self.tasks[slot].saved_context.sepc = entry;
        self.tasks[slot].stack_ptr = sp;
        self.tasks[slot].state = TaskState::Ready;
        self.tasks[slot].id = slot;
        proof {
            assert(final(self)@.tasks[slot as int].saved_context@.regs =~= Seq::new(
                NUM_REGS as nat,
                |k: int| 0usize,
            ).update(SP_REG as int, (STACK_SIZE - FRAME_RESERVE) as usize));
        }
        Ok(slot)
    }

    /// Deterministic round-robin selection.
    ///
    /// Starting at the slot after `current` (slot 0 when idle), scans the
    /// table cyclically for the first `Ready` entry. On success the
    /// previously running task (if any) becomes `Ready`, the selected task
    /// becomes `Running`, and the cursor moves to it. If nothing is `Ready`
    /// the scheduler is left untouched and the caller must keep the processor
    /// where it was rather than switch.
    pub fn schedule(&mut self) -> (r: Option<usize>)
        requires
            old(self)@.wf(),
        ensures
            final(self)@.wf(),
            match rr_select(old(self)@) {
                None => r == Option::<usize>::None && final(self)@ == old(self)@,
                Some(s) => {
                    &&& r == Some(s as usize)
                    &&& final(self)@.current == s
                    &&& final(self)@.tasks[s] == with_state(old(self)@.tasks[s],
                    TaskState::Running)
                    &&& old(self)@.current < MAX_TASKS ==> final(self)@.tasks[old(self)@.current]
                        == with_state(old(self)@.tasks[old(self)@.current], TaskState::Ready)
                    &&& forall|j: int|
                        0 <= j < MAX_TASKS && j != s && j != old(self)@.current ==> final(self)@.tasks[j] == old(self)@.tasks[j]
                },
            },
    {
        let ghost states = self@.states();
        let start: usize = if self.current_task == MAX_TASKS {
            0
        } else {
            (self.current_task + 1) % MAX_TASKS
        };
        proof {
            assert(start == scan_start(self@.current));
        }
        let mut j: usize = 0;
        let mut selected: usize = MAX_TASKS;
        while j < MAX_TASKS
            invariant_except_break
                self@.wf(),
                states == self@.states(),
                start < MAX_TASKS,
                start == scan_start(self@.current),
                j <= MAX_TASKS,
                selected == MAX_TASKS,
                rr_scan(states, start as int, j as nat) == rr_scan(states, start as int, 0),
            ensures
                self@.wf(),
                states == self@.states(),
                start == scan_start(self@.current),
                selected <= MAX_TASKS,
                selected == MAX_TASKS ==> rr_scan(states, start as int, 0) is None,
                selected < MAX_TASKS ==> rr_scan(states, start as int, 0) == Some(selected as int)
                    && self@.tasks[selected as int].state is Ready,
            decreases MAX_TASKS - j,
        {
            let idx = (start + j) % MAX_TASKS;
            if matches!(self.tasks[idx].state, TaskState::Ready) {
                selected = idx;
                proof {
                    assert(rr_scan(states, start as int, j as nat) == Some(idx as int));
                }
                break ;
            }
            j += 1;
        }
        if selected == MAX_TASKS {
            return None;
        }
        let prev = self.current_task;
        if prev < MAX_TASKS {
            self.tasks[prev].state = TaskState::Ready;
        }
        self.tasks[selected].state = TaskState::Running;
        self.current_task = selected;
        Some(selected)
    }

    /// Move the running task to `Blocked` and leave the processor idle: the
    /// `Running -> Blocked` transition reserved for future blocking
    /// primitives. No blocking operation is defined in this core, so nothing
    /// ever waits; the transition exists so that no caller can observe an
    /// invalid combination.
    pub fn block_current(&mut self)
        requires
            old(self)@.wf(),
            old(self)@.current < MAX_TASKS,
        ensures
            final(self)@.wf(),
            final(self)@.current == MAX_TASKS,
            final(self)@.tasks[old(self)@.current] == with_state(
                old(self)@.tasks[old(self)@.current],
                TaskState::Blocked,
            ),
            forall|j: int|
                0 <= j < MAX_TASKS && j != old(self)@.current ==> final(self)@.tasks[j] == old(
                    self,
                )@.tasks[j],
    {
        let cur = self.current_task;
        self.tasks[cur].state = TaskState::Blocked;
        self.current_task = MAX_TASKS;
    }

    /// Move a `Blocked` task back to `Ready`: the `Blocked -> Ready`
    /// transition reserved for future blocking primitives.
    pub fn unblock_task(&mut self, id: usize)
        requires
            old(self)@.wf(),
            id < MAX_TASKS,
            old(self)@.tasks[id as int].state is Blocked,
        ensures
            final(self)@.wf(),
            final(self)@.current == old(self)@.current,
            final(self)@.tasks[id as int] == with_state(
                old(self)@.tasks[id as int],
                TaskState::Ready,
            ),
            forall|j: int|
                0 <= j < MAX_TASKS && j != id ==> final(self)@.tasks[j] == old(self)@.tasks[j],
    {
        self.tasks[id].state = TaskState::Ready;
    }

    /// Persist the interrupted code's register file into the currently
    /// running task's saved context. When the processor is idle there is no
    /// owner to save into and the table is untouched.
    pub fn save_context(&mut self, frame: &TrapFrame)
        requires
            old(self)@.wf(),
            frame.wf(),
        ensures
            final(self)@.wf(),
            final(self)@.current == old(self)@.current,
            old(self)@.current == MAX_TASKS ==> final(self)@ == old(self)@,
            old(self)@.current < MAX_TASKS ==> {
                &&& final(self)@.tasks[old(self)@.current].saved_context@ == frame@
                &&& final(self)@.tasks[old(self)@.current] == with_context(
                    old(self)@.tasks[old(self)@.current],
                    final(self)@.tasks[old(self)@.current].saved_context,
                )
                &&& forall|j: int|
                    0 <= j < MAX_TASKS && j != old(self)@.current ==> final(self)@.tasks[j] == old(self)@.tasks[j]
            },
    {
        let cur = self.current_task;
        if cur < MAX_TASKS {
            self.tasks[cur].saved_context.copy_from(frame);
        }
    }

    /// Load the currently running task's saved context into the live frame:
    /// the restore half of a context switch. When the processor is idle the
    /// frame is left as it was.
    pub fn restore_context(&self, frame: &mut TrapFrame)
        requires
            self@.wf(),
            old(frame).wf(),
        ensures
            final(frame).wf(),
            self@.current == MAX_TASKS ==> final(frame)@ == old(frame)@,
            self@.current < MAX_TASKS ==> final(frame)@
                == self@.tasks[self@.current].saved_context@,
    {
        let cur = self.current_task;
        if cur < MAX_TASKS {
            frame.copy_from(&self.tasks[cur].saved_context);
        }
    }
}

/// One `schedule` call over the abstract states: the new state sequence and
/// the new cursor. When nothing is `Ready` the pair is unchanged; otherwise
/// the previously running slot (if any) becomes `Ready` and the selected slot
/// becomes `Running`.
pub open spec fn schedule_step(states: Seq<TaskState>, cur: int) -> (Seq<TaskState>, int) {
    match rr_scan(states, scan_start(cur), 0) {
        None => (states, cur),
        Some(s) => (
            (if 0 <= cur < states.len() {
                states.update(cur, TaskState::Ready)
            } else {
                states
            }).update(s, TaskState::Running),
            s,
        ),
    }
}

/// `k` consecutive `schedule` calls over the abstract states.
pub open spec fn schedule_steps(states: Seq<TaskState>, cur: int, k: nat) -> (Seq<TaskState>, int)
    decreases k,
{
    if k == 0 {
        (states, cur)
    } else {
        let (s1, c1) = schedule_steps(states, cur, (k - 1) as nat);
        schedule_step(s1, c1)
    }
}

/// The slot picked by the `k+1`-th of a run of consecutive `schedule` calls.
pub open spec fn selection_at(states: Seq<TaskState>, cur: int, k: nat) -> Option<int> {
    let (sk, ck) = schedule_steps(states, cur, k);
    rr_scan(sk, scan_start(ck), 0)
}

/// A table whose first `n` slots hold live tasks — exactly one of them, the
/// cursor's, `Running`, the rest `Ready` — while the remaining slots are
/// still `Available`. This is the shape the table has once `n` tasks have
/// been created and one of them holds the processor.
pub open spec fn valid_rotation(states: Seq<TaskState>, n: int, cur: int) -> bool {
    &&& states.len() == MAX_TASKS
    &&& 1 <= n <= MAX_TASKS
    &&& 0 <= cur < n
    &&& states[cur] is Running
    &&& forall|i: int| 0 <= i < n && i != cur ==> (#[trigger] states[i]) is Ready
    &&& forall|i: int| n <= i < MAX_TASKS ==> (#[trigger] states[i]) is Available
}

/// A scan that only meets non-`Ready` slots keeps going: offsets `j1..j2`
/// can be skipped when none of them lands on a `Ready` slot.
proof fn lemma_rr_scan_skip(states: Seq<TaskState>, start: int, j1: nat, j2: nat)
    requires
        j1 <= j2 <= states.len(),
        forall|k: nat|
            j1 <= k < j2 ==> !((#[trigger] states[((start + k) % (states.len() as int))]) is Ready),
    ensures
        rr_scan(states, start, j1) == rr_scan(states, start, j2),
    decreases j2 - j1,
{
    if j1 < j2 {
        assert(!(states[((start + j1) % (states.len() as int))] is Ready));
        lemma_rr_scan_skip(states, start, j1 + 1, j2);
    }
}

/// From a rotation of `n` live tasks with the cursor at `cur`, the scan
/// selects exactly the next live slot, `(cur + 1) % n`.
pub proof fn lemma_rr_select_rotation(states: Seq<TaskState>, n: int, cur: int)
    requires
        valid_rotation(states, n, cur),
        2 <= n,
    ensures
        rr_scan(states, scan_start(cur), 0) == Some((cur + 1) % n),
{
    let len = MAX_TASKS as int;
    let start = scan_start(cur);
    if cur + 1 < n {
        // The very next slot is a live, Ready task.
        lemma_small_mod((cur + 1) as nat, len as nat);
        lemma_small_mod((cur + 1) as nat, n as nat);
        assert(start == cur + 1);
        assert(states[(start + 0) % len] is Ready) by {
            lemma_small_mod(start as nat, len as nat);
        }
    } else {
        // The cursor sits on the last live slot: the scan walks over the
        // Available tail and wraps to slot 0.
        assert(cur + 1 == n);
        assert((cur + 1) % n == 0) by {
            lemma_mod_add_multiples_vanish(0, n);
        }
        if n < len {
            lemma_small_mod(n as nat, len as nat);
            assert(start == n);
            assert forall|k: nat| 0 <= k < (len - n) implies !((#[trigger] states[((start + k) % (
            states.len() as int))]) is Ready) by {
                lemma_small_mod((n + k) as nat, len as nat);
                assert(states[n + k] is Available);
            }
            lemma_rr_scan_skip(states, start, 0, (len - n) as nat);
            assert((start + (len - n)) % len == 0) by {
                lemma_mod_add_multiples_vanish(0, len);
            }
            assert(states[0] is Ready);
        } else {
            assert(start == 0) by {
                lemma_mod_add_multiples_vanish(0, len);
            }
            lemma_small_mod(0, len as nat);
            assert(states[0] is Ready);
        }
    }
}

/// One `schedule` call carries a rotation of `n` live tasks to the same
/// rotation with the cursor advanced by one, cyclically over the live slots.
pub proof fn lemma_rotation_step(states: Seq<TaskState>, n: int, cur: int)
    requires
        valid_rotation(states, n, cur),
        2 <= n,
    ensures
        ({
            let (s2, c2) = schedule_step(states, cur);
            c2 == (cur + 1) % n && valid_rotation(s2, n, c2)
        }),
{
    lemma_rr_select_rotation(states, n, cur);
    let s = (cur + 1) % n;
    lemma_mod_pos_bound(cur + 1, n);
    if cur + 1 < n {
        lemma_small_mod((cur + 1) as nat, n as nat);
    } else {
        lemma_mod_add_multiples_vanish(0, n);
    }
    assert(s != cur);
    let (s2, c2) = schedule_step(states, cur);
    assert(s2 =~= states.update(cur, TaskState::Ready).update(s, TaskState::Running));
    assert forall|i: int| 0 <= i < n && i != s implies (#[trigger] s2[i]) is Ready by {
        if i != cur {
            assert(states[i] is Ready);
        }
    }
    assert forall|i: int| n <= i < MAX_TASKS implies (#[trigger] s2[i]) is Available by {
        assert(states[i] is Available);
    }
}

/// After `k` consecutive `schedule` calls a rotation of `n` live tasks is
/// still the same rotation, with the cursor advanced `k` slots cyclically.
pub proof fn lemma_rotation_steps(states: Seq<TaskState>, n: int, cur: int, k: nat)
    requires
        valid_rotation(states, n, cur),
        2 <= n,
    ensures
        ({
            let (sk, ck) = schedule_steps(states, cur, k);
            ck == (cur + k) % n && valid_rotation(sk, n, ck)
        }),
    decreases k,
{
    if k == 0 {
        lemma_small_mod(cur as nat, n as nat);
    } else {
        lemma_rotation_steps(states, n, cur, (k - 1) as nat);
        let (s1, c1) = schedule_steps(states, cur, (k - 1) as nat);
        lemma_rotation_step(s1, n, c1);
        assert((c1 + 1) % n == (cur + k) % n) by {
            lemma_add_mod_noop_right(1, cur + (k - 1), n);
        }
    }
}

/// Round-robin fairness: over a rotation of `n` live tasks, the `k+1`-th of
/// `n` consecutive `schedule` calls selects slot `(cur + 1 + k) % n` — so the
/// `n` calls visit every live task exactly once (see
/// `lemma_round_robin_distinct`), and the last of them re-selects the task
/// that was running before the first call.
pub proof fn lemma_round_robin_fairness(states: Seq<TaskState>, n: int, cur: int, k: nat)
    requires
        valid_rotation(states, n, cur),
        2 <= n,
        k < n,
    ensures
        selection_at(states, cur, k) == Some((cur + 1 + k) % n),
        k == n - 1 ==> selection_at(states, cur, k) == Some(cur),
{
    lemma_rotation_steps(states, n, cur, k);
    let (sk, ck) = schedule_steps(states, cur, k);
    lemma_rr_select_rotation(sk, n, ck);
    assert((ck + 1) % n == (cur + 1 + k) % n) by {
        lemma_add_mod_noop_right(1, cur + k, n);
    }
    if k == n - 1 {
        assert((cur + 1 + k) % n == cur) by {
            lemma_mod_add_multiples_vanish(cur, n);
            lemma_small_mod(cur as nat, n as nat);
        }
    }
}

/// No live task is visited twice within one full round of `n` consecutive
/// `schedule` calls over a rotation of `n` live tasks.
pub proof fn lemma_round_robin_distinct(states: Seq<TaskState>, n: int, cur: int, k1: nat, k2: nat)
    requires
        valid_rotation(states, n, cur),
        2 <= n,
        k1 < k2 < n,
    ensures
        selection_at(states, cur, k1) != selection_at(states, cur, k2),
{
    lemma_round_robin_fairness(states, n, cur, k1);
    lemma_round_robin_fairness(states, n, cur, k2);
    let m1 = (cur + 1 + k1) % n;
    let d = k2 - k1;
    lemma_mod_pos_bound(cur + 1 + k1, n);
    assert((cur + 1 + k2) % n == (m1 + d) % n) by {
        lemma_add_mod_noop_right(d, cur + 1 + k1, n);
    }
    if m1 + d < n {
        lemma_small_mod((m1 + d) as nat, n as nat);
    } else {
        assert((m1 + d) % n == (m1 + d - n) % n) by {
            lemma_mod_add_multiples_vanish(m1 + d - n, n);
        }
        lemma_small_mod((m1 + d - n) as nat, n as nat);
    }
}

/// The table fills in slot order. When the first `k` slots are taken and the
/// rest are still `Available`, the next task lands in slot `k` — so ids are
/// handed out as 0, 1, 2, … — and once no slot is `Available` the scan finds
/// nothing and `create_task` reports `SchedulerFull`, leaving the table
/// unchanged.
pub proof fn lemma_capacity_enforcement(states: Seq<TaskState>, k: int)
    requires
        states.len() == MAX_TASKS,
        0 <= k <= MAX_TASKS,
        forall|j: int| 0 <= j < k ==> !((#[trigger] states[j]) is Available),
        forall|j: int| k <= j < MAX_TASKS ==> (#[trigger] states[j]) is Available,
    ensures
        k < MAX_TASKS ==> first_available(states, 0) == Some(k),
        k == MAX_TASKS ==> first_available(states, 0) is None,
{
    lemma_first_available_prefix(states, 0, k);
}

/// `first_available` ignores a prefix of taken slots.
proof fn lemma_first_available_prefix(states: Seq<TaskState>, j: nat, k: int)
    requires
        states.len() == MAX_TASKS,
        j <= k <= MAX_TASKS,
        forall|l: int| j <= l < k ==> !((#[trigger] states[l]) is Available),
        k < MAX_TASKS ==> states[k] is Available,
    ensures
        k < MAX_TASKS ==> first_available(states, j) == Some(k),
        k == MAX_TASKS ==> first_available(states, j) is None,
    decreases k - j,
{
    if j < k {
        lemma_first_available_prefix(states, j + 1, k);
    } else if k == MAX_TASKS {
        assert(first_available(states, j) is None);
    }
}

} // verus!
