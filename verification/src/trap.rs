//! Trap frames: the register snapshot that the context-switch protocol moves
//! between the interrupted code and a task's saved context.
//!
//! A `TrapFrame` is the stack-resident snapshot of the registers live at the
//! moment of trap entry: the full integer register file, the saved program
//! counter, and the machine status word. Saving only the stack pointer would
//! not be enough to resume a task — it may stop mid-expression with live
//! values in any register — so the whole file is captured and restored.
//!
//! `trap_vector` is the single dispatch point for every trap: it persists the
//! interrupted registers into the running task's saved context, decodes the
//! cause register, routes a machine-timer tick through the timer and the
//! scheduler, and restores the (possibly different) now-running task's
//! context into the live frame. The hand-written register-transfer stubs that
//! move the hardware registers in and out of the frame, and the `mret` that
//! resumes, sit outside this boundary.

use vstd::prelude::*;
use vstd::arithmetic::div_mod::{
    lemma_small_mod,
    lemma_add_mod_noop_right,
    lemma_mod_add_multiples_vanish,
    lemma_mod_pos_bound,
};

use crate::sched::{KernelError, MAX_TASKS, Scheduler, TaskState, rr_scan, scan_start};
use crate::timer::Timer;

verus! {

/// Number of general-purpose integer registers (x0..x31).
pub const NUM_REGS: usize = 32;

/// Index of the stack-pointer register (x2) within the register file.
pub const SP_REG: usize = 2;

/// Abstract value of a trap frame: the register file as a sequence, the saved
/// program counter, and the machine status word.
pub struct FrameView {
    pub regs: Seq<usize>,
    pub sepc: usize,
    pub mstatus: usize,
}

/// Snapshot of the registers active at the moment of interrupt entry.
///
/// It exists for the duration of one trap and bridges the hardware's register
/// file and a task's `saved_context`.
pub struct TrapFrame {
    /// General-purpose registers x0..x31.
    pub regs: Vec<usize>,
    /// Saved program counter: where the interrupted code resumes.
    pub sepc: usize,
    /// Machine status word at the moment of the trap.
    pub mstatus: usize,
}

impl View for TrapFrame {
    type V = FrameView;

    open spec fn view(&self) -> FrameView {
        FrameView { regs: self.regs@, sepc: self.sepc, mstatus: self.mstatus }
    }
}

impl TrapFrame {
    /// A frame holds exactly one slot per general-purpose register.
    pub open spec fn wf(self) -> bool {
        self.regs@.len() == NUM_REGS
    }

    /// All registers, the program counter and the status word are zero.
    pub open spec fn is_zeroed(self) -> bool {
        &&& forall|i: int| 0 <= i < self.regs@.len() ==> self.regs@[i] == 0
        &&& self.sepc == 0
        &&& self.mstatus == 0
    }

    /// A zeroed frame: the state of a task's context before it is first
    /// scheduled.
    pub fn new() -> (f: TrapFrame)
        ensures
            f.wf(),
            f.is_zeroed(),
    {
        let mut regs: Vec<usize> = Vec::new();
        let mut i: usize = 0;
        while i < NUM_REGS
            invariant
                i <= NUM_REGS,
                regs@.len() == i,
                forall|k: int| 0 <= k < i ==> regs@[k] == 0,
            decreases NUM_REGS - i,
        {
            regs.push(0);
            i += 1;
        }
        TrapFrame { regs, sepc: 0, mstatus: 0 }
    }

    /// Read one general-purpose register.
    pub fn reg(&self, idx: usize) -> (r: usize)
        requires
            self.wf(),
            idx < NUM_REGS,
        ensures
            r == self@.regs[idx as int],
    {
        self.regs[idx]
    }

    /// Write one general-purpose register.
    pub fn set_reg(&mut self, idx: usize, value: usize)
        requires
            old(self).wf(),
            idx < NUM_REGS,
        ensures
            final(self).wf(),
            final(self)@.regs == old(self)@.regs.update(idx as int, value),
            final(self)@.sepc == old(self)@.sepc,
            final(self)@.mstatus == old(self)@.mstatus,
    {
        self.regs[idx] = value;
    }

    /// Overwrite this frame with the contents of `other`: the register-copy
    /// half of a context switch.
    pub fn copy_from(&mut self, other: &TrapFrame)
        requires
            other.wf(),
        ensures
            final(self).wf(),
            final(self)@ == other@,
    {
        self.sepc = other.sepc;
        self.mstatus = other.mstatus;
        self.regs.clear();
        let mut i: usize = 0;
        while i < NUM_REGS
            invariant
                other.wf(),
                i <= NUM_REGS,
                self.regs@ == other.regs@.take(i as int),
                self.sepc == other.sepc,
                self.mstatus == other.mstatus,
            decreases NUM_REGS - i,
        {
            let v = other.regs[i];
            self.regs.push(v);
            i += 1;
            proof {
                assert(self.regs@ =~= other.regs@.take(i as int));
            }
        }
        proof {
            assert(self.regs@ =~= other.regs@);
        }
    }

    /// Zero every register, the program counter and the status word.
    pub fn reset(&mut self)
        requires
            old(self).wf(),
        ensures
            final(self).wf(),
            final(self).is_zeroed(),
    {
        self.sepc = 0;
        self.mstatus = 0;
        let mut i: usize = 0;
        while i < NUM_REGS
            invariant
                self.regs@.len() == NUM_REGS,
                i <= NUM_REGS,
                forall|k: int| 0 <= k < i ==> self.regs@[k] == 0,
                self.sepc == 0,
                self.mstatus == 0,
            decreases NUM_REGS - i,
        {
            self.regs[i] = 0;
            i += 1;
        }
    }
}

/// The cause register's top bit, distinguishing asynchronous interrupts from
/// synchronous exceptions.
pub const MCAUSE_INTERRUPT_BIT: u64 = 0x8000000000000000;

/// Cause code of the machine timer interrupt.
pub const MCAUSE_MACHINE_TIMER: u64 = 7;

/// What the cause register says arrived.
#[derive(Copy, Clone, PartialEq, Eq, Structural, Debug)]
pub enum TrapCause {
    /// The machine timer fired: the preemption path.
    TimerInterrupt,
    /// Some other asynchronous interrupt: acknowledged, no task switch.
    OtherInterrupt { code: u64 },
    /// A synchronous exception: no recovery policy is defined, fatal.
    Exception { code: u64 },
}

/// What the dispatcher tells the low-level trap exit to do.
#[derive(Copy, Clone, PartialEq, Eq, Structural, Debug)]
pub enum TrapOutcome {
    /// Restore the live frame and execute the trap-return instruction.
    Resume,
    /// A trap-time failure, terminal for the whole system: report and halt,
    /// never resume.
    Fatal { error: KernelError },
}

/// The top bit of the cause register is set: an asynchronous interrupt.
pub open spec fn spec_is_interrupt(mcause: u64) -> bool {
    mcause & MCAUSE_INTERRUPT_BIT != 0
}

/// The cause register without its top bit: the cause code proper.
pub open spec fn spec_cause_code(mcause: u64) -> u64 {
    mcause & !MCAUSE_INTERRUPT_BIT
}

/// An asynchronous interrupt whose code is the machine timer's.
pub open spec fn spec_is_timer(mcause: u64) -> bool {
    spec_is_interrupt(mcause) && spec_cause_code(mcause) == MCAUSE_MACHINE_TIMER
}

/// How the dispatcher classifies a cause register value.
pub open spec fn spec_decode(mcause: u64) -> TrapCause {
    if !spec_is_interrupt(mcause) {
        TrapCause::Exception { code: spec_cause_code(mcause) }
    } else if spec_cause_code(mcause) == MCAUSE_MACHINE_TIMER {
        TrapCause::TimerInterrupt
    } else {
        TrapCause::OtherInterrupt { code: spec_cause_code(mcause) }
    }
}

/// Decode the cause register: the top bit separates interrupts from
/// exceptions, and among interrupts code 7 is the machine timer.
pub fn decode_cause(mcause: u64) -> (r: TrapCause)
    ensures
        r == spec_decode(mcause),
{
    let code = mcause & !MCAUSE_INTERRUPT_BIT;
    if mcause & MCAUSE_INTERRUPT_BIT == 0 {
        TrapCause::Exception { code }
    } else if code == MCAUSE_MACHINE_TIMER {
        TrapCause::TimerInterrupt
    } else {
        TrapCause::OtherInterrupt { code }
    }
}

/// Handler for interrupts this core does not route anywhere: acknowledge and
/// return without switching tasks.
pub fn generic_handler() -> (r: TrapOutcome)
    ensures
        r is Resume,
{
    TrapOutcome::Resume
}

/// The contexts after the entry save: the live frame persisted into the
/// running task's slot, or untouched when the processor is idle.
pub open spec fn save_model(ctxs: Seq<FrameView>, cur: int, live: FrameView) -> Seq<FrameView> {
    if 0 <= cur < ctxs.len() {
        ctxs.update(cur, live)
    } else {
        ctxs
    }
}

/// One timer tick, end to end, over the abstract kernel state: the live frame
/// is saved into the current task's context, the round-robin policy picks the
/// next task (if any is `Ready`), and the frame to resume with is the chosen
/// task's saved context — or the interrupted one's own, untouched, when
/// nothing is `Ready`. Returns the new states, cursor, contexts and live
/// frame.
pub open spec fn tick_model(
    states: Seq<TaskState>,
    cur: int,
    ctxs: Seq<FrameView>,
    live: FrameView,
) -> (Seq<TaskState>, int, Seq<FrameView>, FrameView) {
    let saved = save_model(ctxs, cur, live);
    let (st2, c2) = crate::sched::schedule_step(states, cur);
    match rr_scan(states, scan_start(cur), 0) {
        None => (states, cur, saved, live),
        Some(s) => (st2, c2, saved, saved[s]),
    }
}

/// `k` consecutive timer ticks over the abstract kernel state.
pub open spec fn tick_steps(
    states: Seq<TaskState>,
    cur: int,
    ctxs: Seq<FrameView>,
    live: FrameView,
    k: nat,
) -> (Seq<TaskState>, int, Seq<FrameView>, FrameView)
    decreases k,
{
    if k == 0 {
        (states, cur, ctxs, live)
    } else {
        let (s1, c1, x1, l1) = tick_steps(states, cur, ctxs, live, (k - 1) as nat);
        tick_model(s1, c1, x1, l1)
    }
}

/// The timer-interrupt path: acknowledge and rearm the tick, then ask the
/// scheduler for the next task. Returns what `schedule` returned; the context
/// switch itself is the save done at trap entry plus the restore done at trap
/// exit.
pub fn timer_handler(sched: &mut Scheduler, timer: &mut Timer, now: u64) -> (r: Option<usize>)
    requires
        old(sched)@.wf(),
        old(timer)@.armed,
        now + old(timer)@.interval <= u64::MAX,
    ensures
        final(sched)@.wf(),
        final(timer)@.armed,
        final(timer)@.interval == old(timer)@.interval,
        final(timer)@.mtimecmp == now + old(timer)@.interval,
        match crate::sched::rr_select(old(sched)@) {
            None => r == Option::<usize>::None && final(sched)@ == old(sched)@,
            Some(s) => {
                &&& r == Some(s as usize)
                &&& final(sched)@.current == s
                &&& final(sched)@.tasks[s] == crate::sched::with_state(
                    old(sched)@.tasks[s],
                    TaskState::Running,
                )
                &&& old(sched)@.current < MAX_TASKS ==> final(sched)@.tasks[old(sched)@.current]
                    == crate::sched::with_state(
                    old(sched)@.tasks[old(sched)@.current],
                    TaskState::Ready,
                )
                &&& forall|j: int|
                    0 <= j < MAX_TASKS && j != s && j != old(sched)@.current ==> final(sched)@.tasks[j] == old(sched)@.tasks[j]
            },
        },
{
    timer.handle_interrupt(now);
    sched.schedule()
}

/// The single trap entry point's logic: persist the interrupted registers,
/// decode the cause, route it, and leave in `frame` the registers to restore
/// before the trap-return instruction.
///
/// `mcause` and `now` are the cause register and the monotonic counter as read
/// by the low-level entry stub; the returned outcome tells the stub whether to
/// resume through `frame` or to report and halt.
pub fn trap_vector(
    sched: &mut Scheduler,
    timer: &mut Timer,
    frame: &mut TrapFrame,
    mcause: u64,
    now: u64,
) -> (r: TrapOutcome)
    requires
        old(sched)@.wf(),
        old(frame).wf(),
        old(timer)@.armed,
        now + old(timer)@.interval <= u64::MAX,
    ensures
        final(sched)@.wf(),
        final(frame).wf(),
        r is Fatal <==> !spec_is_interrupt(mcause),
        r is Fatal ==> r == (TrapOutcome::Fatal { error: KernelError::UnhandledException }),
        // Whatever arrived, the interrupted registers were persisted first.
        final(sched)@.contexts() == save_model(
            old(sched)@.contexts(),
            old(sched)@.current,
            old(frame)@,
        ),
        // A synchronous exception is fatal: nothing is switched, the frame is
        // left as it was saved.
        !spec_is_interrupt(mcause) ==> final(sched)@.states() == old(sched)@.states() && final(sched)@.current == old(sched)@.current && final(frame)@ == old(frame)@ && final(timer)@ == old(
            timer,
        )@,
        // An interrupt other than the timer is acknowledged and the same task
        // resumes with its registers intact.
        spec_is_interrupt(mcause) && !spec_is_timer(mcause) ==> final(frame)@ == old(frame)@
            && final(sched)@.states() == old(sched)@.states() && final(sched)@.current == old(sched)@.current && final(timer)@ == old(timer)@,
        // A timer tick rearms the deadline relative to `now` and performs the
        // round-robin context switch described by `tick_model`.
        spec_is_timer(mcause) ==> final(timer)@.armed && final(timer)@.interval == old(timer)@.interval && final(timer)@.mtimecmp == now + old(timer)@.interval && (
        final(sched)@.states(),
        final(sched)@.current,
        final(sched)@.contexts(),
        final(frame)@,
        ) == tick_model(
            old(sched)@.states(),
            old(sched)@.current,
            old(sched)@.contexts(),
            old(frame)@,
        ),
{
    let ghost states0 = old(sched)@.states();
    let ghost ctxs0 = old(sched)@.contexts();
    let ghost cur0 = old(sched)@.current;
    let ghost live0 = old(frame)@;

    // Step 1: persist the full register file of whatever was interrupted.
    sched.save_context(frame);
    proof {
        assert(sched@.states() =~= states0);
        assert(sched@.contexts() =~= save_model(ctxs0, cur0, live0));
    }
    let ghost v1 = sched@;

    // Step 2: decode the cause register and route.
    let outcome = match decode_cause(mcause) {
        TrapCause::Exception { .. } => TrapOutcome::Fatal { error: KernelError::UnhandledException },
        TrapCause::TimerInterrupt => {
            let _next = timer_handler(sched, timer, now);
            proof {
                let t = tick_model(states0, cur0, ctxs0, live0);
                crate::sched::lemma_rr_scan_in_range(states0, scan_start(cur0), 0);
                assert(crate::sched::rr_select(v1) == rr_scan(states0, scan_start(cur0), 0));
                match rr_scan(states0, scan_start(cur0), 0) {
                    None => {
                        assert(sched@ == v1);
                    },
                    Some(s) => {
                        assert forall|i: int| 0 <= i < MAX_TASKS implies sched@.states()[i]
                            == t.0[i] by {
                            if i == s {
                                assert(sched@.tasks[i] == crate::sched::with_state(
                                    v1.tasks[i],
                                    TaskState::Running,
                                ));
                            } else if i == cur0 {
                                assert(sched@.tasks[i] == crate::sched::with_state(
                                    v1.tasks[i],
                                    TaskState::Ready,
                                ));
                            } else {
                                assert(sched@.tasks[i] == v1.tasks[i]);
                            }
                        }
                        assert forall|i: int| 0 <= i < MAX_TASKS implies sched@.contexts()[i]
                            == t.2[i] by {
                            if i == s {
                                assert(sched@.tasks[i] == crate::sched::with_state(
                                    v1.tasks[i],
                                    TaskState::Running,
                                ));
                            } else if i == cur0 {
                                assert(sched@.tasks[i] == crate::sched::with_state(
                                    v1.tasks[i],
                                    TaskState::Ready,
                                ));
                            } else {
                                assert(sched@.tasks[i] == v1.tasks[i]);
                            }
                        }
                    },
                }
                assert(sched@.states() =~= t.0);
                assert(sched@.contexts() =~= t.2);
            }
            TrapOutcome::Resume
        },
        TrapCause::OtherInterrupt { .. } => generic_handler(),
    };
    if matches!(outcome, TrapOutcome::Fatal { .. }) {
        return outcome;
    }

    // Step 3: restore the (possibly different) now-running task's context.
    sched.restore_context(frame);
    TrapOutcome::Resume
}

/// Idle correctness: when no task is `Ready`, a tick selects nothing and
/// leaves the task states, the cursor and the live frame untouched — the
/// previously running task (or the idle loop) resumes exactly as interrupted.
pub proof fn lemma_idle_correctness(
    states: Seq<TaskState>,
    cur: int,
    ctxs: Seq<FrameView>,
    live: FrameView,
)
    requires
        forall|i: int| 0 <= i < states.len() ==> !((#[trigger] states[i]) is Ready),
    ensures
        ({
            let (s2, c2, x2, l2) = tick_model(states, cur, ctxs, live);
            s2 == states && c2 == cur && l2 == live
        }),
{
    if states.len() > 0 {
        crate::sched::lemma_rr_scan_in_range(states, scan_start(cur), 0);
    }
}

/// Induction workhorse for context fidelity: through `k` ticks of a rotation
/// of `n` live tasks, the cursor advances cyclically, the rotation shape is
/// preserved, the frame captured from the first interrupted task stays in its
/// slot untouched, and after every tick the live frame is the new current
/// task's saved context.
proof fn lemma_tick_round(
    states: Seq<TaskState>,
    n: int,
    cur: int,
    ctxs: Seq<FrameView>,
    live: FrameView,
    k: nat,
)
    requires
        crate::sched::valid_rotation(states, n, cur),
        2 <= n,
        ctxs.len() == MAX_TASKS,
        1 <= k <= n,
    ensures
        ({
            let (sk, ck, xk, lk) = tick_steps(states, cur, ctxs, live, k);
            &&& ck == (cur + k) % n
            &&& crate::sched::valid_rotation(sk, n, ck)
            &&& xk.len() == MAX_TASKS
            &&& xk[cur] == live
            &&& lk == xk[ck]
        }),
    decreases k,
{
    if k == 1 {
        crate::sched::lemma_rr_select_rotation(states, n, cur);
        crate::sched::lemma_rotation_step(states, n, cur);
        lemma_mod_pos_bound(cur + 1, n);
    } else {
        lemma_tick_round(states, n, cur, ctxs, live, (k - 1) as nat);
        let (s1, c1, x1, l1) = tick_steps(states, cur, ctxs, live, (k - 1) as nat);
        crate::sched::lemma_rr_select_rotation(s1, n, c1);
        crate::sched::lemma_rotation_step(s1, n, c1);
        assert((c1 + 1) % n == (cur + k) % n) by {
            lemma_add_mod_noop_right(1, cur + (k - 1), n);
        }
        // The tick saves into slot `c1`, which is not the first task's slot:
        // the cursor has moved, and comes back only on the n-th tick.
        assert(c1 != cur) by {
            if cur + (k - 1) < n {
                lemma_small_mod((cur + (k - 1)) as nat, n as nat);
            } else {
                assert((cur + (k - 1)) % n == (cur + (k - 1) - n) % n) by {
                    lemma_mod_add_multiples_vanish(cur + (k - 1) - n, n);
                }
                lemma_small_mod((cur + (k - 1) - n) as nat, n as nat);
            }
        }
        lemma_mod_pos_bound(cur + k, n);
    }
}

/// Context fidelity: over a rotation of `n` live tasks, a full round of `n`
/// timer ticks brings the processor back to the originally interrupted task,
/// and the frame it resumes with — every general-purpose register, the
/// program counter and the status word — is exactly the frame captured when
/// it was first preempted, no matter what the other tasks' registers did in
/// between.
pub proof fn lemma_context_fidelity(
    states: Seq<TaskState>,
    n: int,
    cur: int,
    ctxs: Seq<FrameView>,
    live: FrameView,
)
    requires
        crate::sched::valid_rotation(states, n, cur),
        2 <= n,
        ctxs.len() == MAX_TASKS,
    ensures
        ({
            let (sn, cn, xn, ln) = tick_steps(states, cur, ctxs, live, n as nat);
            cn == cur && ln == live
        }),
{
    lemma_tick_round(states, n, cur, ctxs, live, n as nat);
    assert((cur + n) % n == cur) by {
        lemma_mod_add_multiples_vanish(cur, n);
        lemma_small_mod(cur as nat, n as nat);
    }
}

} // verus!
