use vstd::prelude::*;
use crate::task_cfg::{Hunk, TaskCb};

verus! {

/// The port-specific part of a task's state: the saved stack pointer.
#[derive(Clone, Copy, PartialEq, Eq, Structural, Debug)]
pub struct TaskState {
    sp: u32,
}

impl View for TaskState {
    type V = u32;

    closed spec fn view(&self) -> u32 {
        self.sp
    }
}

impl TaskState {
    /// The state of a task whose context has not been initialized.
    pub fn init() -> (s: TaskState)
        ensures
            s@ == 0,
    {
        TaskState { sp: 0 }
    }

    /// The saved stack pointer.
    pub fn sp(&self) -> (r: u32)
        ensures
            r == self@,
    {
        self.sp
    }

    /// The word that holds the saved stack pointer, which the context
    /// switch reads and writes.
    pub fn saved_sp_mut(&mut self) -> (r: &mut u32)
        ensures
            *r == old(self)@,
            final(self)@ == *final(r),
    {
        &mut self.sp
    }
}

/// An operation on the CPU's interrupt-masking registers.
#[derive(Clone, Copy, PartialEq, Eq, Structural, Debug)]
pub enum CpuLockAction {
    /// Write the given value to `BASEPRI`.
    WriteBasepri(u8),
    /// Set `PRIMASK` to `1`, masking all configurable interrupts.
    DisableInterrupts,
    /// Set `PRIMASK` to `0`.
    EnableInterrupts,
}

/// The interrupt-masking registers of the CPU.
#[derive(Clone, Copy, PartialEq, Eq, Structural, Debug)]
pub struct CpuLockRegs {
    /// The value of `BASEPRI`.
    pub basepri: u8,
    /// Whether `PRIMASK` is `1` (configurable interrupts are masked).
    pub primask: bool,
}

/// The registers after the CPU performs `action` on `regs`.
pub open spec fn perform_cpu_lock_action(regs: CpuLockRegs, action: CpuLockAction) -> CpuLockRegs {
    match action {
        CpuLockAction::WriteBasepri(v) => CpuLockRegs { basepri: v, ..regs },
        CpuLockAction::DisableInterrupts => CpuLockRegs { primask: true, ..regs },
        CpuLockAction::EnableInterrupts => CpuLockRegs { primask: false, ..regs },
    }
}

/// What entering CPU Lock does for a port whose CPU Lock priority mask is
/// `mask`: raise `BASEPRI` to the mask when it is positive, else set
/// `PRIMASK`.
pub open spec fn cpu_lock_entry_action(mask: u8) -> CpuLockAction {
    if mask > 0 {
        CpuLockAction::WriteBasepri(mask)
    } else {
        CpuLockAction::DisableInterrupts
    }
}

/// What leaving CPU Lock does for a port whose CPU Lock priority mask is
/// `mask`: clear `BASEPRI` when the mask is positive, else clear `PRIMASK`.
pub open spec fn cpu_lock_exit_action(mask: u8) -> CpuLockAction {
    if mask > 0 {
        CpuLockAction::WriteBasepri(0)
    } else {
        CpuLockAction::EnableInterrupts
    }
}

/// Whether CPU Lock is active in `regs` for a port whose CPU Lock priority
/// mask is `mask`.
pub open spec fn cpu_lock_active(mask: u8, regs: CpuLockRegs) -> bool {
    if mask > 0 {
        regs.basepri != 0
    } else {
        regs.primask
    }
}

/// Which stack pointer is in use (`CONTROL.SPSEL`).
#[derive(Clone, Copy, PartialEq, Eq, Structural, Debug)]
pub enum Spsel {
    /// The main stack pointer.
    Msp,
    /// The process stack pointer.
    Psp,
}

/// The size in bytes of the initial context that `initialize_task_state`
/// lays out on a task's stack: eight words of exception frame below which
/// lie ten words of extra context.
pub const INITIAL_CONTEXT_BYTES: usize = 72;

/// The initial context of a task, in memory order from its saved stack
/// pointer upward: `R4`-`R11`, `EXC_RETURN`, `CONTROL`, then the exception
/// frame `R0`-`R3`, `R12`, `LR`, `PC`, `xPSR`.
pub open spec fn initial_context(entry_param: usize, entry_point: usize, exit_task: usize) -> Seq<u32> {
    seq![
        0x04040404u32, 0x05050505u32, 0x06060606u32, 0x07070707u32,
        0x08080808u32, 0x09090909u32, 0x10101010u32, 0x11111111u32,
        0xfffffffdu32, 0x00000002u32,
        entry_param as u32, 0x01010101u32, 0x02020202u32, 0x03030303u32,
        0x12121212u32, exit_task as u32, entry_point as u32, 0x01000000u32,
    ]
}

/// The address of the stack `hunk` in a hunk pool placed at address
/// `hunk_pool_base`.
pub open spec fn hunk_address(hunk_pool_base: usize, hunk: Hunk) -> usize {
    hunk_pool_base.wrapping_add(hunk.start)
}

/// The stack pointer saved for a task whose stack occupies `stack_len`
/// bytes from address `stack_start`: the initial context sits at the top
/// of the stack.
pub open spec fn initial_sp(stack_start: usize, stack_len: usize) -> u32 {
    stack_start.wrapping_add(stack_len).wrapping_sub(INITIAL_CONTEXT_BYTES) as u32
}

/// The registers of a task when it first runs after the port restored the
/// context `context` saved at stack pointer `sp` and the exception return
/// that follows.
pub struct TaskEntryRegs {
    /// `R0`, the first argument.
    pub r0: u32,
    /// `LR` in Thread mode: where the task returns to.
    pub lr: u32,
    /// `PC`: where the task starts executing.
    pub pc: u32,
    /// `xPSR`.
    pub xpsr: u32,
    /// The `EXC_RETURN` value the handler returns with.
    pub exc_return: u32,
    /// The value the handler writes to `CONTROL`.
    pub control: u32,
    /// `PSP` as the handler leaves it, before the exception return.
    pub psp_at_exception_return: int,
    /// `PSP` after the exception return has popped the exception frame.
    pub psp: int,
}

/// What the context restore of the PendSV and SVCall handlers, then the
/// exception return, make of the context `context` at stack pointer `sp`:
/// `R4`-`R11`, `EXC_RETURN` and `CONTROL` are loaded from its first ten
/// words and `PSP` is set past them; the exception return then pops `R0`-`R3`,
/// `R12`, `LR`, `PC` and `xPSR` from the next eight.
pub open spec fn restore_context(sp: int, context: Seq<u32>) -> TaskEntryRegs {
    TaskEntryRegs {
        r0: context[10],
        lr: context[15],
        pc: context[16],
        xpsr: context[17],
        exc_return: context[8],
        control: context[9],
        psp_at_exception_return: sp + 40,
        psp: sp + 40 + 32,
    }
}

/// The state of the Arm-M port.
pub struct State {}

/// Implemented on a system type that instantiates the port.
pub trait PortInstance {
    /// The port's state.
    fn port_state() -> &'static State;
}

impl State {
    /// The largest tick count the port's timer reports.
    pub const MAX_TICK_COUNT: u32 = 0xffff_ffff;

    /// The longest timeout the port's timer accepts.
    pub const MAX_TIMEOUT: u32 = 0x7fff_ffff;

    /// The port's state at boot.
    pub fn new() -> (s: State) {
        State {}
    }

    /// What entering CPU Lock does, for a port whose CPU Lock priority mask
    /// is `cpu_lock_priority_mask`: raise `BASEPRI` to the mask when it is
    /// positive, else set `PRIMASK`.
    pub fn enter_cpu_lock(&self, cpu_lock_priority_mask: u8) -> (a: CpuLockAction)
        ensures
            a == cpu_lock_entry_action(cpu_lock_priority_mask),
    {
        if cpu_lock_priority_mask > 0 {
            CpuLockAction::WriteBasepri(cpu_lock_priority_mask)
        } else {
            CpuLockAction::DisableInterrupts
        }
    }

    /// What leaving CPU Lock does: clear `BASEPRI` (no masking) when the
    /// mask is positive, else clear `PRIMASK`.
    pub fn leave_cpu_lock(&self, cpu_lock_priority_mask: u8) -> (a: CpuLockAction)
        ensures
            a == cpu_lock_exit_action(cpu_lock_priority_mask),
    {
        if cpu_lock_priority_mask > 0 {
            CpuLockAction::WriteBasepri(0)
        } else {
            CpuLockAction::EnableInterrupts
        }
    }

    /// Whether CPU Lock is active, given the register values read from the
    /// CPU: `BASEPRI` is non-zero when the mask is positive, else `PRIMASK`
    /// is set.
    pub fn is_cpu_lock_active(&self, cpu_lock_priority_mask: u8, regs: CpuLockRegs) -> (r: bool)
        ensures
            r == cpu_lock_active(cpu_lock_priority_mask, regs),
    {
        if cpu_lock_priority_mask > 0 {
            regs.basepri != 0
        } else {
            regs.primask
        }
    }

    /// Whether the CPU runs in a task context, given `CONTROL.SPSEL`: tasks
    /// run on the process stack.
    pub fn is_task_context(&self, spsel: Spsel) -> (r: bool)
        ensures
            r == (spsel == Spsel::Psp),
    {
        match spsel {
            Spsel::Psp => true,
            Spsel::Msp => false,
        }
    }

    /// Prepare the context of `task` so that dispatching it calls its entry
    /// point with its parameter and returns into `exit_task`. The task's
    /// stack is its stack hunk in the hunk pool placed at address
    /// `hunk_pool_base`.
    ///
    /// Saves in the task state the stack pointer, at the top of the stack,
    /// at which the returned initial context is to be stored.
    pub fn initialize_task_state(
        &self,
        task: &mut TaskCb<TaskState>,
        hunk_pool_base: usize,
        exit_task: usize,
    ) -> (context: Vec<u32>)
        ensures
            context@ == initial_context(
                old(task).attr.entry_param,
                old(task).attr.entry_point,
                exit_task,
            ),
            final(task).port_task_state@ == initial_sp(
                hunk_address(hunk_pool_base, old(task).attr.stack.hunk),
                old(task).attr.stack.hunk.len,
            ),
            final(task).attr == old(task).attr,
            final(task).priority == old(task).priority,
            final(task).st == old(task).st,
            final(task).link == old(task).link,
            final(task).wait == old(task).wait,
    {
        let stack_start: usize = hunk_pool_base.wrapping_add(task.attr.stack.hunk.start);
        let stack_end: usize = stack_start.wrapping_add(task.attr.stack.hunk.len);
        let sp: usize = stack_end.wrapping_sub(INITIAL_CONTEXT_BYTES);
        let mut context: Vec<u32> = Vec::new();
        // R4-R11: uninitialized
        context.push(0x04040404);
        context.push(0x05050505);
        context.push(0x06060606);
        context.push(0x07070707);
        context.push(0x08080808);
        context.push(0x09090909);
        context.push(0x10101010);
        context.push(0x11111111);
        // EXC_RETURN: return to Thread mode, using the process stack
        context.push(0xfffffffd);
        // CONTROL: SPSEL = 1 (use PSP)
        context.push(0x00000002);
        // R0: the parameter to the entry point
        context.push(task.attr.entry_param as u32);
        // R1-R3, R12: uninitialized
        context.push(0x01010101);
        context.push(0x02020202);
        context.push(0x03030303);
        context.push(0x12121212);
        // LR: the return address
        context.push(exit_task as u32);
        // PC: the entry point
        context.push(task.attr.entry_point as u32);
        // xPSR
        context.push(0x01000000);
        task.port_task_state = TaskState { sp: sp as u32 };
        context
    }

    /// The range of interrupt priorities managed by the kernel: from the
    /// CPU Lock priority mask, which CPU Lock raises the execution priority
    /// to, up to 256.
    pub fn managed_interrupt_priority_range(&self, cpu_lock_priority_mask: u8) -> (r:
        core::ops::Range<i16>)
        ensures
            r.start == cpu_lock_priority_mask as i16,
            r.end == 256,
    {
        (cpu_lock_priority_mask as i16)..256
    }

    /// The current tick count. This port has no timer yet and always
    /// reports zero.
    pub fn tick_count(&self) -> (r: u32)
        ensures
            r == 0,
    {
        0
    }

    /// Request a timer interrupt after the given number of ticks. This port
    /// has no timer yet and does nothing.
    pub fn pend_tick_after(&self, tick_count_delta: u32) {
    }

    /// Request an immediate timer interrupt. This port has no timer yet and
    /// does nothing.
    pub fn pend_tick(&self) {
    }
}

/// Entering CPU Lock makes it active and leaving it makes it inactive,
/// whatever the interrupt-masking registers held before.
pub proof fn lemma_cpu_lock_enter_leave(mask: u8, regs: CpuLockRegs)
    ensures
        cpu_lock_active(mask, perform_cpu_lock_action(regs, cpu_lock_entry_action(mask))),
        !cpu_lock_active(mask, perform_cpu_lock_action(regs, cpu_lock_exit_action(mask))),
{
}

/// On a stack large enough for the initial context, within the 32-bit
/// address space, the saved stack pointer lies inside the stack, and the
/// initial context fills the stack's top exactly.
pub proof fn lemma_initial_context_at_stack_top(
    stack_start: usize,
    stack_len: usize,
    entry_param: usize,
    entry_point: usize,
    exit_task: usize,
)
    requires
        stack_start + stack_len <= u32::MAX,
        stack_len >= INITIAL_CONTEXT_BYTES,
    ensures
        initial_sp(stack_start, stack_len) == stack_start + stack_len - INITIAL_CONTEXT_BYTES,
        stack_start <= initial_sp(stack_start, stack_len),
        initial_sp(stack_start, stack_len) + 4 * initial_context(
            entry_param,
            entry_point,
            exit_task,
        ).len() == stack_start + stack_len,
{
}

/// Restoring the initial context of a task, on a stack large enough for it
/// within the 32-bit address space, starts the task at its entry point in
/// Thread mode on the process stack, with its parameter in `R0`, `exit_task`
/// as its return address, the Thumb state set, and the whole stack free.
pub proof fn lemma_restore_initial_context(
    stack_start: usize,
    stack_len: usize,
    entry_param: usize,
    entry_point: usize,
    exit_task: usize,
)
    requires
        stack_start + stack_len <= u32::MAX,
        stack_len >= INITIAL_CONTEXT_BYTES,
    ensures
        ({
            let regs = restore_context(
                initial_sp(stack_start, stack_len) as int,
                initial_context(entry_param, entry_point, exit_task),
            );
            &&& regs.r0 == entry_param as u32
            &&& regs.pc == entry_point as u32
            &&& regs.lr == exit_task as u32
            &&& regs.xpsr == 0x01000000
            &&& regs.exc_return == 0xfffffffd
            &&& regs.control == 2
            &&& regs.psp_at_exception_return == stack_start + stack_len - 32
            &&& regs.psp == stack_start + stack_len
        }),
{
    lemma_initial_context_at_stack_top(stack_start, stack_len, entry_param, entry_point, exit_task);
}

/// With a positive CPU Lock priority mask, entering CPU Lock writes exactly
/// that mask to `BASEPRI` and leaving it writes zero; with a zero mask,
/// entering sets `PRIMASK` and leaving clears it. Other registers are left
/// alone.
pub proof fn lemma_cpu_lock_actions(mask: u8, regs: CpuLockRegs)
    ensures
        mask > 0 ==> cpu_lock_entry_action(mask) == CpuLockAction::WriteBasepri(mask),
        mask > 0 ==> cpu_lock_exit_action(mask) == CpuLockAction::WriteBasepri(0),
        mask == 0 ==> cpu_lock_entry_action(mask) == CpuLockAction::DisableInterrupts,
        mask == 0 ==> cpu_lock_exit_action(mask) == CpuLockAction::EnableInterrupts,
        mask > 0 ==> perform_cpu_lock_action(regs, cpu_lock_entry_action(mask)) == (CpuLockRegs {
            basepri: mask,
            primask: regs.primask,
        }),
        mask == 0 ==> perform_cpu_lock_action(regs, cpu_lock_entry_action(mask)) == (CpuLockRegs {
            basepri: regs.basepri,
            primask: true,
        }),
{
}

/// A stack hunk lies in the hunk pool at the pool's base plus the hunk's
/// start offset, so the stack pointer saved for the task is the end of its
/// hunk, less the initial context, when the pool lies within the 32-bit
/// address space.
pub proof fn lemma_initial_sp_of_hunk(hunk_pool_base: usize, hunk: Hunk)
    requires
        hunk_pool_base + hunk.start + hunk.len <= u32::MAX,
        hunk.len >= INITIAL_CONTEXT_BYTES,
    ensures
        hunk_address(hunk_pool_base, hunk) == hunk_pool_base + hunk.start,
        initial_sp(hunk_address(hunk_pool_base, hunk), hunk.len) == hunk_pool_base + hunk.start
            + hunk.len - INITIAL_CONTEXT_BYTES,
{
}

} // verus!
