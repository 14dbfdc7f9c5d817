use constance::port_arm_m::{CpuLockAction, CpuLockRegs, Spsel, State, TaskState};
use constance::task_cfg::{Hunk, StackHunk, TaskAttr, TaskCb, TaskSt};

fn perform(regs: CpuLockRegs, action: CpuLockAction) -> CpuLockRegs {
    match action {
        CpuLockAction::WriteBasepri(v) => CpuLockRegs { basepri: v, ..regs },
        CpuLockAction::DisableInterrupts => CpuLockRegs { primask: true, ..regs },
        CpuLockAction::EnableInterrupts => CpuLockRegs { primask: false, ..regs },
    }
}

#[test]
fn cpu_lock_uses_basepri_when_the_mask_is_positive() {
    let s = State::new();
    assert_eq!(s.enter_cpu_lock(0x40), CpuLockAction::WriteBasepri(0x40));
    assert_eq!(s.leave_cpu_lock(0x40), CpuLockAction::WriteBasepri(0));
    assert!(s.is_cpu_lock_active(0x40, CpuLockRegs { basepri: 0x40, primask: false }));
    assert!(!s.is_cpu_lock_active(0x40, CpuLockRegs { basepri: 0, primask: true }));
}

#[test]
fn cpu_lock_uses_primask_when_the_mask_is_zero() {
    let s = State::new();
    assert_eq!(s.enter_cpu_lock(0), CpuLockAction::DisableInterrupts);
    assert_eq!(s.leave_cpu_lock(0), CpuLockAction::EnableInterrupts);
    assert!(s.is_cpu_lock_active(0, CpuLockRegs { basepri: 0, primask: true }));
    assert!(!s.is_cpu_lock_active(0, CpuLockRegs { basepri: 0x80, primask: false }));
}

#[test]
fn entering_then_leaving_cpu_lock() {
    let s = State::new();
    for mask in [0u8, 1, 0x20, 0xff] {
        for regs in [
            CpuLockRegs { basepri: 0, primask: false },
            CpuLockRegs { basepri: 0x10, primask: true },
        ] {
            let locked = perform(regs, s.enter_cpu_lock(mask));
            assert!(s.is_cpu_lock_active(mask, locked));
            let unlocked = perform(locked, s.leave_cpu_lock(mask));
            assert!(!s.is_cpu_lock_active(mask, unlocked));
        }
    }
}

#[test]
fn task_context_runs_on_the_process_stack() {
    let s = State::new();
    assert!(s.is_task_context(Spsel::Psp));
    assert!(!s.is_task_context(Spsel::Msp));
}

#[test]
fn initialize_task_state_lays_out_the_initial_context() {
    let s = State::new();
    let attr = TaskAttr {
        entry_point: 0x0800_0401,
        entry_param: 0x1234,
        stack: StackHunk::from_hunk(Hunk { start: 0x100, len: 1024 }),
    };
    let mut task = TaskCb {
        port_task_state: TaskState::init(),
        attr,
        priority: 3,
        st: TaskSt::Dormant,
        link: None,
        wait: None,
    };
    let context = s.initialize_task_state(&mut task, 0x2000_0000, 0x0800_0601);
    assert_eq!(task.wait, None);
    assert_eq!(
        context,
        vec![
            0x04040404, 0x05050505, 0x06060606, 0x07070707, 0x08080808, 0x09090909,
            0x10101010, 0x11111111, 0xfffffffd, 0x00000002, 0x1234, 0x01010101, 0x02020202,
            0x03030303, 0x12121212, 0x0800_0601, 0x0800_0401, 0x01000000,
        ]
    );
    assert_eq!(task.port_task_state.sp(), 0x2000_0500 - 72);
    assert_eq!(task.port_task_state.sp() as usize + 4 * context.len(), 0x2000_0500);
    // the exception frame restored last: R0, LR and PC
    assert_eq!(context[10], 0x1234);
    assert_eq!(context[15], 0x0800_0601);
    assert_eq!(context[16], 0x0800_0401);
    assert_eq!(task.attr, attr);
    assert_eq!(task.priority, 3);
    assert_eq!(task.st, TaskSt::Dormant);
}

#[test]
fn initialize_task_state_wraps_below_address_zero() {
    let s = State::new();
    let attr = TaskAttr {
        entry_point: 1,
        entry_param: 2,
        stack: StackHunk::from_hunk(Hunk { start: 0, len: 8 }),
    };
    let mut task = TaskCb {
        port_task_state: TaskState::init(),
        attr,
        priority: 0,
        st: TaskSt::Dormant,
        link: None,
        wait: None,
    };
    s.initialize_task_state(&mut task, 0, 3);
    assert_eq!(task.port_task_state.sp(), (8usize.wrapping_sub(72)) as u32);
}

#[test]
fn timer_stubs() {
    let s = State::new();
    assert_eq!(s.tick_count(), 0);
    s.pend_tick_after(100);
    s.pend_tick();
    assert_eq!(s.tick_count(), 0);
    assert_eq!(State::MAX_TICK_COUNT, u32::MAX);
    assert_eq!(State::MAX_TIMEOUT, u32::MAX / 2);
}

#[test]
fn managed_interrupt_priorities_start_at_the_cpu_lock_mask() {
    let s = State::new();
    assert_eq!(s.managed_interrupt_priority_range(0), 0..256);
    assert_eq!(s.managed_interrupt_priority_range(0x40), 0x40..256);
    assert_eq!(s.managed_interrupt_priority_range(0xff), 0xff..256);
}

#[test]
fn saved_stack_pointer_is_writable() {
    let mut state = TaskState::init();
    *state.saved_sp_mut() = 0x2000_1000;
    assert_eq!(state.sp(), 0x2000_1000);
}
