use constance::port_arm_m::TaskState;
use constance::task_cfg::{
    cfg_new_hunk_zero_array, CfgBuilder, CfgTaskBuilder, Hunk, PortParams, StackHunk, Task,
    TaskSt,
};

fn params() -> PortParams {
    PortParams {
        stack_default_size: 1024,
        stack_align: 8,
        task_priority_levels: vec![0, 1, 2, 3],
    }
}

#[test]
fn finish_allocates_the_default_stack() {
    let mut cfg = CfgBuilder::new(params());
    let task = CfgTaskBuilder::new().start(0x0800_1235).priority(2).finish(&mut cfg);
    assert_eq!(task.id(), 1);
    assert_eq!(cfg.num_tasks(), 1);
    let t = cfg.task(task);
    assert_eq!(t.start, 0x0800_1235);
    assert_eq!(t.param, 0);
    assert_eq!(t.priority, 2);
    assert!(!t.active);
    assert_eq!(t.stack, StackHunk::from_hunk(Hunk { start: 0, len: 1024 }));
    assert_eq!(cfg.hunk_pool_len(), 1024);
    assert_eq!(cfg.hunk_pool_align(), 8);
}

#[test]
fn finish_aligns_a_sized_stack() {
    let mut cfg = CfgBuilder::new(params());
    let odd = cfg_new_hunk_zero_array(&mut cfg, 3, 1);
    assert_eq!(odd, Hunk { start: 0, len: 3 });
    let task = CfgTaskBuilder::new()
        .start(0x100)
        .param(7)
        .stack_size(256)
        .priority(0)
        .active(true)
        .finish(&mut cfg);
    let t = cfg.task(task);
    assert_eq!(t.stack.hunk, Hunk { start: 8, len: 256 });
    assert_eq!(t.param, 7);
    assert!(t.active);
    assert_eq!(cfg.hunk_pool_len(), 264);
}

#[test]
fn finish_keeps_a_given_stack_hunk() {
    let mut cfg = CfgBuilder::new(params());
    let hunk = StackHunk::from_hunk(Hunk { start: 4096, len: 512 });
    let task = CfgTaskBuilder::new().start(0x200).stack_hunk(hunk).priority(1).finish(&mut cfg);
    assert_eq!(cfg.task(task).stack, hunk);
    assert_eq!(cfg.hunk_pool_len(), 0);
    assert_eq!(cfg.hunk_pool_align(), 1);
}

#[test]
fn consecutive_tasks_get_consecutive_ids_and_disjoint_stacks() {
    let mut cfg = CfgBuilder::new(params());
    let t1 = CfgTaskBuilder::new().start(0x10).priority(2).active(true).stack_size(100).finish(&mut cfg);
    let rec1 = cfg.task(t1);
    let t2 = CfgTaskBuilder::new().start(0x20).priority(3).finish(&mut cfg);
    assert_eq!(t1.id(), 1);
    assert_eq!(t2.id(), 2);
    assert_eq!(cfg.task(t1), rec1);
    let h1 = cfg.task(t1).stack.hunk;
    let h2 = cfg.task(t2).stack.hunk;
    assert_eq!(h1, Hunk { start: 0, len: 100 });
    assert_eq!(h2, Hunk { start: 104, len: 1024 });
    assert!(h1.start + h1.len <= h2.start);
    assert_eq!(h2.start % 8, 0);
}

#[test]
fn hunk_pool_alignment_is_the_largest_requested() {
    let mut cfg = CfgBuilder::new(params());
    let a = cfg_new_hunk_zero_array(&mut cfg, 1, 16);
    let b = cfg_new_hunk_zero_array(&mut cfg, 1, 4);
    assert_eq!(a, Hunk { start: 0, len: 1 });
    assert_eq!(b, Hunk { start: 4, len: 1 });
    assert_eq!(cfg.hunk_pool_len(), 5);
    assert_eq!(cfg.hunk_pool_align(), 16);
}

#[test]
fn to_attr_copies_the_definition() {
    let mut cfg = CfgBuilder::new(params());
    let task = CfgTaskBuilder::new().start(0x300).param(9).priority(1).finish(&mut cfg);
    let rec = cfg.task(task);
    let attr = rec.to_attr();
    assert_eq!(attr.entry_point, 0x300);
    assert_eq!(attr.entry_param, 9);
    assert_eq!(attr.stack, rec.stack);
}

#[test]
fn to_state_maps_priority_and_activation() {
    let p = PortParams {
        stack_default_size: 64,
        stack_align: 4,
        task_priority_levels: vec![10, 20, 30, 40],
    };
    let mut cfg = CfgBuilder::new(p);
    let t1 = CfgTaskBuilder::new().start(1).priority(2).active(true).finish(&mut cfg);
    let t2 = CfgTaskBuilder::new().start(2).priority(3).finish(&mut cfg);
    let r1 = cfg.task(t1);
    let r2 = cfg.task(t2);
    let cb1 = r1.to_state(cfg.params(), r1.to_attr(), TaskState::init());
    let cb2 = r2.to_state(cfg.params(), r2.to_attr(), TaskState::init());
    assert_eq!(cb1.priority, 30);
    assert_eq!(cb1.st, TaskSt::PendingActivation);
    assert_eq!(cb2.priority, 40);
    assert_eq!(cb2.st, TaskSt::Dormant);
    assert_eq!(cb1.link, None);
    assert_eq!(cb1.wait, None);
    assert_eq!(cb1.attr, r1.to_attr());
    assert_eq!(cb1.port_task_state.sp(), 0);
}

#[test]
fn task_ids_are_positive() {
    assert_eq!(Task::from_id(5).id(), 5);
}

#[test]
fn builder_settings_reach_the_task_attributes() {
    let mut cfg = CfgBuilder::new(params());
    let task = CfgTaskBuilder::new().start(0xabc).param(7).priority(0).finish(&mut cfg);
    let attr = cfg.task(task).to_attr();
    assert_eq!(attr.entry_point, 0xabc);
    assert_eq!(attr.entry_param, 7);
}
