use vstd::prelude::*;

verus! {

/// A region of the hunk pool: `len` bytes starting at byte offset `start`.
#[derive(Clone, Copy, PartialEq, Eq, Structural, Debug)]
pub struct Hunk {
    pub start: usize,
    pub len: usize,
}

/// A hunk used as a task's stack.
#[derive(Clone, Copy, PartialEq, Eq, Structural, Debug)]
pub struct StackHunk {
    pub hunk: Hunk,
}

impl StackHunk {
    /// Use `hunk` as a stack.
    pub fn from_hunk(hunk: Hunk) -> (s: StackHunk)
        ensures
            s.hunk == hunk,
    {
        StackHunk { hunk }
    }
}

/// How a task's stack is obtained.
#[derive(Clone, Copy, PartialEq, Eq, Structural, Debug)]
pub enum TaskStack {
    /// A fresh hunk of the given size is allocated for the stack.
    Auto(usize),
    /// The given hunk is used as the stack.
    Hunk(StackHunk),
}

/// The state of a task.
#[derive(Clone, Copy, PartialEq, Eq, Structural, Debug)]
pub enum TaskSt {
    /// The task is not active.
    Dormant,
    /// The task is ready to run.
    Ready,
    /// The task is running.
    Running,
    /// The task is waiting for an event.
    Waiting,
    /// The task is in the Dormant state but will be activated at boot time.
    PendingActivation,
}

/// The static properties of a task.
#[derive(Clone, Copy, PartialEq, Eq, Structural, Debug)]
pub struct TaskAttr {
    /// The address of the task's entry point.
    pub entry_point: usize,
    /// The parameter supplied to the entry point.
    pub entry_param: usize,
    /// The task's stack.
    pub stack: StackHunk,
}

/// A task control block in its initial state.
pub struct TaskCb<P> {
    /// The port-specific part of the task state.
    pub port_task_state: P,
    /// The static properties of the task.
    pub attr: TaskAttr,
    /// The task's effective priority, in the port's representation.
    pub priority: usize,
    /// The task state.
    pub st: TaskSt,
    /// The next task in the queue the task is linked into, if any.
    pub link: Option<usize>,
    /// The wait object the task is waiting on; `None` when it is not
    /// waiting.
    pub wait: Option<usize>,
}

/// A task object, identified by its one-based position in the
/// configuration's task list.
#[derive(Clone, Copy, PartialEq, Eq, Structural, Debug)]
pub struct Task {
    id: usize,
}

impl View for Task {
    type V = int;

    closed spec fn view(&self) -> int {
        self.id as int
    }
}

impl Task {
    /// The task with the given identifier.
    pub fn from_id(id: usize) -> (t: Task)
        requires
            id > 0,
        ensures
            t@ == id,
    {
        Task { id }
    }

    /// The identifier of the task (never zero).
    pub fn id(&self) -> (r: usize)
        ensures
            r == self@,
            r > 0,
    {
        proof {
            use_type_invariant(self);
        }
        self.id
    }

    #[verifier::type_invariant]
    spec fn id_is_nonzero(self) -> bool {
        self.id > 0
    }
}

/// The parameters that the port gives to task configuration.
pub struct PortParams {
    /// The stack size used when a task specifies none.
    pub stack_default_size: usize,
    /// The alignment of automatically allocated stacks.
    pub stack_align: usize,
    /// The port's representation of each task priority level; its length is
    /// the number of task priority levels.
    pub task_priority_levels: Vec<usize>,
}

/// Whether `x` is a power of two.
pub open spec fn is_power_of_two(x: int) -> bool
    decreases x,
{
    if x <= 0 {
        false
    } else if x == 1 {
        true
    } else {
        x % 2 == 0 && is_power_of_two(x / 2)
    }
}

/// The smallest multiple of `align` that is not less than `x`.
pub open spec fn align_up(x: int, align: int) -> int {
    x + (align - x % align) % align
}

/// What the configuration has recorded so far, apart from the port
/// parameters.
pub struct CfgBuilderView {
    /// The number of bytes of the hunk pool handed out so far.
    pub hunk_pool_len: int,
    /// The largest alignment requested of the hunk pool so far.
    pub hunk_pool_align: int,
    /// The tasks defined so far, in order.
    pub tasks: Seq<CfgBuilderTask>,
}

/// The state of a configuration in progress.
pub struct CfgBuilder {
    params: PortParams,
    hunk_pool_len: usize,
    hunk_pool_align: usize,
    tasks: Vec<CfgBuilderTask>,
}

impl View for CfgBuilder {
    type V = CfgBuilderView;

    closed spec fn view(&self) -> CfgBuilderView {
        CfgBuilderView {
            hunk_pool_len: self.hunk_pool_len as int,
            hunk_pool_align: self.hunk_pool_align as int,
            tasks: self.tasks@,
        }
    }
}

impl CfgBuilder {
    /// The port parameters of this configuration.
    pub closed spec fn port_params(&self) -> &PortParams {
        &self.params
    }

    /// An empty configuration for a port with the given parameters.
    pub fn new(params: PortParams) -> (cfg: CfgBuilder)
        ensures
            cfg@.hunk_pool_len == 0,
            cfg@.hunk_pool_align == 1,
            cfg@.tasks.len() == 0,
            cfg.port_params() == &params,
    {
        CfgBuilder { params, hunk_pool_len: 0, hunk_pool_align: 1, tasks: Vec::new() }
    }

    /// The port parameters of this configuration.
    pub fn params(&self) -> (r: &PortParams)
        ensures
            r == self.port_params(),
    {
        &self.params
    }

    /// The number of bytes of the hunk pool handed out so far.
    pub fn hunk_pool_len(&self) -> (r: usize)
        ensures
            r == self@.hunk_pool_len,
    {
        self.hunk_pool_len
    }

    /// The largest alignment requested of the hunk pool so far.
    pub fn hunk_pool_align(&self) -> (r: usize)
        ensures
            r == self@.hunk_pool_align,
    {
        self.hunk_pool_align
    }

    /// The number of tasks defined so far.
    pub fn num_tasks(&self) -> (r: usize)
        ensures
            r == self@.tasks.len(),
    {
        self.tasks.len()
    }

    /// The definition of the task with the given identifier.
    pub fn task(&self, task: Task) -> (r: CfgBuilderTask)
        requires
            task@ <= self@.tasks.len(),
        ensures
            r == self@.tasks[task@ - 1],
    {
        let id = task.id();
        self.tasks[id - 1]
    }
}

/// Allocate a zero-initialized hunk of `len` bytes aligned to `align` at
/// the end of the hunk pool.
///
/// `align` must be a power of two.
pub fn cfg_new_hunk_zero_array(cfg: &mut CfgBuilder, len: usize, align: usize) -> (hunk: Hunk)
    requires
        is_power_of_two(align as int),
        align_up(old(cfg)@.hunk_pool_len, align as int) + len <= usize::MAX,
    ensures
        hunk.start == align_up(old(cfg)@.hunk_pool_len, align as int),
        hunk.len == len,
        final(cfg)@.hunk_pool_len == hunk.start + len,
        final(cfg)@.hunk_pool_align == if align > old(cfg)@.hunk_pool_align {
            align as int
        } else {
            old(cfg)@.hunk_pool_align
        },
        final(cfg)@.tasks == old(cfg)@.tasks,
        final(cfg).port_params() == old(cfg).port_params(),
{
    proof {
        lemma_power_of_two_positive(align as int);
    }
    let start0 = cfg.hunk_pool_len;
    let pad = (align - start0 % align) % align;
    let start = start0 + pad;
    cfg.hunk_pool_len = start + len;
    if align > cfg.hunk_pool_align {
        cfg.hunk_pool_align = align;
    }
    Hunk { start, len }
}

/// A power of two is positive.
pub proof fn lemma_power_of_two_positive(x: int)
    requires
        is_power_of_two(x),
    ensures
        x > 0,
{
}

/// The setting of a task definition in progress.
pub struct TaskSettings {
    pub start: Option<usize>,
    pub param: usize,
    pub stack: Option<TaskStack>,
    pub priority: Option<usize>,
    pub active: bool,
}

/// Configuration builder type for `Task`.
pub struct CfgTaskBuilder {
    start: Option<usize>,
    param: usize,
    stack: Option<TaskStack>,
    priority: Option<usize>,
    active: bool,
}

impl View for CfgTaskBuilder {
    type V = TaskSettings;

    closed spec fn view(&self) -> TaskSettings {
        TaskSettings {
            start: self.start,
            param: self.param,
            stack: self.stack,
            priority: self.priority,
            active: self.active,
        }
    }
}

/// A task definition recorded in the configuration.
#[derive(Clone, Copy, PartialEq, Eq, Structural, Debug)]
pub struct CfgBuilderTask {
    /// The address of the entry point.
    pub start: usize,
    pub param: usize,
    pub stack: StackHunk,
    pub priority: usize,
    pub active: bool,
}

/// The stack that `finish` gives a task whose stack setting is `stack`,
/// and the hunk pool length after it: `(stack, pool_len)`.
pub open spec fn stack_outcome(
    stack: Option<TaskStack>,
    default_size: int,
    align: int,
    pool_len: int,
) -> (StackHunk, int) {
    let size = stack_size_of(stack, default_size);
    match stack {
        Some(TaskStack::Hunk(h)) => (h, pool_len),
        _ => {
            let start = align_up(pool_len, align);
            (StackHunk { hunk: Hunk { start: start as usize, len: size as usize } }, start + size)
        },
    }
}

impl CfgTaskBuilder {
    /// A definition with nothing specified: no entry point, parameter zero,
    /// no stack, no priority, not active.
    pub fn new() -> (b: CfgTaskBuilder)
        ensures
            b@.start is None,
            b@.param == 0,
            b@.stack is None,
            b@.priority is None,
            !b@.active,
    {
        CfgTaskBuilder { start: None, param: 0, stack: None, priority: None, active: false }
    }

    /// Specify the entry point (by its address).
    pub fn start(self, start: usize) -> (b: CfgTaskBuilder)
        ensures
            b@.start == Some(start),
            b@.param == self@.param,
            b@.stack == self@.stack,
            b@.priority == self@.priority,
            b@.active == self@.active,
    {
        CfgTaskBuilder { start: Some(start), ..self }
    }

    /// Specify the parameter to the entry point.
    pub fn param(self, param: usize) -> (b: CfgTaskBuilder)
        ensures
            b@.start == self@.start,
            b@.param == param,
            b@.stack == self@.stack,
            b@.priority == self@.priority,
            b@.active == self@.active,
    {
        CfgTaskBuilder { param, ..self }
    }

    /// Specify the task's stack size; a hunk of that size is allocated when
    /// the definition is finished.
    ///
    /// The stack must not have been specified already.
    pub fn stack_size(self, stack_size: usize) -> (b: CfgTaskBuilder)
        requires
            self@.stack is None,
        ensures
            b@.start == self@.start,
            b@.param == self@.param,
            b@.stack == Some(TaskStack::Auto(stack_size)),
            b@.priority == self@.priority,
            b@.active == self@.active,
    {
        CfgTaskBuilder { stack: Some(TaskStack::Auto(stack_size)), ..self }
    }

    /// Specify the hunk used as the task's stack.
    ///
    /// The stack must not have been specified already.
    pub fn stack_hunk(self, stack_hunk: StackHunk) -> (b: CfgTaskBuilder)
        requires
            self@.stack is None,
        ensures
            b@.start == self@.start,
            b@.param == self@.param,
            b@.stack == Some(TaskStack::Hunk(stack_hunk)),
            b@.priority == self@.priority,
            b@.active == self@.active,
    {
        CfgTaskBuilder { stack: Some(TaskStack::Hunk(stack_hunk)), ..self }
    }

    /// Specify the task's initial priority.
    pub fn priority(self, priority: usize) -> (b: CfgTaskBuilder)
        ensures
            b@.start == self@.start,
            b@.param == self@.param,
            b@.stack == self@.stack,
            b@.priority == Some(priority),
            b@.active == self@.active,
    {
        CfgTaskBuilder { priority: Some(priority), ..self }
    }

    /// Specify whether the task is activated at boot time.
    pub fn active(self, active: bool) -> (b: CfgTaskBuilder)
        ensures
            b@.start == self@.start,
            b@.param == self@.param,
            b@.stack == self@.stack,
            b@.priority == self@.priority,
            b@.active == active,
    {
        CfgTaskBuilder { active, ..self }
    }

    /// Complete the definition and record the task in `cfg`.
    ///
    /// When no stack hunk was given, a hunk of the specified size (the
    /// port's default size if none was specified) is allocated for the
    /// stack, aligned to the port's stack alignment. The entry point and
    /// the priority must have been specified. Returns the new task, whose
    /// identifier is the number of tasks defined so far.
    pub fn finish(self, cfg: &mut CfgBuilder) -> (task: Task)
        requires
            self@.start is Some,
            self@.priority is Some,
            old(cfg)@.tasks.len() < usize::MAX,
            allocates_stack(self@.stack) ==> is_power_of_two(
                old(cfg).port_params().stack_align as int,
            ),
            allocates_stack(self@.stack) ==> align_up(
                old(cfg)@.hunk_pool_len,
                old(cfg).port_params().stack_align as int,
            ) + stack_size_of(self@.stack, old(cfg).port_params().stack_default_size as int)
                <= usize::MAX,
        ensures
            finish_records(self@, *old(cfg), *final(cfg), task),
    {
        let stack = match self.stack {
            Some(stack) => stack,
            None => TaskStack::Auto(cfg.params.stack_default_size),
        };
        let stack = match stack {
            TaskStack::Auto(size) => {
                let align = cfg.params.stack_align;
                let hunk = cfg_new_hunk_zero_array(cfg, size, align);
                StackHunk::from_hunk(hunk)
            },
            TaskStack::Hunk(hunk) => hunk,
        };
        let start = match self.start {
            Some(x) => x,
            None => vstd::pervasive::unreached(),
        };
        let priority = match self.priority {
            Some(x) => x,
            None => vstd::pervasive::unreached(),
        };
        cfg.tasks.push(CfgBuilderTask { start, param: self.param, stack, priority, active: self.active });
        Task::from_id(cfg.tasks.len())
    }
}

/// Whether `finish` allocates a fresh hunk for a stack set as `stack`.
pub open spec fn allocates_stack(stack: Option<TaskStack>) -> bool {
    !(stack matches Some(TaskStack::Hunk(_)))
}

/// The size of the stack that `finish` allocates for a stack set as
/// `stack`.
pub open spec fn stack_size_of(stack: Option<TaskStack>, default_size: int) -> int {
    match stack {
        Some(TaskStack::Auto(s)) => s as int,
        _ => default_size,
    }
}

/// `after` is the configuration `before` in which the task defined by `b`
/// has been recorded as `task`: the identifier is the new number of tasks,
/// the record is appended to the task list, and when the definition gives
/// no stack hunk, a fresh hunk for the stack is cut from the end of the
/// hunk pool at the port's stack alignment.
pub open spec fn finish_records(b: TaskSettings, before: CfgBuilder, after: CfgBuilder, task: Task) -> bool {
    let params = before.port_params();
    let outcome = stack_outcome(
        b.stack,
        params.stack_default_size as int,
        params.stack_align as int,
        before@.hunk_pool_len,
    );
    &&& task@ == before@.tasks.len() + 1
    &&& after@.tasks == before@.tasks.push(finished_task(b, outcome.0))
    &&& after@.hunk_pool_len == outcome.1
    &&& after@.hunk_pool_align == if allocates_stack(b.stack) && params.stack_align
        > before@.hunk_pool_align {
        params.stack_align as int
    } else {
        before@.hunk_pool_align
    }
    &&& after.port_params() == params
}

/// The record that `finish` stores for the task defined by `b` with the
/// stack `stack`.
pub open spec fn finished_task(b: TaskSettings, stack: StackHunk) -> CfgBuilderTask {
    CfgBuilderTask {
        start: b.start.unwrap(),
        param: b.param,
        stack,
        priority: b.priority.unwrap(),
        active: b.active,
    }
}

impl CfgBuilderTask {
    /// The initial control block of the task, with the static properties
    /// `attr` and the port's initial task state `port_task_state_init`.
    ///
    /// The task's priority must be less than the number of task priority
    /// levels of the port; the control block holds the port's
    /// representation of that level. The task starts in the
    /// `PendingActivation` state if it is active, else `Dormant`.
    pub fn to_state<P>(&self, params: &PortParams, attr: TaskAttr, port_task_state_init: P) -> (cb: TaskCb<P>)
        requires
            self.priority < params.task_priority_levels@.len(),
        ensures
            cb.port_task_state == port_task_state_init,
            cb.attr == attr,
            cb.priority == params.task_priority_levels@[self.priority as int],
            cb.st == (if self.active {
                TaskSt::PendingActivation
            } else {
                TaskSt::Dormant
            }),
            cb.link is None,
            cb.wait is None,
    {
        let priority = params.task_priority_levels[self.priority];
        let st = if self.active {
            TaskSt::PendingActivation
        } else {
            TaskSt::Dormant
        };
        TaskCb { port_task_state: port_task_state_init, attr, priority, st, link: None, wait: None }
    }

    /// The static properties of the task.
    pub fn to_attr(&self) -> (attr: TaskAttr)
        ensures
            attr == task_attr_of(*self),
    {
        TaskAttr { entry_point: self.start, entry_param: self.param, stack: self.stack }
    }
}

/// `align_up(x, align)` is the first multiple of `align` at or after `x`.
pub proof fn lemma_align_up(x: int, align: int)
    requires
        x >= 0,
        align > 0,
    ensures
        x <= align_up(x, align) < x + align,
        align_up(x, align) % align == 0,
{
    let r = x % align;
    vstd::arithmetic::div_mod::lemma_fundamental_div_mod(x, align);
    if r == 0 {
        vstd::arithmetic::div_mod::lemma_mod_self_0(align);
    } else {
        vstd::arithmetic::div_mod::lemma_small_mod((align - r) as nat, align as nat);
        assert(align_up(x, align) == align * (x / align) + align);
        assert(align * (x / align) + align == align * (x / align + 1)) by (nonlinear_arith);
        vstd::arithmetic::div_mod::lemma_mod_multiples_basic(x / align + 1, align);
    }
}

/// A stack that `finish` allocates starts at a multiple of the port's
/// stack alignment, after everything the hunk pool had handed out before,
/// and no more than one alignment unit later; the pool then ends right
/// after the stack.
pub proof fn lemma_finish_allocates_fresh_stack(
    b: TaskSettings,
    before: CfgBuilder,
    after: CfgBuilder,
    task: Task,
)
    requires
        finish_records(b, before, after, task),
        allocates_stack(b.stack),
        is_power_of_two(before.port_params().stack_align as int),
    ensures
        ({
            let hunk = after@.tasks[task@ - 1].stack.hunk;
            let align = before.port_params().stack_align as int;
            &&& (hunk.start as int) % align == 0
            &&& before@.hunk_pool_len <= hunk.start < before@.hunk_pool_len + align
            &&& hunk.len == stack_size_of(b.stack, before.port_params().stack_default_size as int)
            &&& after@.hunk_pool_len == hunk.start + hunk.len
        }),
{
    let align = before.port_params().stack_align as int;
    lemma_power_of_two_positive(align);
    lemma_align_up(before@.hunk_pool_len, align);
    assert(after@.tasks[task@ - 1] == after@.tasks.last());
}

/// Finishing two task definitions one after the other gives the tasks
/// consecutive, distinct identifiers, leaves the first task's record as it
/// was, and, when both stacks are allocated, places the second stack after
/// the first, so that they do not overlap.
pub proof fn lemma_finish_twice(
    b1: TaskSettings,
    b2: TaskSettings,
    c0: CfgBuilder,
    c1: CfgBuilder,
    c2: CfgBuilder,
    t1: Task,
    t2: Task,
)
    requires
        finish_records(b1, c0, c1, t1),
        finish_records(b2, c1, c2, t2),
    ensures
        t2@ == t1@ + 1,
        c2@.tasks[t1@ - 1] == c1@.tasks[t1@ - 1],
        allocates_stack(b1.stack) && allocates_stack(b2.stack) && is_power_of_two(
            c0.port_params().stack_align as int,
        ) ==> c2@.tasks[t1@ - 1].stack.hunk.start + c2@.tasks[t1@ - 1].stack.hunk.len
            <= c2@.tasks[t2@ - 1].stack.hunk.start,
{
    if allocates_stack(b1.stack) && allocates_stack(b2.stack) && is_power_of_two(
        c0.port_params().stack_align as int,
    ) {
        lemma_finish_allocates_fresh_stack(b1, c0, c1, t1);
        lemma_finish_allocates_fresh_stack(b2, c1, c2, t2);
    }
}

/// The static properties of the task recorded as `t`: its entry point,
/// parameter and stack.
pub open spec fn task_attr_of(t: CfgBuilderTask) -> TaskAttr {
    TaskAttr { entry_point: t.start, entry_param: t.param, stack: t.stack }
}

/// What a task definition specifies reaches the finished task: its entry
/// point and parameter become the attributes of the task, and its priority
/// and activation are recorded.
pub proof fn lemma_finish_keeps_settings(
    b: TaskSettings,
    before: CfgBuilder,
    after: CfgBuilder,
    task: Task,
)
    requires
        finish_records(b, before, after, task),
    ensures
        b.start is Some ==> b.start == Some(task_attr_of(after@.tasks[task@ - 1]).entry_point),
        task_attr_of(after@.tasks[task@ - 1]).entry_param == b.param,
        b.priority is Some ==> b.priority == Some(after@.tasks[task@ - 1].priority),
        after@.tasks[task@ - 1].active == b.active,
{
    assert(after@.tasks[task@ - 1] == after@.tasks.last());
}

/// Tasks are equal exactly when their identifiers are.
pub proof fn lemma_task_view_injective(a: Task, b: Task)
    requires
        a@ == b@,
    ensures
        a == b,
{
}

/// A definition that supplies its own stack hunk `h` gets exactly `h` as
/// its stack, and the hunk pool is left as it was, whatever it held before.
pub proof fn lemma_finish_uses_given_stack_hunk(
    b: TaskSettings,
    before: CfgBuilder,
    after: CfgBuilder,
    task: Task,
    h: StackHunk,
)
    requires
        finish_records(b, before, after, task),
        b.stack == Some(TaskStack::Hunk(h)),
    ensures
        after@.tasks[task@ - 1].stack == h,
        after@.hunk_pool_len == before@.hunk_pool_len,
        after@.hunk_pool_align == before@.hunk_pool_align,
{
    assert(after@.tasks[task@ - 1] == after@.tasks.last());
}

/// Finishing a task never lowers the alignment of the hunk pool: afterwards
/// it is the larger of the previous alignment and, when a stack is
/// allocated, the port's stack alignment.
pub proof fn lemma_finish_pool_alignment(
    b: TaskSettings,
    before: CfgBuilder,
    after: CfgBuilder,
    task: Task,
)
    requires
        finish_records(b, before, after, task),
    ensures
        after@.hunk_pool_align >= before@.hunk_pool_align,
        allocates_stack(b.stack) ==> after@.hunk_pool_align >= before.port_params().stack_align,
        after@.hunk_pool_align == before@.hunk_pool_align || (allocates_stack(b.stack)
            && after@.hunk_pool_align == before.port_params().stack_align),
        !allocates_stack(b.stack) ==> after@.hunk_pool_align == before@.hunk_pool_align,
{
}

/// The attributes of a recorded task carry exactly its entry point,
/// parameter and stack.
pub proof fn lemma_task_attr_fields(t: CfgBuilderTask)
    ensures
        task_attr_of(t).entry_point == t.start,
        task_attr_of(t).entry_param == t.param,
        task_attr_of(t).stack == t.stack,
{
}

} // verus!
