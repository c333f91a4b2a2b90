//! Dynamic assertions about what sort of task is running and what state it
//! is in. A task's state lives in a slot the task owns; exactly one of the
//! task-type flags must be set once the slot is initialized.

use vstd::prelude::*;

verus! {

/// The task is a script task.
pub const SCRIPT: u32 = 0x01;

/// The task is a layout task.
pub const LAYOUT: u32 = 0x02;

/// The task is a render (paint) task.
pub const RENDER: u32 = 0x04;

/// The task is running inside a web worker.
pub const IN_WORKER: u32 = 0x0100;

/// The task is performing garbage collection.
pub const IN_GC: u32 = 0x0200;

/// The task is running the HTML parser.
pub const IN_HTML_PARSER: u32 = 0x0400;

/// A set of task-state flags.
#[derive(Clone, Copy, PartialEq, Eq, Structural, Debug)]
pub struct TaskState(pub u32);

/// Exactly one of the three task-type flags is set.
pub open spec fn exactly_one_task_type(bits: u32) -> bool {
    ||| bits & (SCRIPT | LAYOUT | RENDER) == SCRIPT
    ||| bits & (SCRIPT | LAYOUT | RENDER) == LAYOUT
    ||| bits & (SCRIPT | LAYOUT | RENDER) == RENDER
}

impl TaskState {
    /// The empty flag set.
    pub fn empty() -> (r: TaskState)
        ensures
            r.0 == 0,
    {
        TaskState(0)
    }

    /// Whether every flag of `other` is set in `self`.
    pub fn contains(self, other: TaskState) -> (r: bool)
        ensures
            r == (self.0 & other.0 == other.0),
    {
        self.0 & other.0 == other.0
    }

    /// Whether `self` and `other` share any flag.
    pub fn intersects(self, other: TaskState) -> (r: bool)
        ensures
            r == (self.0 & other.0 != 0),
    {
        self.0 & other.0 != 0
    }

    pub fn is_script(self) -> (r: bool)
        ensures
            r == (self.0 & SCRIPT == SCRIPT),
    {
        self.contains(TaskState(SCRIPT))
    }

    pub fn is_layout(self) -> (r: bool)
        ensures
            r == (self.0 & LAYOUT == LAYOUT),
    {
        self.contains(TaskState(LAYOUT))
    }

    pub fn is_render(self) -> (r: bool)
        ensures
            r == (self.0 & RENDER == RENDER),
    {
        self.contains(TaskState(RENDER))
    }
}

/// The task-local slot holding a task's state, owned by the task it
/// describes; empty until `initialize` runs.
#[derive(Clone, Copy, PartialEq, Eq, Structural, Debug)]
pub struct TaskStateSlot {
    pub state: Option<TaskState>,
}

impl TaskStateSlot {
    /// A slot for a task whose state is not yet initialized.
    pub fn empty() -> (r: TaskStateSlot)
        ensures
            r.state is None,
    {
        TaskStateSlot { state: None }
    }
}

/// Initializes the task's state; the slot must not already hold one, and
/// the initial state must carry exactly one task-type flag.
pub fn initialize(slot: &mut TaskStateSlot, x: TaskState)
    requires
        old(slot).state is None,
        exactly_one_task_type(x.0),
    ensures
        final(slot).state == Some(x),
{
    slot.state = Some(x);
}

/// Reads the task's state; the slot must be initialized and carry exactly
/// one task-type flag.
pub fn get(slot: &TaskStateSlot) -> (r: TaskState)
    requires
        slot.state is Some,
        exactly_one_task_type(slot.state.unwrap().0),
    ensures
        r == slot.state.unwrap(),
{
    match slot.state {
        Some(state) => state,
        None => TaskState(0),
    }
}

/// Enters a nested state: the flags of `x` must not already be set.
pub fn enter(slot: &mut TaskStateSlot, x: TaskState)
    requires
        old(slot).state is Some,
        exactly_one_task_type(old(slot).state.unwrap().0),
        old(slot).state.unwrap().0 & x.0 == 0,
    ensures
        final(slot).state == Some(TaskState(old(slot).state.unwrap().0 | x.0)),
{
    let state = get(slot);
    slot.state = Some(TaskState(state.0 | x.0));
}

/// Exits a nested state: the flags of `x` must all be set.
pub fn exit(slot: &mut TaskStateSlot, x: TaskState)
    requires
        old(slot).state is Some,
        exactly_one_task_type(old(slot).state.unwrap().0),
        old(slot).state.unwrap().0 & x.0 == x.0,
    ensures
        final(slot).state == Some(TaskState(old(slot).state.unwrap().0 & !x.0)),
{
    let state = get(slot);
    slot.state = Some(TaskState(state.0 & !x.0));
}

} // verus!
