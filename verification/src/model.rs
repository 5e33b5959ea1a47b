//! The entity record and its value objects.

use vstd::prelude::*;

verus! {

/// Progress of a task: a closed enumeration.
#[derive(Debug, Clone, Copy, PartialEq, Eq, Structural)]
pub enum TaskStatus {
    Pending,
    InProgress,
    Done,
}

/// A point on the globe.
///
/// Each coordinate is held as the IEEE-754 binary64 bit pattern of its value
/// in degrees, so that the library carries it through without rounding.
#[derive(Debug, Clone, Copy, PartialEq, Eq, Structural)]
pub struct Location {
    pub lat: u64,
    pub lon: u64,
}

/// An instant in UTC: whole seconds since the Unix epoch and the nanoseconds
/// within that second.
#[derive(Debug, Clone, Copy, PartialEq, Eq, Structural)]
pub struct Timestamp {
    pub secs: i64,
    pub nanos: u32,
}

/// A unit of work that belongs to one entity. The identifier is the 128-bit
/// value of a UUID.
#[derive(Debug, Clone, PartialEq, Eq)]
pub struct Task {
    pub id: u128,
    pub name: String,
    pub status: TaskStatus,
}

/// What a [`Task`] is, mathematically.
pub struct TaskView {
    pub id: u128,
    pub name: Seq<char>,
    pub status: TaskStatus,
}

impl View for Task {
    type V = TaskView;

    open spec fn view(&self) -> TaskView {
        TaskView { id: self.id, name: self.name@, status: self.status }
    }
}

/// A moving agent: identity, label, position, ordered tasks and the time of
/// its last change. The identifier is the 128-bit value of a UUID.
#[derive(Debug, Clone, PartialEq, Eq)]
pub struct Entity {
    pub id: u128,
    pub name: String,
    pub position: Location,
    pub tasks: Vec<Task>,
    pub updated_at: Timestamp,
}

/// What an [`Entity`] is, mathematically.
pub struct EntityView {
    pub id: u128,
    pub name: Seq<char>,
    pub position: Location,
    pub tasks: Seq<TaskView>,
    pub updated_at: Timestamp,
}

/// The views of a sequence of tasks, in order.
pub open spec fn task_views(tasks: Seq<Task>) -> Seq<TaskView> {
    Seq::new(tasks.len(), |i: int| tasks[i]@)
}

/// The views of a sequence of entities, in order.
pub open spec fn entity_views(entities: Seq<Entity>) -> Seq<EntityView> {
    Seq::new(entities.len(), |i: int| entities[i]@)
}

impl View for Entity {
    type V = EntityView;

    open spec fn view(&self) -> EntityView {
        EntityView {
            id: self.id,
            name: self.name@,
            position: self.position,
            tasks: task_views(self.tasks@),
            updated_at: self.updated_at,
        }
    }
}

} // verus!
