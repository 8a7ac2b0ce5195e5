//! The desktop drag-and-drop lifecycle: which lifecycle event each gesture of the
//! desktop shell reports to the shared ORES drag-and-drop state machine, and
//! what a report answers once the lifecycle guard has ruled on it.
//!
//! The controller performs no persistence or telemetry of its own; consumers
//! commit accepted drops through the application ports after admission.
use vstd::prelude::*;

verus! {

/// The phases of a drag-and-drop lifecycle.
#[derive(Clone, Copy, Debug, PartialEq, Eq, Hash, Structural)]
pub enum DndLifecyclePhase {
    DragStart,
    DragEnter,
    DragOver,
    Drop,
    DragEnd,
}

/// What a drop does with the dragged data.
#[derive(Clone, Copy, Debug, PartialEq, Eq, Hash, Structural)]
pub enum DndOperation {
    Copy,
    Move,
    Link,
}

/// One lifecycle event of the desktop controller, without its envelope: the
/// phase, the operation chosen (if any) and the target it concerns (if any).
#[derive(Debug)]
pub struct DndLifecycleEvent {
    pub phase: DndLifecyclePhase,
    pub operation: Option<DndOperation>,
    pub target_id: Option<String>,
}

/// The view of an optional string.
pub open spec fn opt_text(s: Option<String>) -> Option<Seq<char>> {
    match s {
        Some(t) => Some(t@),
        None => None,
    }
}

impl DndLifecycleEvent {
    /// A drag starts on the desktop: no operation and no target yet.
    pub fn start() -> (e: DndLifecycleEvent)
        ensures
            e.phase == DndLifecyclePhase::DragStart,
            e.operation is None,
            e.target_id is None,
    {
        DndLifecycleEvent { phase: DndLifecyclePhase::DragStart, operation: None, target_id: None }
    }

    /// An external drag enters `target_id`.
    pub fn enter_external(target_id: String) -> (e: DndLifecycleEvent)
        ensures
            e.phase == DndLifecyclePhase::DragEnter,
            e.operation is None,
            opt_text(e.target_id) == Some(target_id@),
    {
        DndLifecycleEvent {
            phase: DndLifecyclePhase::DragEnter,
            operation: None,
            target_id: Some(target_id),
        }
    }

    /// The drag hovers over `target_id`.
    pub fn hover(target_id: String) -> (e: DndLifecycleEvent)
        ensures
            e.phase == DndLifecyclePhase::DragOver,
            e.operation is None,
            opt_text(e.target_id) == Some(target_id@),
    {
        DndLifecycleEvent {
            phase: DndLifecyclePhase::DragOver,
            operation: None,
            target_id: Some(target_id),
        }
    }

    /// The drag is dropped on `target_id` with `operation`.
    pub fn drop_on(operation: DndOperation, target_id: String) -> (e: DndLifecycleEvent)
        ensures
            e.phase == DndLifecyclePhase::Drop,
            e.operation == Some(operation),
            opt_text(e.target_id) == Some(target_id@),
    {
        DndLifecycleEvent {
            phase: DndLifecyclePhase::Drop,
            operation: Some(operation),
            target_id: Some(target_id),
        }
    }

    /// The drag ends, with the operation and target it ended with, if any.
    pub fn end(operation: Option<DndOperation>, target_id: Option<String>) -> (e: DndLifecycleEvent)
        ensures
            e.phase == DndLifecyclePhase::DragEnd,
            e.operation == operation,
            opt_text(e.target_id) == opt_text(target_id),
    {
        DndLifecycleEvent { phase: DndLifecyclePhase::DragEnd, operation, target_id }
    }
}

/// What an emitted event answers: the reactive state computed for the event
/// when the lifecycle guard admits it, else the guard's refusal.
pub fn emit_outcome<S, A, E>(state: S, admission: Result<A, E>) -> (r: Result<S, E>)
    ensures
        match admission {
            Ok(_) => r == Ok::<S, E>(state),
            Err(e) => r == Err::<S, E>(e),
        },
{
    match admission {
        Ok(_) => Ok(state),
        Err(e) => Err(e),
    }
}

} // verus!
