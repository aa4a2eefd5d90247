//! The orchestrator's decisions: queue sizing and the failure policy.
//! Spawning, joining and cancellation plumbing belong to the embedding
//! program, which consults these rules.
use vstd::prelude::*;

verus! {

/// The bounded capacity both pipeline queues are created with: the
/// configured channel size, floored at one.
pub fn effective_capacity(channel_size: usize) -> (r: usize)
    ensures
        r == (if channel_size >= 1 {
            channel_size as int
        } else {
            1
        }),
        r >= 1,
{
    if channel_size >= 1 {
        channel_size
    } else {
        1
    }
}

/// The tasks the orchestrator supervises.
#[derive(Clone, Copy, Debug, PartialEq, Eq, Structural)]
pub enum TaskKind {
    /// One input adapter.
    Input,
    /// The normalization stage.
    Normalize,
    /// The output sink.
    Output,
    /// The periodic health logger.
    Health,
}

/// The failure policy: a broken source or stage is logged and isolated;
/// only a broken output sink is fatal to the whole run.
pub fn failure_is_fatal(kind: TaskKind) -> (r: bool)
    ensures
        r <==> kind == TaskKind::Output,
{
    match kind {
        TaskKind::Output => true,
        _ => false,
    }
}

} // verus!
