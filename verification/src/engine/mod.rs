use vstd::prelude::*;

pub mod commands;
pub mod component;
pub mod components;
pub mod data_state;
pub mod entity;
pub mod events;
pub mod plugins;
pub mod resources;
pub mod runtime;
pub mod scene;
pub mod scenes;
pub mod system_registries;

verus! {

/// What an engine is made with: the scheduler that runs its systems, and the
/// number of frames per second it aims at.
pub struct EngineArgs<S> {
    pub scheduler: S,
    pub fps: u64,
}

/// The events of the engine's event loop, as far as the loop tells them apart.
#[derive(Debug, Clone, Copy, PartialEq, Eq, Structural)]
pub enum LoopEvent {
    /// Every event of this round was handed out: a frame is due.
    MainEventsCleared,
    /// Any other event.
    Other,
}

/// What the engine does with an event of its loop.
#[derive(Debug, Clone, Copy, PartialEq, Eq, Structural)]
pub enum LoopAction {
    /// Update the scene, then take in the events queued for it.
    Update,
    /// Queue the event for the scene's next update.
    Queue,
}

/// Whether the event loop goes on after an update.
#[derive(Debug, Clone, Copy, PartialEq, Eq, Structural)]
pub enum LoopControl {
    Continue,
    Exit,
}

/// What the engine does with `event`: a frame runs when the round's events
/// are all handed out; any other event waits for it in the queue.
pub fn loop_step(event: LoopEvent) -> (a: LoopAction)
    ensures
        a == match event {
            LoopEvent::MainEventsCleared => LoopAction::Update,
            LoopEvent::Other => LoopAction::Queue,
        },
{
    match event {
        LoopEvent::MainEventsCleared => LoopAction::Update,
        LoopEvent::Other => LoopAction::Queue,
    }
}

/// Whether the loop goes on after an update, given the quit flag as it
/// stands once the update is done: it ends exactly when quitting was asked.
pub fn control_after_update(quit: bool) -> (c: LoopControl)
    ensures
        c == if quit { LoopControl::Exit } else { LoopControl::Continue },
{
    if quit {
        LoopControl::Exit
    } else {
        LoopControl::Continue
    }
}

} // verus!
