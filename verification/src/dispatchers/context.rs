use vstd::prelude::*;
use std::sync::Arc;
use std::sync::atomic::{AtomicBool, AtomicU64};

verus! {

/// What a system gets to steer the engine: it can ask the engine to quit,
/// and mark itself to be destroyed. The quit flag and the frame rate are
/// shared with the engine and with every clone of the context.
pub struct Context {
    quit: Arc<AtomicBool>,
    fps: Arc<AtomicU64>,
    destroy: AtomicBool,
}

/// `Arc::clone`: another handle to the same shared value.
#[verifier::external_body]
fn arc_clone<T>(a: &Arc<T>) -> (r: Arc<T>)
    ensures
        r == *a,
{
    Arc::clone(a)
}

impl Clone for Context {
    /// A context that shares the quit flag and the frame rate, and is not
    /// marked to be destroyed.
    fn clone(&self) -> (r: Self)
        ensures
            r.quit_flag() == self.quit_flag(),
            r.fps_rate() == self.fps_rate(),
    {
        Context { quit: arc_clone(&self.quit), fps: arc_clone(&self.fps), destroy: AtomicBool::new(false) }
    }
}

impl Context {
    /// A context over the engine's quit flag and frame rate, not marked to be destroyed.
    pub fn new(quit: Arc<AtomicBool>, fps: Arc<AtomicU64>) -> (r: Self)
        ensures
            r.quit_flag() == quit,
            r.fps_rate() == fps,
    {
        Context { quit, fps, destroy: AtomicBool::new(false) }
    }

    /// The quit flag shared with the engine.
    pub closed spec fn quit_flag(&self) -> Arc<AtomicBool> {
        self.quit
    }

    /// The frame rate shared with the engine.
    pub closed spec fn fps_rate(&self) -> Arc<AtomicU64> {
        self.fps
    }

    /// Asks the engine to quit. The flag is shared between threads, so no
    /// later read of it is promised here.
    pub fn quit(&self) {
        self.quit.store(true, std::sync::atomic::Ordering::Relaxed);
    }

    /// Marks this context's system to be destroyed.
    pub fn destroy(&self) {
        self.destroy.store(true, std::sync::atomic::Ordering::Release);
    }

    /// Whether this context's system was marked to be destroyed. The mark may
    /// be set from another thread, so the result is not tied to earlier calls.
    pub fn is_destroyed(&self) -> bool {
        self.destroy.load(std::sync::atomic::Ordering::Acquire)
    }
}

} // verus!
