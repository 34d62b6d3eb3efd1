use vstd::prelude::*;

use crate::engine::data_state::{DataState, DataStateAccessError, WriteDataState};
use crate::engine::events::{events_handled, events_reset, Events};
use crate::engine::events::event_registry::WindowEvent;

verus! {

/// What a system that may cross threads gets at startup.
pub struct SendEngineStartupArgs;

/// What a system that may cross threads gets at each frame.
pub struct SendEngineArgs;

/// What a system that stays on the main thread gets at each frame.
pub struct NonSendEngineArgs;

/// Records a window event in the scene's input state, which no system may
/// hold then, and says whether a frame of the scene is to run now (the window
/// is to be drawn again).
pub fn scene_window_event<E>(events: &mut DataState<Events<E>>, event: &WindowEvent) -> (run: bool)
    requires
        old(events).free(),
    ensures
        run == (*event == WindowEvent::RedrawRequested),
        final(events).free(),
        final(events).tag() == old(events).tag(),
        events_handled(old(events).value(), final(events).value(), *event),
{
    match events.get_mut() {
        Ok(ev) => ev.handle_window_event(event),
        Err(_) => {},
    }
    match event {
        WindowEvent::RedrawRequested => true,
        _ => false,
    }
}

/// Takes the write tokens of the scene's components, input state and
/// resources for one frame: all three when all three are free, otherwise none
/// and nothing changes.
pub fn begin_frame<C, E, R>(
    c: &mut DataState<C>,
    e: &mut DataState<Events<E>>,
    r: &mut DataState<R>,
) -> (t: Result<(WriteDataState<C>, WriteDataState<Events<E>>, WriteDataState<R>), DataStateAccessError>)
    ensures
        (old(c).free() && old(e).free() && old(r).free()) ==> {
            &&& t is Ok
            &&& t->Ok_0.0.owner() == old(c).tag()
            &&& t->Ok_0.1.owner() == old(e).tag()
            &&& t->Ok_0.2.owner() == old(r).tag()
            &&& final(c).writing() && final(c).readers() == 0
            &&& final(e).writing() && final(e).readers() == 0
            &&& final(r).writing() && final(r).readers() == 0
        },
        !(old(c).free() && old(e).free() && old(r).free()) ==> {
            &&& t == Err::<(WriteDataState<C>, WriteDataState<Events<E>>, WriteDataState<R>), _>(
                DataStateAccessError::NotAvailableError,
            )
            &&& final(c).same_state(old(c))
            &&& final(e).same_state(old(e))
            &&& final(r).same_state(old(r))
        },
        final(c).value() == old(c).value() && final(c).tag() == old(c).tag(),
        final(e).value() == old(e).value() && final(e).tag() == old(e).tag(),
        final(r).value() == old(r).value() && final(r).tag() == old(r).tag(),
{
    if !(c.can_write() && e.can_write() && r.can_write()) {
        return Err(DataStateAccessError::NotAvailableError);
    }
    let tc = c.write();
    let te = e.write();
    let tr = r.write();
    match (tc, te, tr) {
        (Ok(tc), Ok(te), Ok(tr)) => Ok((tc, te, tr)),
        _ => Err(DataStateAccessError::NotAvailableError),
    }
}

/// Hands back the three write tokens of a frame, each to the state that
/// handed it out; when `reset_events` is set, the input state starts a new
/// frame first (as after a drawn frame, not after the startup frame).
pub fn end_frame<C, E, R>(
    c: &mut DataState<C>,
    e: &mut DataState<Events<E>>,
    r: &mut DataState<R>,
    tc: WriteDataState<C>,
    te: WriteDataState<Events<E>>,
    tr: WriteDataState<R>,
    reset_events: bool,
)
    requires
        tc.owner() == old(c).tag() && old(c).writing(),
        te.owner() == old(e).tag() && old(e).writing(),
        tr.owner() == old(r).tag() && old(r).writing(),
    ensures
        final(c).free() && final(c).value() == old(c).value() && final(c).tag() == old(c).tag(),
        final(e).free() && final(e).tag() == old(e).tag(),
        final(r).free() && final(r).value() == old(r).value() && final(r).tag() == old(r).tag(),
        reset_events ==> events_reset(old(e).value(), final(e).value()),
        !reset_events ==> final(e).value() == old(e).value(),
{
    if reset_events {
        match e.get_mut_with(&te) {
            Some(ev) => ev.reset(),
            None => {},
        }
    }
    let _ = c.consume_write(tc);
    let _ = e.consume_write(te);
    let _ = r.consume_write(tr);
}

} // verus!
