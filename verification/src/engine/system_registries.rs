use vstd::prelude::*;
use std::collections::VecDeque;

use crate::engine::events::event_registry::WindowEvent;

verus! {

/// Identifies a window.
#[derive(Debug, Clone, Copy, PartialEq, Eq, Structural, Hash)]
pub struct WindowId(pub u64);

/// The stage of a frame that systems run in, with what it concerns.
#[derive(Debug, Clone, Copy)]
pub enum Stage {
    PreUpdate,
    Update,
    PostUpdate,
    PreRender(WindowId),
    Render(WindowId),
    WindowEvent(WindowEvent),
    Startup,
}

/// The stage of a frame, without what it concerns.
#[derive(Debug, Clone, Copy, PartialEq, Eq, Structural)]
pub enum StageDescriptor {
    PreUpdate,
    Update,
    PostUpdate,
    PreRender,
    Render,
    WindowEvent,
    Startup,
}

impl Stage {
    /// The kind of this stage.
    pub open spec fn descriptor(self) -> StageDescriptor {
        match self {
            Stage::PreUpdate => StageDescriptor::PreUpdate,
            Stage::Update => StageDescriptor::Update,
            Stage::PostUpdate => StageDescriptor::PostUpdate,
            Stage::PreRender(_) => StageDescriptor::PreRender,
            Stage::Render(_) => StageDescriptor::Render,
            Stage::WindowEvent(_) => StageDescriptor::WindowEvent,
            Stage::Startup => StageDescriptor::Startup,
        }
    }

    /// The kind of this stage.
    pub fn to_descriptor(&self) -> (r: StageDescriptor)
        ensures
            r == self.descriptor(),
            (*self is PreUpdate) <==> (r == StageDescriptor::PreUpdate),
            (*self is Update) <==> (r == StageDescriptor::Update),
            (*self is PostUpdate) <==> (r == StageDescriptor::PostUpdate),
            (*self is PreRender) <==> (r == StageDescriptor::PreRender),
            (*self is Render) <==> (r == StageDescriptor::Render),
            (*self is WindowEvent) <==> (r == StageDescriptor::WindowEvent),
            (*self is Startup) <==> (r == StageDescriptor::Startup),
    {
        match self {
            Stage::PreUpdate => StageDescriptor::PreUpdate,
            Stage::Update => StageDescriptor::Update,
            Stage::PostUpdate => StageDescriptor::PostUpdate,
            Stage::PreRender(_) => StageDescriptor::PreRender,
            Stage::Render(_) => StageDescriptor::Render,
            Stage::WindowEvent(_) => StageDescriptor::WindowEvent,
            Stage::Startup => StageDescriptor::Startup,
        }
    }
}

/// Law: every stage has the descriptor of its own name, and no other stage
/// has it, so the systems added under a descriptor are the ones its stage
/// runs.
pub proof fn lemma_descriptor_of_same_name(s: Stage)
    ensures
        (s is PreUpdate) <==> (s.descriptor() == StageDescriptor::PreUpdate),
        (s is Update) <==> (s.descriptor() == StageDescriptor::Update),
        (s is PostUpdate) <==> (s.descriptor() == StageDescriptor::PostUpdate),
        (s is PreRender) <==> (s.descriptor() == StageDescriptor::PreRender),
        (s is Render) <==> (s.descriptor() == StageDescriptor::Render),
        (s is WindowEvent) <==> (s.descriptor() == StageDescriptor::WindowEvent),
        (s is Startup) <==> (s.descriptor() == StageDescriptor::Startup),
{
}

/// Why the next frame could not be prepared.
#[derive(Debug, Clone, Copy, PartialEq, Eq, Structural)]
pub enum SystemRegistryNextFrameError {
    /// Some system of this frame has not been taken out yet.
    NotAllSystemExhausted,
}

/// The systems of one stage: those still to run in this frame, in order,
/// and those that already ran, in the order they were taken back.
pub struct SystemCollection<S> {
    systems: VecDeque<S>,
    systems_done: VecDeque<S>,
}

impl<S> Default for SystemCollection<S> {
    fn default() -> (r: Self)
        ensures
            r.pending() == Seq::<S>::empty(),
            r.done() == Seq::<S>::empty(),
    {
        SystemCollection { systems: VecDeque::new(), systems_done: VecDeque::new() }
    }
}

impl<S> SystemCollection<S> {
    /// The systems still to run in this frame, first to run first.
    pub closed spec fn pending(&self) -> Seq<S> {
        self.systems@
    }

    /// The systems that ran in this frame, in the order they were taken back.
    pub closed spec fn done(&self) -> Seq<S> {
        self.systems_done@
    }

    /// Adds `system` to run last in this frame.
    pub fn add_system(&mut self, system: S)
        ensures
            final(self).pending() == old(self).pending().push(system),
            final(self).done() == old(self).done(),
    {
        self.systems.push_back(system);
    }

    /// Takes out the next system to run, if any is left.
    pub fn take_out_system(&mut self) -> (r: Option<S>)
        ensures
            old(self).pending().len() == 0 ==> r is None && final(self).pending() == old(
                self,
            ).pending(),
            old(self).pending().len() > 0 ==> r == Some(old(self).pending()[0])
                && final(self).pending() == old(self).pending().drop_first(),
            final(self).done() == old(self).done(),
    {
        let r = self.systems.pop_front();
        proof {
            if old(self).pending().len() > 0 {
                assert(self.systems@ =~= old(self).pending().drop_first());
            }
        }
        r
    }

    /// Takes back a system that ran.
    pub fn take_back_system(&mut self, b: S)
        ensures
            final(self).pending() == old(self).pending(),
            final(self).done() == old(self).done().push(b),
    {
        self.systems_done.push_back(b);
    }

    /// Once every system was taken out, makes the systems that ran the ones
    /// to run in the next frame.
    pub fn prepare_next_frame(&mut self) -> (r: Result<(), SystemRegistryNextFrameError>)
        ensures
            old(self).pending().len() > 0 ==> r == Err::<(), _>(
                SystemRegistryNextFrameError::NotAllSystemExhausted,
            ) && final(self).pending() == old(self).pending() && final(self).done() == old(
                self,
            ).done(),
            old(self).pending().len() == 0 ==> r is Ok && final(self).pending() == old(self).done()
                && final(self).done() == Seq::<S>::empty(),
    {
        if self.systems.len() != 0 {
            return Err(SystemRegistryNextFrameError::NotAllSystemExhausted);
        }
        std::mem::swap(&mut self.systems, &mut self.systems_done);
        Ok(())
    }
}

/// Law: a frame that takes out every system of a stage in turn, takes each
/// back as it ran, then prepares the next frame, gives back the same systems
/// in the same order. `steps[i]` is the (pending, done) pair of the stage
/// after `i` systems were taken out and back.
pub proof fn lemma_frame_cycle_keeps_order<S>(steps: Seq<(Seq<S>, Seq<S>)>, next: Seq<S>)
    requires
        steps.len() >= 1,
        steps[0].1 == Seq::<S>::empty(),
        forall|i: int|
            0 <= i < steps.len() - 1 ==> (#[trigger] steps[i]).0.len() > 0 && steps[i + 1].0
                == steps[i].0.drop_first() && steps[i + 1].1 == steps[i].1.push(steps[i].0[0]),
        steps[steps.len() - 1].0.len() == 0,
        next == steps[steps.len() - 1].1,
    ensures
        next == steps[0].0,
{
    let n = steps.len();
    lemma_frame_cycle_prefix(steps, n - 1);
    assert(steps[n - 1].1 + steps[n - 1].0 =~= steps[n - 1].1);
}

/// After `k` systems were taken out and back, what ran followed by what is
/// left is what the stage started with.
proof fn lemma_frame_cycle_prefix<S>(steps: Seq<(Seq<S>, Seq<S>)>, k: int)
    requires
        0 <= k < steps.len(),
        forall|i: int|
            0 <= i < steps.len() - 1 ==> (#[trigger] steps[i]).0.len() > 0 && steps[i + 1].0
                == steps[i].0.drop_first() && steps[i + 1].1 == steps[i].1.push(steps[i].0[0]),
        steps[0].1 == Seq::<S>::empty(),
    ensures
        steps[k].1 + steps[k].0 == steps[0].0,
    decreases k,
{
    if k == 0 {
        assert(steps[0].1 + steps[0].0 =~= steps[0].0);
    } else {
        lemma_frame_cycle_prefix(steps, k - 1);
        let cur = steps[k - 1];
        let nx = steps[k];
        assert(nx.1 + nx.0 =~= cur.1 + cur.0);
    }
}

/// The systems of all stages of a frame.
pub struct SystemRegistry<S> {
    startup_systems: SystemCollection<S>,
    pre_update_systems: SystemCollection<S>,
    update_systems: SystemCollection<S>,
    post_update_systems: SystemCollection<S>,
    pre_render_systems: SystemCollection<S>,
    render_systems: SystemCollection<S>,
    window_event_systems: SystemCollection<S>,
}

impl<S> Default for SystemRegistry<S> {
    fn default() -> (r: Self)
        ensures
            forall|d: StageDescriptor| #[trigger] r.pending(d) == Seq::<S>::empty() && r.done(d) == Seq::<S>::empty(),
    {
        SystemRegistry {
            startup_systems: SystemCollection::default(),
            pre_update_systems: SystemCollection::default(),
            update_systems: SystemCollection::default(),
            post_update_systems: SystemCollection::default(),
            pre_render_systems: SystemCollection::default(),
            render_systems: SystemCollection::default(),
            window_event_systems: SystemCollection::default(),
        }
    }
}

impl<S> SystemRegistry<S> {
    /// The collection of the stage `d`.
    pub closed spec fn collection(&self, d: StageDescriptor) -> SystemCollection<S> {
        match d {
            StageDescriptor::PreUpdate => self.pre_update_systems,
            StageDescriptor::Update => self.update_systems,
            StageDescriptor::PostUpdate => self.post_update_systems,
            StageDescriptor::PreRender => self.pre_render_systems,
            StageDescriptor::Render => self.render_systems,
            StageDescriptor::WindowEvent => self.window_event_systems,
            StageDescriptor::Startup => self.startup_systems,
        }
    }

    /// The systems of stage `d` still to run in this frame.
    pub open spec fn pending(&self, d: StageDescriptor) -> Seq<S> {
        self.collection(d).pending()
    }

    /// The systems of stage `d` that ran in this frame.
    pub open spec fn done(&self, d: StageDescriptor) -> Seq<S> {
        self.collection(d).done()
    }

    /// The collections of all stages but `d` are those of `other`.
    pub open spec fn others_unchanged(&self, other: &Self, d: StageDescriptor) -> bool {
        forall|e: StageDescriptor| e != d ==> #[trigger] self.collection(e) == other.collection(e)
    }

    /// The collection of the startup stage; what is done to it is done to the registry.
    pub fn startup_systems_mut(&mut self) -> (r: &mut SystemCollection<S>)
        ensures
            *r == old(self).collection(StageDescriptor::Startup),
            final(self).collection(StageDescriptor::Startup) == *final(r),
            final(self).others_unchanged(old(self), StageDescriptor::Startup),
    {
        &mut self.startup_systems
    }

    /// The collection of the pre-update stage; what is done to it is done to the registry.
    pub fn pre_update_systems_mut(&mut self) -> (r: &mut SystemCollection<S>)
        ensures
            *r == old(self).collection(StageDescriptor::PreUpdate),
            final(self).collection(StageDescriptor::PreUpdate) == *final(r),
            final(self).others_unchanged(old(self), StageDescriptor::PreUpdate),
    {
        &mut self.pre_update_systems
    }

    /// The collection of the update stage; what is done to it is done to the registry.
    pub fn update_systems_mut(&mut self) -> (r: &mut SystemCollection<S>)
        ensures
            *r == old(self).collection(StageDescriptor::Update),
            final(self).collection(StageDescriptor::Update) == *final(r),
            final(self).others_unchanged(old(self), StageDescriptor::Update),
    {
        &mut self.update_systems
    }

    /// The collection of the post-update stage; what is done to it is done to the registry.
    pub fn post_update_systems_mut(&mut self) -> (r: &mut SystemCollection<S>)
        ensures
            *r == old(self).collection(StageDescriptor::PostUpdate),
            final(self).collection(StageDescriptor::PostUpdate) == *final(r),
            final(self).others_unchanged(old(self), StageDescriptor::PostUpdate),
    {
        &mut self.post_update_systems
    }

    /// Adds `system` to run last in stage `stage`.
    pub fn add_system(&mut self, stage: StageDescriptor, system: S)
        ensures
            final(self).pending(stage) == old(self).pending(stage).push(system),
            final(self).done(stage) == old(self).done(stage),
            final(self).others_unchanged(old(self), stage),
    {
        self.get_system_collection(&stage).add_system(system);
    }

    /// The collection of stage `stage`; what is done to it is done to the registry.
    pub fn get_system_collection(&mut self, stage: &StageDescriptor) -> (r: &mut SystemCollection<S>)
        ensures
            *r == old(self).collection(*stage),
            final(self).collection(*stage) == *final(r),
            final(self).others_unchanged(old(self), *stage),
    {
        match stage {
            StageDescriptor::PreUpdate => &mut self.pre_update_systems,
            StageDescriptor::Update => &mut self.update_systems,
            StageDescriptor::PostUpdate => &mut self.post_update_systems,
            StageDescriptor::PreRender => &mut self.pre_render_systems,
            StageDescriptor::Render => &mut self.render_systems,
            StageDescriptor::WindowEvent => &mut self.window_event_systems,
            StageDescriptor::Startup => &mut self.startup_systems,
        }
    }
}

} // verus!
