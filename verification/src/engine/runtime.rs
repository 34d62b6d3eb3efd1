use vstd::prelude::*;

pub mod thread_pool;

verus! {

/// The stages that a runtime runs, each over the systems of that stage.
#[derive(Debug, Clone, Copy, PartialEq, Eq, Structural)]
pub enum Stage {
    PreUpdate,
    Update,
    PostUpdate,
    PreRender,
    Render,
    Startup,
}

/// Runs the systems of a stage one after the other on the calling thread.
pub struct SingleThreadedRuntime;

/// `num_cpus::get_physical`: the number of physical cores of the machine,
/// which its documentation promises to be at least 1.
#[verifier::external_body]
fn physical_cores() -> (r: usize)
    ensures
        r >= 1,
{
    num_cpus::get_physical()
}

/// `num_cpus::get`: the number of logical CPUs available to this process,
/// which its documentation promises to be at least 1.
#[verifier::external_body]
fn logical_cpus() -> (r: usize)
    ensures
        r >= 1,
{
    num_cpus::get()
}

/// How many workers a multi-threaded runtime starts on a machine with
/// `physical` cores: one core is left to the main thread, and at least
/// four workers run.
pub fn worker_count(physical: usize) -> (r: usize)
    requires
        physical >= 1,
    ensures
        r == if physical - 1 > 4 { physical - 1 } else { 4 },
{
    let n = physical - 1;
    if n > 4 {
        n
    } else {
        4
    }
}

/// The number of workers that `worker_count` gives for `physical` cores.
pub open spec fn worker_count_for(physical: usize) -> int {
    if physical - 1 > 4 { physical - 1 } else { 4 }
}

/// How many workers a multi-threaded runtime starts on this machine (see
/// `worker_count`): the count for some number of physical cores, which
/// depends on the machine.
pub fn worker_count_with_cpu_cores() -> (r: usize)
    ensures
        r >= 4,
        exists|p: usize| p >= 1 && r == #[trigger] worker_count_for(p),
{
    let p = physical_cores();
    let r = worker_count(p);
    assert(r == worker_count_for(p));
    r
}

/// The size of the thread pool for `logical` CPUs, as a pool takes it.
pub fn pool_size(logical: usize) -> (r: u32)
    ensures
        r == logical as u32,
{
    logical as u32
}

/// The pool size that `pool_size` gives for `logical` CPUs.
pub open spec fn pool_size_for(logical: usize) -> u32 {
    logical as u32
}

/// The size of the thread pool for the CPUs of this machine (see `pool_size`):
/// the pool size for some CPU count of at least one, which count depends on
/// the machine.
pub fn pool_size_with_cpu_count() -> (r: u32)
    ensures
        exists|n: usize| n >= 1 && r == #[trigger] pool_size_for(n),
{
    let n = logical_cpus();
    let r = pool_size(n);
    assert(r == pool_size_for(n));
    r
}

/// What a system asks of the runtime once it has run for a frame.
#[derive(Debug, Clone, Copy, PartialEq, Eq, Structural)]
pub enum SystemControlFlow {
    /// Run it again in the next frame.
    Continue,
    /// End the engine.
    Quit,
    /// Take it out of its registry for good.
    Remove,
}

/// What the runtime did, or is to do, once a system reported back.
#[derive(Debug, Clone, Copy, PartialEq, Eq, Structural)]
pub enum DoneAction {
    /// The system stays where it is.
    Keep,
    /// The engine is to end.
    Quit,
    /// The system was taken out of its registry.
    Removed,
}

/// No registry holds the system that reported back.
#[derive(Debug, Clone, Copy, PartialEq, Eq, Structural)]
pub struct SystemNotFound;

/// The numbers of the systems of one registry, in the order they were added.
#[derive(Debug)]
pub struct SystemIds {
    ids: Vec<u64>,
}

impl View for SystemIds {
    type V = Seq<u64>;

    closed spec fn view(&self) -> Seq<u64> {
        self.ids@
    }
}

impl SystemIds {
    /// No system yet.
    pub fn new() -> (r: Self)
        ensures
            r@ == Seq::<u64>::empty(),
    {
        SystemIds { ids: Vec::new() }
    }

    /// Adds the system numbered `id`, last.
    pub fn add(&mut self, id: u64)
        ensures
            final(self)@ == old(self)@.push(id),
    {
        self.ids.push(id);
    }

    /// Whether the system numbered `id` is in this registry.
    pub fn contains(&self, id: u64) -> (r: bool)
        ensures
            r == self@.contains(id),
    {
        let mut i: usize = 0;
        while i < self.ids.len()
            invariant
                i <= self.ids@.len(),
                forall|j: int| 0 <= j < i ==> self.ids@[j] != id,
            decreases self.ids@.len() - i,
        {
            if self.ids[i] == id {
                return true;
            }
            i += 1;
        }
        false
    }

    /// Takes out the first system numbered `id`, if there is one.
    pub fn remove(&mut self, id: u64) -> (r: bool)
        ensures
            r == old(self)@.contains(id),
            !r ==> final(self)@ == old(self)@,
            r ==> final(self)@ == old(self)@.remove(old(self)@.index_of_first(id)->Some_0),
    {
        let mut i: usize = 0;
        while i < self.ids.len()
            invariant
                i <= self.ids@.len(),
                self.ids@ == old(self)@,
                forall|j: int| 0 <= j < i ==> self.ids@[j] != id,
            decreases self.ids@.len() - i,
        {
            if self.ids[i] == id {
                proof {
                    old(self)@.index_of_first_ensures(id);
                }
                self.ids.remove(i);
                return true;
            }
            i += 1;
        }
        proof {
            old(self)@.index_of_first_ensures(id);
        }
        false
    }
}

/// `k` is the first registry of `regs` that holds the system `id`.
pub open spec fn first_holder(regs: Seq<Seq<u64>>, id: u64, k: int) -> bool {
    &&& 0 <= k < regs.len()
    &&& regs[k].contains(id)
    &&& forall|j: int| 0 <= j < k ==> !(#[trigger] regs[j]).contains(id)
}

/// The numbers held by each registry of `regs`.
pub open spec fn registry_ids(regs: Seq<SystemIds>) -> Seq<Seq<u64>> {
    regs.map_values(|r: SystemIds| r@)
}

/// Takes in the report of the system `id` that ran: the first registry that
/// holds it keeps it (`Continue`) or loses it (`Remove`), or the engine is to
/// end (`Quit`); when no registry holds it, nothing changes and the report is
/// refused.
pub fn system_done(regs: &mut Vec<SystemIds>, id: u64, flow: SystemControlFlow) -> (r: Result<DoneAction, SystemNotFound>)
    ensures
        r is Err <==> forall|j: int| 0 <= j < old(regs)@.len() ==> !(#[trigger] old(regs)@[j]@).contains(id),
        r is Err ==> registry_ids(final(regs)@) == registry_ids(old(regs)@),
        r is Ok ==> exists|k: int| #[trigger] first_holder(registry_ids(old(regs)@), id, k) && match flow {
            SystemControlFlow::Continue => r == Ok::<DoneAction, SystemNotFound>(DoneAction::Keep)
                && registry_ids(final(regs)@) == registry_ids(old(regs)@),
            SystemControlFlow::Quit => r == Ok::<DoneAction, SystemNotFound>(DoneAction::Quit)
                && registry_ids(final(regs)@) == registry_ids(old(regs)@),
            SystemControlFlow::Remove => r == Ok::<DoneAction, SystemNotFound>(DoneAction::Removed)
                && registry_ids(final(regs)@) == registry_ids(old(regs)@).update(
                k,
                old(regs)@[k]@.remove(old(regs)@[k]@.index_of_first(id)->Some_0),
            ),
        },
{
    let ghost start = registry_ids(regs@);
    let mut k: usize = 0;
    while k < regs.len()
        invariant
            k <= regs@.len(),
            regs@ == old(regs)@,
            start == registry_ids(old(regs)@),
            start.len() == regs@.len(),
            forall|j: int| 0 <= j < k ==> !(#[trigger] regs@[j]@).contains(id),
        decreases regs@.len() - k,
    {
        if regs[k].contains(id) {
            proof {
                assert(start[k as int] == regs@[k as int]@);
                assert forall|j: int| 0 <= j < k implies !(#[trigger] start[j]).contains(id) by {
                    assert(start[j] == regs@[j]@);
                }
                assert(first_holder(start, id, k as int));
                assert(old(regs)@[k as int]@.contains(id));
            }
            match flow {
                SystemControlFlow::Continue => return Ok(DoneAction::Keep),
                SystemControlFlow::Quit => return Ok(DoneAction::Quit),
                SystemControlFlow::Remove => {
                    let mut held = SystemIds::new();
                    std::mem::swap(&mut regs[k], &mut held);
                    held.remove(id);
                    std::mem::swap(&mut regs[k], &mut held);
                    proof {
                        assert(registry_ids(regs@) =~= start.update(
                            k as int,
                            old(regs)@[k as int]@.remove(old(regs)@[k as int]@.index_of_first(id)->Some_0),
                        ));
                    }
                    return Ok(DoneAction::Removed);
                },
            }
        }
        k += 1;
    }
    Err(SystemNotFound)
}

} // verus!
