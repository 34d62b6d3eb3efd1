use vstd::prelude::*;

pub mod window_plugin;

verus! {

/// Something that adds systems and data to a scene of type `S` when the
/// scene starts.
pub trait Plugin<S> {
    /// `after` is the scene `before` once this plugin was built into it. A
    /// plugin that does not say so promises nothing of its build.
    open spec fn builds(&self, before: S, after: S) -> bool {
        true
    }

    /// Adds what this plugin brings to `scene`.
    fn build(&self, scene: &mut S)
        ensures
            self.builds(*old(scene), *final(scene)),
    ;
}

impl<S, P: Plugin<S> + ?Sized> Plugin<S> for Box<P> {
    open spec fn builds(&self, before: S, after: S) -> bool {
        (**self).builds(before, after)
    }

    /// Builds the boxed plugin.
    fn build(&self, scene: &mut S) {
        (**self).build(scene)
    }
}

/// `scenes` is the scene before each plugin of `plugins` was built, the last
/// one first, followed by the scene after the last build.
pub open spec fn built_in_turn<S, P: Plugin<S>>(plugins: Seq<P>, scenes: Seq<S>) -> bool {
    &&& scenes.len() == plugins.len() + 1
    &&& forall|i: int|
        0 <= i < plugins.len() ==> #[trigger] plugins[plugins.len() - 1 - i].builds(scenes[i], scenes[i + 1])
}

/// Builds every plugin waiting in `plugins` into `scene`, the one added last
/// first, each once, until none is left; gives back the plugins in the order
/// in which they were built.
pub fn build_plugins<S, P: Plugin<S>>(plugins: &mut Vec<P>, scene: &mut S) -> (built: Vec<P>)
    ensures
        final(plugins)@.len() == 0,
        built@ == old(plugins)@.reverse(),
        exists|scenes: Seq<S>|
            #[trigger] built_in_turn(old(plugins)@, scenes) && scenes[0] == *old(scene) && scenes.last()
                == *final(scene),
{
    let mut built: Vec<P> = Vec::new();
    let ghost all = old(plugins)@;
    let ghost mut scenes: Seq<S> = seq![*scene];
    while plugins.len() > 0
        invariant
            plugins@.len() <= all.len(),
            plugins@ == all.subrange(0, plugins@.len() as int),
            built@.len() == all.len() - plugins@.len(),
            forall|i: int| 0 <= i < built@.len() ==> #[trigger] built@[i] == all[all.len() - 1 - i],
            scenes.len() == built@.len() + 1,
            scenes[0] == *old(scene),
            scenes.last() == *scene,
            forall|i: int|
                0 <= i < built@.len() ==> #[trigger] all[all.len() - 1 - i].builds(scenes[i], scenes[i + 1]),
        decreases plugins@.len(),
    {
        let ghost before = *scene;
        let p = plugins.pop().unwrap();
        p.build(scene);
        proof {
            let k = built@.len() as int;
            assert(p == all[all.len() - 1 - k]);
            scenes = scenes.push(*scene);
            assert forall|i: int| 0 <= i < k + 1 implies #[trigger] all[all.len() - 1 - i].builds(
                scenes[i],
                scenes[i + 1],
            ) by {
                if i == k {
                    assert(scenes[i] == before);
                }
            }
        }
        built.push(p);
    }
    proof {
        assert(built@ =~= all.reverse());
        assert(built_in_turn(all, scenes));
    }
    built
}

} // verus!
