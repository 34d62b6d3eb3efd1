use matrix_engine::dispatchers::context::Context;
use matrix_engine::engine::component::{Component, ComponentCollection};

#[test]
fn system_test() {}

#[test]
#[allow(unused)]
fn systems_test() {
    struct A;
    impl Component for A {}

    let a = |a: &Context, b: &ComponentCollection<A>| {};
}
