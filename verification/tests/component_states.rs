use matrix_engine::engine::components::Components;
use matrix_engine::engine::data_state::DataState;
use matrix_engine::engine::entity::EntityCreator;

#[test]
fn simple_insert() {
    let mut reg: DataState<Components<i32>> = DataState::default();
    let mut creator = EntityCreator::new();
    let mut v = vec![];
    for i in 0..100 {
        let e = creator.create_entity();
        reg.get_mut().unwrap().insert(e, i);
        v.push((e, i));
    }

    let read = reg.read().unwrap();
    let data = reg.get_with(&read).unwrap();

    for (e, i) in v {
        assert!(*data.get(&e).unwrap() == i);
    }
}

#[test]
fn states() {
    let mut reg: DataState<Components<()>> = DataState::default();
    let mut creator = EntityCreator::new();
    reg.get_mut().unwrap().insert(creator.create_entity(), ());

    let r = reg.read().unwrap();
    let b = reg.read().unwrap();

    let _ = reg.write().unwrap_err();

    reg.consume_read(r).unwrap();
    reg.consume_read(b).unwrap();

    let a = reg.write().unwrap();

    reg.read().unwrap_err();
    reg.write().unwrap_err();

    reg.consume_write(a).unwrap();
}
