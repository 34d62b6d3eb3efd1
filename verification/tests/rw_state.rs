use matrix_engine::ecs_core::read_write_state::RwState;

#[test]
fn test_rw_state() {
    let mut data = RwState::new(10);

    let a1 = data.read().unwrap();
    let a2 = data.read().unwrap();

    data.write().unwrap_err();

    data.consume_read(a1).unwrap();
    data.consume_read(a2).unwrap();

    let a3 = data.write().unwrap();

    data.read().unwrap_err();

    data.consume_write(a3).unwrap();

    let a4 = data.read().unwrap();
    data.consume_read(a4).unwrap();
}
