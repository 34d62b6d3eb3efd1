use matrix_engine::ecs_core::read_write_state::{RwState, RwStateAccessError, RwStateConsumeError};
use matrix_engine::identity::TagSource;
use matrix_engine::engine::data_state::{DataState, DataStateAccessError};
use matrix_engine::engine::scenes::components::component_registry::{Components, ComponentsState};
use matrix_engine::engine::scenes::entities::Entity as SceneEntity;
use matrix_engine::engine::scenes::resources::resource_registry::{ResourceHolder, ResourceState};

#[test]
fn rw_state_refuses_tokens_of_another_value() {
    let mut a = RwState::new(1u8);
    let mut b = RwState::new(2u8);
    let ta = a.read().unwrap();
    let tb = b.read().unwrap();
    assert_eq!(b.consume_read(ta).unwrap_err(), RwStateConsumeError::WrongValue);
    b.consume_read(tb).unwrap();
    let tb2 = b.write().unwrap();
    assert_eq!(a.consume_write(tb2).unwrap_err(), RwStateConsumeError::WrongValue);
}

#[test]
fn rw_state_refuses_tokens_in_the_wrong_state() {
    let mut a = RwState::new(5i32);
    let w = a.write().unwrap();
    assert_eq!(a.write().unwrap_err(), RwStateAccessError::NotAvailable);
    assert_eq!(a.read().unwrap_err(), RwStateAccessError::NotAvailable);
    *a.get_mut(&w).unwrap() = 7;
    a.consume_write(w).unwrap();
    let r = a.read().unwrap();
    assert_eq!(*a.get(&r).unwrap(), 7);
    let w2 = RwState::new(0i32).write().unwrap();
    let _ = w2;
    a.consume_read(r).unwrap();
    let r2 = a.read().unwrap();
    a.consume_read(r2).unwrap();
    // no reader is out any more
    let stale = RwState::new(0i32).read().unwrap();
    assert_eq!(a.consume_read(stale).unwrap_err(), RwStateConsumeError::WrongValue);
}

#[test]
fn rw_state_consume_read_with_no_reader_is_wrong_state() {
    let mut a = RwState::new(0u64);
    let r = a.read().unwrap();
    let w_attempt = a.write();
    assert!(w_attempt.is_err());
    a.consume_read(r).unwrap();
    let w = a.write().unwrap();
    a.consume_write(w).unwrap();
    let r2 = a.read().unwrap();
    a.consume_read(r2).unwrap();
}

#[test]
fn data_state_states() {
    let mut d = DataState::new(vec![1, 2, 3]);
    assert!(d.can_read() && d.can_write());
    let r = d.read().unwrap();
    let b = d.read().unwrap();
    assert!(d.can_read() && !d.can_write());
    assert_eq!(d.write().unwrap_err(), DataStateAccessError::NotAvailableError);
    assert_eq!(d.get().unwrap(), &vec![1, 2, 3]);
    assert!(d.get_mut().is_err());
    assert_eq!(d.get_with(&r).unwrap().len(), 3);
    d.consume_read(r).unwrap();
    d.consume_read(b).unwrap();
    let w = d.write().unwrap();
    assert!(!d.can_read() && !d.can_write());
    assert_eq!(d.get().unwrap_err(), DataStateAccessError::NotAvailableError);
    d.get_mut_with(&w).unwrap().push(4);
    assert_eq!(d.read().unwrap_err(), DataStateAccessError::NotAvailableError);
    d.consume_write(w).unwrap();
    d.get_mut().unwrap().push(5);
    assert_eq!(d.get().unwrap(), &vec![1, 2, 3, 4, 5]);
}

#[test]
fn data_state_refuses_tokens_of_another_value() {
    let mut a: DataState<u8> = DataState::default();
    let mut other: DataState<u8> = DataState::new(1);
    let t = other.read().unwrap();
    assert_eq!(a.consume_read(t).unwrap_err(), DataStateAccessError::WrongFuckingData);
    let mut third: DataState<u8> = DataState::new(2);
    let w = third.write().unwrap();
    let aw = a.write().unwrap();
    assert_eq!(a.consume_write(w).unwrap_err(), DataStateAccessError::WrongFuckingData);
    a.consume_write(aw).unwrap();
    assert_eq!(*a.get().unwrap(), 0);
}

#[test]
fn components_state_read_write_cycle() {
    let mut comps = Components::new();
    comps.add(SceneEntity::from_id(3), 30u32);
    let mut st = ComponentsState::new(comps);
    assert!(st.available_for_read() && st.available_for_write());
    let r1 = st.try_read().unwrap();
    let r2 = st.try_read().unwrap();
    assert!(!st.available_for_write());
    assert!(st.try_write().is_err());
    assert_eq!(st.get(&r1).unwrap().get(&SceneEntity::from_id(3)), Some(&30));
    st.receive_ref(&r1).unwrap();
    st.receive_ref(&r2).unwrap();
    assert!(st.receive_ref(&r2).is_err());
    let m = st.try_write().unwrap();
    assert!(!st.available_for_read());
    assert!(st.try_read().is_err());
    st.get_mut(&m).unwrap().add(SceneEntity::from_id(4), 40);
    st.recieve_mut(&m).unwrap();
    assert!(st.recieve_mut(&m).is_err());
    let r3 = st.try_read().unwrap();
    assert_eq!(st.get(&r3).unwrap().get(&SceneEntity::from_id(4)), Some(&40));
}

#[test]
fn resource_state_keeps_counting_readers() {
    let mut st = ResourceState::new(ResourceHolder::<u8>::default());
    let w = st.try_write().unwrap();
    *st.get_mut(&w).unwrap().as_mut() = Some(9);
    st.recieve_mut(&w).unwrap();
    let r = st.try_read().unwrap();
    assert_eq!(st.get(&r).unwrap().as_ref(), &Some(9));
    st.recieve_ref(&r).unwrap();
    // the last reader is back, and no access is out ...
    assert!(st.available_for_write());
    // ... but the slot still counts readers, so the write access is refused
    assert!(st.try_write().is_err());
    assert!(st.recieve_ref(&r).is_err());
}

#[test]
fn values_tagged_from_one_source_refuse_each_others_tokens() {
    let mut tags = TagSource::new();
    let mut a: DataState<u8> = DataState::with_tags(1, &mut tags);
    let mut b: DataState<u8> = DataState::with_tags(2, &mut tags);
    let w = b.write().unwrap();
    assert_eq!(a.consume_write(w).unwrap_err(), DataStateAccessError::WrongFuckingData);
    let r = a.read().unwrap();
    assert_eq!(b.consume_read(r).unwrap_err(), DataStateAccessError::WrongFuckingData);
    assert!(a.can_read() && !a.can_write());

    let mut x: RwState<u8> = RwState::with_tags(3, &mut tags);
    let mut y: RwState<u8> = RwState::with_tags(4, &mut tags);
    let t = y.write().unwrap();
    assert!(x.consume_write(t).is_err());
}
