use matrix_engine::ecs_core::archtypes::ArchtypeCollection;
use matrix_engine::ecs_core::component::ComponentMap;
use matrix_engine::ecs_core::entity::Entity as CoreEntity;
use matrix_engine::engine::component::{Component, ComponentCollection, Join};
use matrix_engine::engine::components::Components;
use matrix_engine::engine::entity::{Entity, EntityCreator};
use matrix_engine::engine::scenes::components::component_registry::Components as SceneComponents;
use matrix_engine::engine::scenes::entities::Entity as SceneEntity;

#[derive(Debug, PartialEq)]
struct Pos(i32);
impl Component for Pos {}

#[derive(Debug, PartialEq)]
struct Vel(i32);
impl Component for Vel {}

#[test]
fn collection_insert_get_replace() {
    let mut c: ComponentCollection<Pos> = ComponentCollection::default();
    assert_eq!(c.insert(&Entity::from_id(5), Pos(1)), None);
    assert_eq!(c.get(&Entity::from_id(5)), Some(&Pos(1)));
    assert_eq!(c.get(&Entity::from_id(4)), None);
    assert_eq!(c.get(&Entity::from_id(100)), None);
    assert_eq!(c.insert(&Entity::from_id(5), Pos(2)), Some(Pos(1)));
    c.get_mut(&Entity::from_id(5)).unwrap().0 += 10;
    assert_eq!(c.get(&Entity::from_id(5)), Some(&Pos(12)));
    assert!(c.get_mut(&Entity::from_id(0)).is_none());
    c.insert(&Entity::from_id(1), Pos(7));
    let ids: Vec<usize> = c.iter().iter().map(|(e, _)| e.id()).collect();
    assert_eq!(ids, vec![1, 5]);
}

#[test]
fn join_keeps_entities_with_both_components() {
    let mut p: ComponentCollection<Pos> = ComponentCollection::default();
    let mut v: ComponentCollection<Vel> = ComponentCollection::default();
    for i in [0usize, 2, 3, 7, 9] {
        p.insert(&Entity::from_id(i), Pos(i as i32));
    }
    for i in [1usize, 2, 7, 8, 9, 12] {
        v.insert(&Entity::from_id(i), Vel(-(i as i32)));
    }
    let joined = (&p, &v).join();
    let got: Vec<(usize, i32, i32)> = joined.iter().map(|(e, (a, b))| (e.id(), a.0, b.0)).collect();
    assert_eq!(got, vec![(2, 2, -2), (7, 7, -7), (9, 9, -9)]);
    let single = (&p).join();
    assert_eq!(single.len(), 5);
    let empty: ComponentCollection<Vel> = ComponentCollection::default();
    assert!((&p, &empty).join().is_empty());
}

#[test]
fn engine_components_insert_get_iter() {
    let mut c: Components<&'static str> = Components::new();
    c.insert(Entity::from_id(3), "c");
    c.insert(Entity::from_id(1), "a");
    c.insert(Entity::from_id(2), "b");
    c.insert(Entity::from_id(1), "A");
    assert_eq!(c.get(&Entity::from_id(1)), Some(&"A"));
    assert_eq!(c.get(&Entity::from_id(9)), None);
    *c.get_mut(&Entity::from_id(2)).unwrap() = "B";
    assert!(c.get_mut(&Entity::from_id(9)).is_none());
    let mut it = c.iter();
    let mut seen = vec![];
    while let Some((e, v)) = it.next() {
        seen.push((e.id(), *v));
    }
    assert_eq!(seen, vec![(1, "A"), (2, "B"), (3, "c")]);
    assert!(it.next().is_none());
}

#[test]
fn scene_components_add_get_iter() {
    let mut c = SceneComponents::new();
    c.add(SceneEntity::from_id(10), 1u8);
    c.add(SceneEntity::from_id(2), 2u8);
    *c.get_mut(&SceneEntity::from_id(10)).unwrap() += 5;
    assert_eq!(c.get(&SceneEntity::from_id(10)), Some(&6));
    let got: Vec<(usize, u8)> = c.iter().iter().map(|(e, v)| (e.id(), **v)).collect();
    assert_eq!(got, vec![(2, 2), (10, 6)]);
}

#[test]
fn core_component_map_push_gives_back_old() {
    let mut m: ComponentMap<u32> = ComponentMap::new();
    assert_eq!(m.push(CoreEntity::from_id(4), 1), None);
    assert_eq!(m.push(CoreEntity::from_id(4), 2), Some(1));
    m.push(CoreEntity::from_id(0), 9);
    let got: Vec<(u64, u32)> = m.iter().iter().map(|(e, v)| (e.id(), **v)).collect();
    assert_eq!(got, vec![(0, 9), (4, 2)]);
}

#[test]
fn archtype_collection_keeps_order() {
    let mut c: ArchtypeCollection<(u8, u16)> = ArchtypeCollection::new();
    c.push(CoreEntity::from_id(1), (1, 10));
    c.push(CoreEntity::from_id(0), (2, 20));
    for (_, (a, _)) in c.iter_mut().iter_mut() {
        *a += 1;
    }
    let got: Vec<(u64, u8, u16)> = c.iter().iter().map(|(e, (a, b))| (e.id(), *a, *b)).collect();
    assert_eq!(got, vec![(1, 2, 10), (0, 3, 20)]);
}

#[test]
fn entity_creator_counts_up() {
    let mut c = EntityCreator::new();
    let a = c.create_entity();
    let b = c.create_entity();
    let d = EntityCreator::default().create_entity();
    assert_eq!((a.id(), b.id(), d.id()), (0, 1, 0));
    assert_ne!(a, b);
    assert_eq!(a, d);
}

#[test]
fn entities_are_ordered_by_number() {
    assert!(Entity::from_id(1) < Entity::from_id(2));
    assert!(Entity::from_id(7) > Entity::from_id(3));
    assert_eq!(Entity::from_id(4).partial_cmp(&Entity::from_id(4)), Some(std::cmp::Ordering::Equal));
    assert_eq!(Entity::from_id(5).cmp(&Entity::from_id(9)), std::cmp::Ordering::Less);
}
