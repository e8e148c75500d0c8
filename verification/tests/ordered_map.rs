use std::collections::BTreeMap;

use openlogi::binding::{Action, ButtonId};
use openlogi::ordered_map::OrderedMap;

fn keys(map: &OrderedMap<String, Action>) -> Vec<String> {
    (0..map.len()).map(|i| map.entry_at(i).0.clone()).collect()
}

#[test]
fn a_map_keeps_its_keys_in_order() {
    let mut map: OrderedMap<String, Action> = OrderedMap::new();
    assert!(map.is_empty());
    for key in ["m", "b", "z", "a", "m"] {
        map.insert(key.to_string(), Action::Copy);
    }
    assert_eq!(map.len(), 4);
    assert_eq!(keys(&map), vec!["a", "b", "m", "z"]);
}

#[test]
fn a_later_insert_replaces_the_value() {
    let mut map: OrderedMap<ButtonId, Action> = OrderedMap::new();
    map.insert(ButtonId::Back, Action::Copy);
    map.insert(ButtonId::Back, Action::Paste);
    assert_eq!(map.get(&ButtonId::Back), Some(&Action::Paste));
    assert_eq!(map.len(), 1);
    assert_eq!(map.remove(&ButtonId::Back), Some(Action::Paste));
    assert_eq!(map.remove(&ButtonId::Back), None);
    assert!(map.is_empty());
}

#[test]
fn a_map_does_what_a_tree_map_does() {
    let mut map: OrderedMap<String, Action> = OrderedMap::new();
    let mut model: BTreeMap<String, Action> = BTreeMap::new();
    let mut seed: u32 = 12345;
    for _ in 0..2000 {
        seed = seed.wrapping_mul(1_103_515_245).wrapping_add(12345);
        let key = format!("{}", (seed >> 16) % 50);
        match (seed >> 8) % 3 {
            0 => {
                map.insert(key.clone(), Action::SetDpiPreset((seed >> 24) as u8));
                model.insert(key, Action::SetDpiPreset((seed >> 24) as u8));
            }
            1 => assert_eq!(map.remove(key.as_str()), model.remove(&key)),
            _ => {
                assert_eq!(map.get(key.as_str()), model.get(&key));
                assert_eq!(map.contains_key(key.as_str()), model.contains_key(&key));
            }
        }
        assert_eq!(map.len(), model.len());
    }
    assert_eq!(keys(&map), model.keys().cloned().collect::<Vec<_>>());
}

#[test]
fn clearing_leaves_nothing() {
    let mut map: OrderedMap<ButtonId, Action> = OrderedMap::new();
    map.insert(ButtonId::Forward, Action::Copy);
    let copy = map.clone();
    map.clear();
    assert!(map.is_empty());
    assert_eq!(map.get(&ButtonId::Forward), None);
    assert_eq!(copy.get(&ButtonId::Forward), Some(&Action::Copy));
    assert_ne!(copy, map);
}

#[test]
fn empty_inner_maps_are_dropped() {
    let mut outer: OrderedMap<String, OrderedMap<ButtonId, Action>> = OrderedMap::new();
    let mut inner = OrderedMap::new();
    inner.insert(ButtonId::Back, Action::Copy);
    outer.insert("full".to_string(), inner);
    outer.insert("bare".to_string(), OrderedMap::new());
    outer.insert("also bare".to_string(), OrderedMap::new());
    outer.drop_empty();
    assert_eq!(outer.len(), 1);
    assert!(outer.contains_key("full"));
}
