use flexweave::identity::ObjectId;
use flexweave::object_map::ObjectMap;

#[test]
fn overwrite_and_remove_keep_index_consistent() {
    let first = ObjectId::new(1);
    let second = ObjectId::new(2);
    let third = ObjectId::new(3);
    let mut map = ObjectMap::new();

    map.put(first, 10);
    map.put(second, 20);
    map.put(third, 30);
    map.put(second, 200);

    assert_eq!(map.count(), 3);
    assert_eq!(map.get(first), Some(&10));
    assert_eq!(map.get(second), Some(&200));
    assert_eq!(map.get(third), Some(&30));

    assert!(map.remove(first));
    assert!(!map.contains(first));
    assert_eq!(map.get(second), Some(&200));
    assert_eq!(map.get(third), Some(&30));

    assert!(map.replace_existing(third, 300));
    assert_eq!(map.get(third), Some(&300));
    assert!(map.remove(second));
    assert_eq!(map.count(), 1);
    assert_eq!(map.get(third), Some(&300));
    assert!(!map.replace_existing(first, 100));
    assert!(!map.remove(first));
}

#[test]
fn put_keeps_insertion_order_and_overwrites_in_place() {
    let mut map = ObjectMap::new();
    map.put(ObjectId::new(5), "a");
    map.put(ObjectId::new(3), "b");
    map.put(ObjectId::new(5), "c");
    assert_eq!(map.count(), 2);
    assert_eq!(map.get(ObjectId::new(5)), Some(&"c"));
    assert_eq!(map.get(ObjectId::new(3)), Some(&"b"));
    assert_eq!(map.get(ObjectId::new(4)), None);
}
