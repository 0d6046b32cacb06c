use kube_agent::name_map::{compare_names, KeyOrder, NameMap};

#[test]
fn entries_come_in_byte_order_of_their_names() {
    let mut map: NameMap<String, u32> = NameMap::new();
    for (name, value) in [("b", 2), ("a", 1), ("ab", 3), ("B", 4), ("é", 5), ("", 6)] {
        assert_eq!(map.insert(name.to_string(), value), None);
    }
    let names: Vec<&str> = (0..map.len()).map(|i| map.key_at(i).as_str()).collect();
    assert_eq!(names, vec!["", "B", "a", "ab", "b", "é"]);
}

#[test]
fn insert_replaces_the_value_of_a_present_name() {
    let mut map: NameMap<&str, u32> = NameMap::new();
    assert_eq!(map.insert("node01", 1), None);
    assert_eq!(map.insert("node02", 2), None);
    assert_eq!(map.insert("node01", 10), Some(1));
    assert_eq!(map.len(), 2);
    assert_eq!(map.get("node01"), Some(&10));
    assert_eq!(map.get("node02"), Some(&2));
    assert_eq!(map.get("node03"), None);
}

#[test]
fn names_compare_as_str_does() {
    let pairs = [("a", "b"), ("a", "a"), ("b", "a"), ("a", "ab"), ("Z", "a"), ("é", "z"), ("", "")];
    for (a, b) in pairs {
        let expected = match a.cmp(b) {
            std::cmp::Ordering::Less => KeyOrder::Less,
            std::cmp::Ordering::Equal => KeyOrder::Equal,
            std::cmp::Ordering::Greater => KeyOrder::Greater,
        };
        assert_eq!(compare_names(a, b), expected);
    }
}

#[test]
fn the_entries_do_not_depend_on_the_order_of_insertion() {
    let names = ["node03", "node01", "node02"];
    let mut forward: NameMap<&str, usize> = NameMap::new();
    let mut backward: NameMap<&str, usize> = NameMap::new();
    for (i, name) in names.iter().enumerate() {
        forward.insert(name, i);
    }
    for (i, name) in names.iter().enumerate().rev() {
        backward.insert(name, i);
    }
    assert_eq!(forward.len(), backward.len());
    for i in 0..forward.len() {
        assert_eq!(forward.key_at(i), backward.key_at(i));
        assert_eq!(forward.value_at(i), backward.value_at(i));
    }
}
