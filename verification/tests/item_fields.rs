use team_players::item::{AttrValue, Item};
use team_players::utils::{item_to_value, item_to_vector};

fn s(x: &str) -> String {
    x.to_string()
}

#[test]
fn item_get_after_insert() {
    let mut item = Item::new();
    assert!(item.get("PK").is_none());
    item.insert(s("PK"), AttrValue::S(s("T#1")));
    item.insert(s("teams"), AttrValue::Ss(vec![s("a"), s("b")]));
    match item.get("PK") {
        Some(AttrValue::S(v)) => assert_eq!(v, "T#1"),
        _ => panic!("PK should be a string"),
    }
    match item.get("teams") {
        Some(AttrValue::Ss(v)) => assert_eq!(v, &vec![s("a"), s("b")]),
        _ => panic!("teams should be a string set"),
    }
    assert!(item.get("SK").is_none());
}

#[test]
fn item_insert_replaces_same_name() {
    let mut item = Item::new();
    item.insert(s("name"), AttrValue::S(s("old")));
    item.insert(s("code"), AttrValue::S(s("C")));
    item.insert(s("name"), AttrValue::S(s("new")));
    match item.get("name") {
        Some(AttrValue::S(v)) => assert_eq!(v, "new"),
        _ => panic!("name should be a string"),
    }
    let pairs = item.into_pairs();
    assert_eq!(pairs.len(), 2);
    let names: Vec<&str> = pairs.iter().map(|p| p.0.as_str()).collect();
    assert!(names.contains(&"name"));
    assert!(names.contains(&"code"));
}

#[test]
fn item_to_value_cases() {
    let mut item = Item::new();
    item.insert(s("PK"), AttrValue::S(s("G#1")));
    item.insert(s("teams"), AttrValue::Ss(vec![s("x")]));
    item.insert(s("n"), AttrValue::Other);
    assert_eq!(item_to_value("PK", &item), Ok(Some(s("G#1"))));
    assert_eq!(item_to_value("missing", &item), Ok(None));
    assert_eq!(item_to_value("teams", &item), Err(()));
    assert_eq!(item_to_value("n", &item), Err(()));
}

#[test]
fn item_to_vector_cases() {
    let mut item = Item::new();
    item.insert(s("PK"), AttrValue::S(s("G#1")));
    item.insert(s("teams"), AttrValue::Ss(vec![s("x"), s("y")]));
    assert_eq!(item_to_vector("teams", &item), Ok(Some(vec![s("x"), s("y")])));
    assert_eq!(item_to_vector("missing", &item), Ok(None));
    assert_eq!(item_to_vector("PK", &item), Err(()));
}
