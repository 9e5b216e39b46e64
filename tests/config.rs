use search_libs::{Config, EntryType, EnumEntry};

fn plain_int(value: i64) -> EntryType {
    EntryType::Int { value, min: None, max: None }
}

#[test]
fn get_or_default_prefers_primary_store() {
    let mut a = Config::new();
    a.insert("x".to_string(), plain_int(5));
    let mut b = Config::new();
    b.insert("x".to_string(), plain_int(1));
    b.insert("y".to_string(), EntryType::Bool { value: true });
    assert_eq!(a.get_or_default("x", &b).unwrap().as_int(), Some(5));
    assert_eq!(a.get_or_default("y", &b).unwrap().as_bool(), Some(true));
    assert!(a.get_or_default("z", &b).is_none());
}

#[test]
fn override_outside_declared_bounds_is_kept() {
    let mut declared = Config::new();
    declared.insert("limit".to_string(), EntryType::Int { value: 10, min: Some(1), max: Some(100) });
    let mut user = Config::new();
    user.insert("limit".to_string(), plain_int(999));
    let effective = user.get_or_default("limit", &declared).unwrap();
    assert_eq!(effective.as_int(), Some(999));
    assert_eq!(declared.get("limit").unwrap().as_int(), Some(10));
}

#[test]
fn insert_replaces_and_remove_drops() {
    let mut c = Config::new();
    assert!(c.empty());
    c.insert("k".to_string(), plain_int(1));
    c.insert("k".to_string(), EntryType::String { value: "v".to_string() });
    assert!(!c.empty());
    assert_eq!(c.get("k").unwrap().as_string(), Some("v"));
    assert_eq!(c.get("k").unwrap().as_int(), None);
    c.insert("other".to_string(), EntryType::Unset);
    c.remove("k");
    assert!(c.get("k").is_none());
    assert_eq!(c.get("other").unwrap().variant(), 5);
    c.remove("missing");
    c.remove("other");
    assert!(c.empty());
}

#[test]
fn variants_are_numbered_in_declaration_order() {
    let values = vec![
        EntryType::String { value: String::new() },
        EntryType::Bool { value: false },
        plain_int(0),
        EntryType::Float { value: 1.5f64.to_bits(), min: None, max: None },
        EntryType::Enum { value: 0, options: vec![] },
        EntryType::Unset,
    ];
    let numbers: Vec<u32> = values.iter().map(|v| v.variant()).collect();
    assert_eq!(numbers, vec![0, 1, 2, 3, 4, 5]);
}

#[test]
fn accessors_answer_only_for_their_variant() {
    let f = EntryType::Float { value: 2.25f64.to_bits(), min: Some(0.0f64.to_bits()), max: None };
    assert_eq!(f.as_float_bits().map(f64::from_bits), Some(2.25));
    assert_eq!(f.as_int(), None);
    let e = EntryType::Enum { value: 1, options: vec![EnumEntry::new("low", 0), EnumEntry::new("high", 1)] };
    assert_eq!(e.as_enum(), Some(1));
    assert_eq!(e.as_bool(), None);
    assert_eq!(e.as_string(), None);
    assert_eq!(EntryType::Unset.as_enum(), None);
}

#[test]
fn get_or_default_copies_enum_options() {
    let mut d = Config::new();
    d.insert(
        "mode".to_string(),
        EntryType::Enum { value: 2, options: vec![EnumEntry::new("a", 0), EnumEntry::new("b", 2)] },
    );
    let got = Config::new().get_or_default("mode", &d).unwrap();
    match got {
        EntryType::Enum { value, options } => {
            assert_eq!(value, 2);
            assert_eq!(options.len(), 2);
            assert_eq!(options[1].name, "b");
            assert_eq!(options[1].value, 2);
        }
        _ => panic!("expected an enum entry"),
    }
}

#[test]
fn get_mut_changes_the_stored_value() {
    let mut c = Config::new();
    c.insert("limit".to_string(), EntryType::Int { value: 10, min: Some(1), max: Some(100) });
    if let Some(v) = c.get_mut("limit") {
        *v.as_int_mut().unwrap() = 999;
    }
    match c.get("limit").unwrap() {
        EntryType::Int { value, min, max } => {
            assert_eq!(*value, 999);
            assert_eq!(*min, Some(1));
            assert_eq!(*max, Some(100));
        }
        _ => panic!("expected an int entry"),
    }
    assert!(c.get_mut("absent").is_none());
}

#[test]
fn mutable_accessors_answer_only_for_their_variant() {
    let mut s = EntryType::String { value: "a".to_string() };
    s.as_string_mut().unwrap().push('b');
    assert_eq!(s.as_string(), Some("ab"));
    assert!(s.as_bool_mut().is_none());
    let mut b = EntryType::Bool { value: false };
    *b.as_bool_mut().unwrap() = true;
    assert_eq!(b.as_bool(), Some(true));
    assert!(b.as_enum_mut().is_none());
    let mut e = EntryType::Enum { value: 0, options: vec![EnumEntry::new("x", 0), EnumEntry::new("y", 1)] };
    *e.as_enum_mut().unwrap() = 1;
    assert_eq!(e.as_enum(), Some(1));
    let mut f = EntryType::Float { value: 0.5f64.to_bits(), min: None, max: None };
    *f.as_float_bits_mut().unwrap() = 0.75f64.to_bits();
    assert_eq!(f.as_float_bits(), Some(0.75f64.to_bits()));
    assert!(f.as_int_mut().is_none());
}

#[test]
fn iter_lists_each_key_once() {
    let mut c = Config::new();
    c.insert("b".to_string(), plain_int(2));
    c.insert("a".to_string(), plain_int(1));
    c.insert("b".to_string(), plain_int(3));
    let entries = c.iter();
    let mut keys: Vec<&str> = entries.iter().map(|(k, _)| k.as_str()).collect();
    keys.sort();
    assert_eq!(keys, vec!["a", "b"]);
    let b = entries.iter().find(|(k, _)| k == "b").unwrap();
    assert_eq!(b.1.as_int(), Some(3));
}

#[test]
fn default_store_is_empty() {
    let c = Config::default();
    assert!(c.empty());
    assert!(c.get("anything").is_none());
}
