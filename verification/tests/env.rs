use rust_runner::env::EnvMap;

fn map_of(pairs: &[(&str, &str)]) -> EnvMap {
    let mut m = EnvMap::new();
    for (k, v) in pairs {
        m.insert(k.to_string(), v.to_string());
    }
    m
}

fn pairs_of(m: &EnvMap) -> Vec<(String, String)> {
    m.to_pairs()
}

fn owned(pairs: &[(&str, &str)]) -> Vec<(String, String)> {
    pairs.iter().map(|(k, v)| (k.to_string(), v.to_string())).collect()
}

#[test]
fn new_map_is_empty() {
    let m = EnvMap::new();
    assert_eq!(m.len(), 0);
    assert!(m.is_empty());
    assert!(m.entry(0).is_none());
    assert!(m.get(&"A".to_string()).is_none());
    assert!(!m.contains_key(&"A".to_string()));
}

#[test]
fn insert_keeps_the_order_of_arrival() {
    let m = map_of(&[("B", "2"), ("A", "1"), ("C", "3")]);
    assert_eq!(pairs_of(&m), owned(&[("B", "2"), ("A", "1"), ("C", "3")]));
    assert_eq!(m.len(), 3);
    assert!(!m.is_empty());
}

#[test]
fn insert_of_a_bound_name_replaces_the_value_in_place() {
    let m = map_of(&[("B", "2"), ("A", "1"), ("B", "9")]);
    assert_eq!(pairs_of(&m), owned(&[("B", "9"), ("A", "1")]));
    assert_eq!(m.get(&"B".to_string()), Some(&"9".to_string()));
}

#[test]
fn get_and_contains_key_find_what_was_inserted() {
    let m = map_of(&[("PATH", "/bin"), ("HOME", "/root")]);
    assert_eq!(m.get(&"HOME".to_string()), Some(&"/root".to_string()));
    assert!(m.contains_key(&"PATH".to_string()));
    assert!(!m.contains_key(&"path".to_string()));
    assert_eq!(m.get(&"".to_string()), None);
}

#[test]
fn entry_walks_in_order_and_ends() {
    let m = map_of(&[("X", "1"), ("Y", "2")]);
    let (k0, v0) = m.entry(0).unwrap();
    assert_eq!((k0.as_str(), v0.as_str()), ("X", "1"));
    let (k1, v1) = m.entry(1).unwrap();
    assert_eq!((k1.as_str(), v1.as_str()), ("Y", "2"));
    assert!(m.entry(2).is_none());
    assert!(m.entry(usize::MAX).is_none());
}

#[test]
fn clone_has_the_same_pairs() {
    let m = map_of(&[("X", "1"), ("Y", "2")]);
    let mut c = m.clone();
    assert_eq!(pairs_of(&c), pairs_of(&m));
    c.insert("X".to_string(), "changed".to_string());
    assert_eq!(m.get(&"X".to_string()), Some(&"1".to_string()));
}

#[test]
fn layered_prefers_the_upper_layer() {
    let base = map_of(&[("A", "base"), ("B", "base")]);
    let over = map_of(&[("B", "over"), ("C", "over")]);
    let out = base.layered(&over);
    assert_eq!(pairs_of(&out), owned(&[("A", "base"), ("B", "over"), ("C", "over")]));
    assert_eq!(pairs_of(&base), owned(&[("A", "base"), ("B", "base")]));
}

#[test]
fn three_layers_operation_over_step_over_ambient() {
    let ambient = map_of(&[("ONLY_AMBIENT", "a"), ("AMBIENT_STEP", "a"), ("ALL", "a"), ("AMBIENT_OP", "a")]);
    let step = map_of(&[("AMBIENT_STEP", "s"), ("ALL", "s"), ("STEP_OP", "s"), ("ONLY_STEP", "s")]);
    let op = map_of(&[("ALL", "o"), ("AMBIENT_OP", "o"), ("STEP_OP", "o"), ("ONLY_OP", "o")]);
    let env = ambient.layered(&step).layered(&op);
    let value = |k: &str| env.get(&k.to_string()).cloned();
    assert_eq!(value("ONLY_AMBIENT"), Some("a".to_string()));
    assert_eq!(value("AMBIENT_STEP"), Some("s".to_string()));
    assert_eq!(value("ONLY_STEP"), Some("s".to_string()));
    assert_eq!(value("ALL"), Some("o".to_string()));
    assert_eq!(value("AMBIENT_OP"), Some("o".to_string()));
    assert_eq!(value("STEP_OP"), Some("o".to_string()));
    assert_eq!(value("ONLY_OP"), Some("o".to_string()));
    assert_eq!(value("NOWHERE"), None);
    assert_eq!(env.len(), 7);
}

#[test]
fn layering_with_empty_layers_changes_nothing() {
    let base = map_of(&[("A", "1")]);
    let out = base.layered(&EnvMap::new()).layered(&EnvMap::new());
    assert_eq!(pairs_of(&out), owned(&[("A", "1")]));
    let out = EnvMap::new().layered(&base);
    assert_eq!(pairs_of(&out), owned(&[("A", "1")]));
}
