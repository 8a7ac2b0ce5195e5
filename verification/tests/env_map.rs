use fanwaave_desktop_core::env_map::EnvMap;

fn s(text: &str) -> String {
    text.to_string()
}

#[test]
fn insert_then_get_reads_the_value() {
    let mut m = EnvMap::new();
    assert_eq!(m.len(), 0);
    m.insert(s("FANWAAVE_API_BASE"), s("https://a.example"));
    m.insert(s("OTHER"), s("x"));
    assert_eq!(m.get(&s("FANWAAVE_API_BASE")), Some(&s("https://a.example")));
    assert_eq!(m.get(&s("OTHER")), Some(&s("x")));
    assert_eq!(m.get(&s("MISSING")), None);
    assert_eq!(m.len(), 2);
}

#[test]
fn insert_replaces_previous_value() {
    let mut m = EnvMap::new();
    m.insert(s("K"), s("1"));
    m.insert(s("K"), s("2"));
    assert_eq!(m.get(&s("K")), Some(&s("2")));
    assert_eq!(m.len(), 1);
}

#[test]
fn from_pairs_keeps_the_last_value_of_each_name() {
    let m = EnvMap::from_pairs(vec![(s("A"), s("1")), (s("B"), s("2")), (s("A"), s("3"))]);
    assert_eq!(m.len(), 2);
    assert_eq!(m.get(&s("A")), Some(&s("3")));
    assert_eq!(m.get(&s("B")), Some(&s("2")));
    let mut pairs = m.into_pairs();
    pairs.sort();
    assert_eq!(pairs, vec![(s("A"), s("3")), (s("B"), s("2"))]);
}
