use configurator::alias::{alias_from, generate_alias, get_alias, AliasDecision};

fn decision(alias: &str, persist: bool) -> AliasDecision {
    AliasDecision { alias: alias.to_string(), persist }
}

#[test]
fn generated_alias_is_prefixed_hex_of_eight_digits_or_more() {
    assert_eq!(generate_alias(0), "start9-0x00000000");
    assert_eq!(generate_alias(255), "start9-0x000000ff");
    assert_eq!(generate_alias(0xdead_beef), "start9-0xdeadbeef");
    assert_eq!(generate_alias(0x1_0000_0000), "start9-0x100000000");
    assert_eq!(generate_alias(u64::MAX), "start9-0xffffffffffffffff");
}

#[test]
fn configured_alias_wins_and_is_not_cached() {
    let d = alias_from(Some("mine".to_string()), Some("cached".to_string()), 1);
    assert_eq!(d, decision("mine", false));
    let d = alias_from(Some("mine".to_string()), None, 1);
    assert_eq!(d, decision("mine", false));
}

#[test]
fn cached_alias_is_reused() {
    let d = alias_from(None, Some("start9-0x0000002a".to_string()), 7);
    assert_eq!(d, decision("start9-0x0000002a", false));
}

#[test]
fn missing_alias_is_generated_and_cached() {
    let d = alias_from(None, None, 42);
    assert_eq!(d, decision("start9-0x0000002a", true));
}

#[test]
fn second_run_never_regenerates() {
    let first = get_alias(None, None);
    assert!(first.persist);
    assert!(first.alias.starts_with("start9-0x"));
    assert!(first.alias.len() >= "start9-0x".len() + 8);
    assert!(first.alias["start9-0x".len()..]
        .chars()
        .all(|c| c.is_ascii_digit() || ('a'..='f').contains(&c)));
    let second = get_alias(None, Some(first.alias.clone()));
    assert_eq!(second, decision(&first.alias, false));
    let third = get_alias(None, Some(second.alias.clone()));
    assert_eq!(third, second);
}

#[test]
fn get_alias_prefers_the_configuration() {
    assert_eq!(
        get_alias(Some("mine".to_string()), Some("cached".to_string())),
        decision("mine", false)
    );
}
