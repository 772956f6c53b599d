use synaptic::redactor::SecretSet;

fn strings(values: &[&str]) -> Vec<String> {
    values.iter().map(|v| v.to_string()).collect()
}

fn set_of(values: &[&str]) -> SecretSet {
    let mut set = SecretSet::new();
    set.register(strings(values));
    set
}

#[test]
fn registered_secret_is_redacted() {
    let set = set_of(&["s3cr3t"]);
    assert_eq!(set.redact("token=s3cr3t"), "token=[REDACTED]");
}

#[test]
fn redaction_is_idempotent_on_examples() {
    let set = set_of(&["s3cr3t", "hunter2", "sk-ABCDEF"]);
    for text in [
        "token=s3cr3t",
        "s3cr3ts3cr3t",
        "nothing here",
        "",
        "hunter2 and s3cr3t and sk-ABCDEF",
        "[REDACTED]",
        "xs3cr3",
    ] {
        let once = set.redact(text);
        let twice = set.redact(&once);
        assert_eq!(once, twice, "{text}");
        assert!(!once.contains("s3cr3t"));
        assert!(!once.contains("hunter2"));
        assert!(!once.contains("sk-ABCDEF"));
    }
}

#[test]
fn a_secret_that_is_part_of_the_marker_breaks_idempotence() {
    let set = set_of(&["E"]);
    let once = set.redact("E");
    assert_eq!(once, "[REDACTED]");
    let twice = set.redact(&once);
    assert_eq!(twice, "[R[REDACTED]DACT[REDACTED]D]");
}

#[test]
fn every_occurrence_is_replaced_left_to_right() {
    let set = set_of(&["aa"]);
    assert_eq!(set.redact("aaa"), "[REDACTED]a");
    assert_eq!(set.redact("aaaa"), "[REDACTED][REDACTED]");
    assert_eq!(set.redact("baab"), "b[REDACTED]b");
    assert_eq!(set.redact("a"), "a");
}

#[test]
fn secrets_apply_in_registration_order() {
    let first = set_of(&["abc", "b"]);
    assert_eq!(first.redact("abc"), "[REDACTED]");
    let second = set_of(&["b", "abc"]);
    assert_eq!(second.redact("abc"), "a[REDACTED]c");
}

#[test]
fn empty_values_and_duplicates_are_ignored() {
    let mut set = set_of(&["", "one", "one", "", "two"]);
    assert_eq!(set.len(), 2);
    assert_eq!(set.to_vec(), strings(&["one", "two"]));
    set.register(strings(&["two", "three", ""]));
    assert_eq!(set.to_vec(), strings(&["one", "two", "three"]));
    assert!(set.contains("three"));
    assert!(!set.contains(""));
    assert!(!set.contains("four"));
}

#[test]
fn an_empty_set_changes_nothing() {
    let set = SecretSet::new();
    assert_eq!(set.len(), 0);
    assert_eq!(set.redact("token=s3cr3t"), "token=s3cr3t");
    assert_eq!(set.redact(""), "");
}

#[test]
fn register_value_appends_once() {
    let mut set = SecretSet::new();
    set.register_value("k".to_string());
    set.register_value("k".to_string());
    set.register_value(String::new());
    assert_eq!(set.to_vec(), strings(&["k"]));
}

#[test]
fn a_snapshot_does_not_see_later_secrets() {
    let mut set = set_of(&["alpha"]);
    let early = set.snapshot();
    set.register(strings(&["beta"]));
    let late = set.snapshot();
    assert_eq!(early.redact("alpha beta"), "[REDACTED] beta");
    assert_eq!(late.redact("alpha beta"), "[REDACTED] [REDACTED]");
    assert_eq!(early.len(), 1);
    assert_eq!(late.len(), 2);
}

#[test]
fn text_beyond_ascii_is_handled_by_character() {
    let set = set_of(&["pässwörd"]);
    assert_eq!(set.redact("x=pässwörd;ü"), "x=[REDACTED];ü");
}
