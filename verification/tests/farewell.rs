use farewell::Farewell;

/// Checks the full shape `Goodbye, {subject} ({n})!` and returns the parsed tag.
fn shape_tag(subject: &str, out: &str) -> u32 {
    let prefix = format!("Goodbye, {} (", subject);
    assert!(out.starts_with(&prefix), "bad prefix: {:?}", out);
    assert!(out.ends_with(")!"), "bad suffix: {:?}", out);
    let digits = &out[prefix.len()..out.len() - 2];
    let tag: u32 = digits.parse().expect("tag must be numeric");
    assert!(tag <= 255, "tag out of range: {}", tag);
    tag
}

#[test]
fn test_farewell() {
    let farewell = Farewell::new("Pineapple");
    assert!(farewell.say().starts_with("Goodbye, Pineapple "));
}

#[test]
fn message_with_exact_values() {
    let f = Farewell::new("Pineapple");
    assert_eq!(f.message_with(173), "Goodbye, Pineapple (173)!");
    let g = Farewell::new("Bob");
    assert_eq!(g.message_with(0), "Goodbye, Bob (0)!");
    assert_eq!(g.message_with(9), "Goodbye, Bob (9)!");
    assert_eq!(g.message_with(10), "Goodbye, Bob (10)!");
    assert_eq!(g.message_with(255), "Goodbye, Bob (255)!");
}

#[test]
fn say_has_prefix_subject_and_open_paren() {
    for subject in ["Pineapple", "", "two words", "Ünïcøde"] {
        let f = Farewell::new(subject);
        shape_tag(subject, &f.say());
    }
}

#[test]
fn say_tag_parses_back_in_range() {
    let f = Farewell::new("Range");
    for _ in 0..50 {
        shape_tag("Range", &f.say());
    }
}

#[test]
fn say_suffix_is_close_paren_bang() {
    let f = Farewell::new("Suffix");
    assert!(f.say().ends_with(")!"));
}

#[test]
fn say_twice_both_outputs_well_formed() {
    let f = Farewell::new("Twice");
    let first = f.say();
    let second = f.say();
    shape_tag("Twice", &first);
    shape_tag("Twice", &second);
}

#[test]
fn pineapple_scenario() {
    let f = Farewell::new("Pineapple");
    shape_tag("Pineapple", &f.say());
}

#[test]
fn empty_subject_scenario() {
    let f = Farewell::new("");
    let out = f.say();
    assert!(out.starts_with("Goodbye,  ("), "expected double space: {:?}", out);
    shape_tag("", &out);
}
