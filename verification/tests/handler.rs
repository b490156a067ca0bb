use std::collections::HashMap;

use textgen_hook::handler::LocalizedData;
use textgen_hook::handler::TextAction;
use textgen_hook::handler::choose_action;

fn utf16(s: &str) -> Vec<u16> {
    s.encode_utf16().collect()
}

fn empty_data() -> LocalizedData {
    LocalizedData {
        hashed_dict: HashMap::new(),
        localize_dict: Vec::new(),
        text_data_dict: Vec::new(),
    }
}

#[test]
fn hash_hit_substitutes_mapped_string() {
    let mut data = empty_data();
    data.hashed_dict.insert(77, String::from("translated"));
    let r = choose_action(&data, 77, &utf16("original"));
    match r {
        TextAction::Substitute(t) => assert_eq!(t, "translated"),
        _ => panic!("expected substitution"),
    }
}

#[test]
fn hash_hit_bypasses_templating_even_with_marker() {
    let mut data = empty_data();
    data.hashed_dict.insert(77, String::from("translated"));
    data.localize_dict
        .push((String::from("key"), String::from("value")));
    let r = choose_action(&data, 77, &utf16("$(nb)original"));
    assert!(matches!(r, TextAction::Substitute(_)));
}

#[test]
fn hash_miss_with_marker_and_loaded_dict_evaluates() {
    let mut data = empty_data();
    data.localize_dict
        .push((String::from("key"), String::from("value")));
    let r = choose_action(&data, 1, &utf16("hello $(nb)world"));
    assert!(matches!(r, TextAction::Evaluate));
}

#[test]
fn text_data_dict_alone_also_enables_templating() {
    let mut data = empty_data();
    data.text_data_dict
        .push((String::from("key"), String::from("value")));
    let r = choose_action(&data, 1, &utf16("$(scale 80)"));
    assert!(matches!(r, TextAction::Evaluate));
}

#[test]
fn markerless_string_passes_through() {
    let mut data = empty_data();
    data.localize_dict
        .push((String::from("key"), String::from("value")));
    let r = choose_action(&data, 1, &utf16("plain text"));
    assert!(matches!(r, TextAction::Passthrough));
}

#[test]
fn marker_without_loaded_dicts_passes_through() {
    let data = empty_data();
    let r = choose_action(&data, 1, &utf16("$(nb)text"));
    assert!(matches!(r, TextAction::Passthrough));
}

#[test]
fn empty_string_passes_through() {
    let data = empty_data();
    let r = choose_action(&data, 0, &utf16(""));
    assert!(matches!(r, TextAction::Passthrough));
}

#[test]
fn reevaluating_directive_free_output_is_noop() {
    // A template evaluation leaves directive-free output behind; feeding
    // that output through the handler again decides Passthrough both
    // times, so a second pass changes nothing.
    let mut data = empty_data();
    data.localize_dict
        .push((String::from("key"), String::from("value")));
    let evaluated = "hello world";
    let first = choose_action(&data, 2, &utf16(evaluated));
    assert!(matches!(first, TextAction::Passthrough));
    let second = choose_action(&data, 2, &utf16(evaluated));
    assert!(matches!(second, TextAction::Passthrough));
}

#[test]
fn hashed_entry_for_other_hash_does_not_fire() {
    let mut data = empty_data();
    data.hashed_dict.insert(77, String::from("translated"));
    let r = choose_action(&data, 78, &utf16("original"));
    assert!(matches!(r, TextAction::Passthrough));
}
