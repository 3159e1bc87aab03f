use piscem::manifest::{quote, render_manifest, Component};

fn component(name: &str, version: &str) -> Component {
    Component { name: name.to_string(), version: version.to_string() }
}

#[test]
fn plain_text_is_put_between_quotation_marks() {
    assert_eq!(quote(""), "\"\"");
    assert_eq!(quote("0.7.3"), "\"0.7.3\"");
    assert_eq!(quote("piscem-cpp"), "\"piscem-cpp\"");
    assert_eq!(quote("späte Größe"), "\"späte Größe\"");
}

#[test]
fn quotation_marks_and_backslashes_are_escaped() {
    assert_eq!(quote("a\"b"), "\"a\\\"b\"");
    assert_eq!(quote("a\\b"), "\"a\\\\b\"");
    assert_eq!(quote("\"\\"), "\"\\\"\\\\\"");
}

#[test]
fn control_characters_are_written_by_number() {
    assert_eq!(quote("\n"), "\"\\u000a\"");
    assert_eq!(quote("a\tb"), "\"a\\u0009b\"");
    assert_eq!(quote("\0"), "\"\\u0000\"");
    assert_eq!(quote("\u{1f}"), "\"\\u001f\"");
    assert_eq!(quote(" "), "\" \"");
    assert_eq!(quote("\u{7f}"), "\"\u{7f}\"");
}

#[test]
fn a_manifest_names_each_component_with_its_version() {
    let components = vec![
        component("cuttlefish", "2.2.0"),
        component("piscem-cpp", "0.7.3"),
        component("piscem", "0.1.0"),
    ];
    assert_eq!(
        render_manifest(&components),
        "{\"cuttlefish\":\"2.2.0\",\"piscem-cpp\":\"0.7.3\",\"piscem\":\"0.1.0\"}"
    );
}

#[test]
fn a_manifest_of_nothing_is_an_empty_object() {
    assert_eq!(render_manifest(&vec![]), "{}");
}

#[test]
fn a_manifest_of_one_component_has_no_comma() {
    assert_eq!(render_manifest(&vec![component("piscem", "1")]), "{\"piscem\":\"1\"}");
}
