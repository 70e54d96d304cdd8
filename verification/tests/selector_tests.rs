use fho::selector::validate_selector;

#[test]
fn selectors_with_two_or_three_sections_are_valid() {
    assert!(validate_selector("core/remote-control:expose:fuchsia.developer.RemoteControl"));
    assert!(validate_selector("core/appmgr:out"));
    assert!(validate_selector("a:b"));
    assert!(validate_selector("core/selector/thing:root/branch:prop_1"));
    assert!(validate_selector("bootstrap/*:out:fuchsia.Something"));
}

#[test]
fn selectors_without_a_colon_are_invalid() {
    assert!(!validate_selector(""));
    assert!(!validate_selector("nocolon"));
    assert!(!validate_selector("core/appmgr"));
}

#[test]
fn selectors_with_too_many_sections_are_invalid() {
    assert!(!validate_selector("a:b:c:d"));
}

#[test]
fn selectors_with_empty_segments_are_invalid() {
    assert!(!validate_selector(":a:b"));
    assert!(!validate_selector("a:b:"));
    assert!(!validate_selector("a::b"));
    assert!(!validate_selector("a//b:c"));
    assert!(!validate_selector("a/:b"));
    assert!(!validate_selector("a:/b"));
    assert!(!validate_selector("/a:b"));
    assert!(!validate_selector("a/b/:c"));
}

#[test]
fn selectors_with_forbidden_characters_are_invalid() {
    assert!(!validate_selector("a b:c"));
    assert!(!validate_selector("a:b:c!"));
    assert!(!validate_selector("a\n:b"));
}
