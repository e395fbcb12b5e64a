use serve::redirect::{redirect, redirect_mode, RedirectAction, RedirectMode};

fn location_of(action: &RedirectAction) -> &[u8] {
    match action {
        RedirectAction::Redirect(loc) => loc.as_slice(),
        RedirectAction::BadRequest => panic!("expected a redirect, got 400"),
    }
}

#[test]
fn redirects_path_and_query_to_https() {
    let action = redirect(Some(b"example.com:80".as_slice()), Some(b"/a/b?x=1".as_slice()));
    assert_eq!(action.status(), 301);
    assert_eq!(location_of(&action), b"https://example.com:443/a/b?x=1".as_slice());
}

#[test]
fn missing_host_is_bad_request_without_location() {
    let action = redirect(None, Some(b"/a".as_slice()));
    assert_eq!(action.status(), 400);
    assert!(matches!(action, RedirectAction::BadRequest));
}

#[test]
fn absent_target_defaults_to_slash() {
    let action = redirect(Some(b"example.com:80".as_slice()), None);
    assert_eq!(location_of(&action), b"https://example.com:443/".as_slice());
}

#[test]
fn empty_target_defaults_to_slash() {
    let action = redirect(Some(b"example.com:80".as_slice()), Some(b"".as_slice()));
    assert_eq!(location_of(&action), b"https://example.com:443/".as_slice());
}

#[test]
fn asterisk_target_defaults_to_slash() {
    let action = redirect(Some(b"example.com:80".as_slice()), Some(b"*".as_slice()));
    assert_eq!(location_of(&action), b"https://example.com:443/".as_slice());
}

#[test]
fn host_that_is_not_header_text_is_bad_request() {
    let action = redirect(Some(b"exam\x00ple.com".as_slice()), Some(b"/".as_slice()));
    assert_eq!(action.status(), 400);
    let action = redirect(Some(&[101u8, 200u8, 50u8]), Some(b"/".as_slice()));
    assert_eq!(action.status(), 400);
}

#[test]
fn host_that_is_no_authority_is_bad_request() {
    // A space is valid header text but can never appear in a URI authority.
    let action = redirect(Some(b"exa mple.com".as_slice()), Some(b"/".as_slice()));
    assert_eq!(action.status(), 400);
    // An empty Host header is no authority either.
    let action = redirect(Some(b"".as_slice()), Some(b"/".as_slice()));
    assert_eq!(action.status(), 400);
}

#[test]
fn host_without_port_is_kept_as_is() {
    let action = redirect(Some(b"example.com".as_slice()), Some(b"/x".as_slice()));
    assert_eq!(location_of(&action), b"https://example.com/x".as_slice());
}

#[test]
fn port_rewrite_is_a_literal_substring_replace() {
    // The digits 80 inside the host name are rewritten too: the observed
    // behaviour of the substring replacement, kept as is.
    let action = redirect(Some(b"host80.example.com:80".as_slice()), Some(b"/".as_slice()));
    assert_eq!(location_of(&action), b"https://host443.example.com:443/".as_slice());
}

#[test]
fn ipv6_host_keeps_its_brackets() {
    let action = redirect(Some(b"[2001:db8::1]:80".as_slice()), Some(b"/".as_slice()));
    assert_eq!(location_of(&action), b"https://[2001:db8::1]:443/".as_slice());
}

#[test]
fn redirect_mode_active_only_on_canonical_https_port() {
    assert_eq!(redirect_mode(true, 443), RedirectMode::Active);
    assert_eq!(redirect_mode(true, 8443), RedirectMode::MisconfiguredPort);
    assert_eq!(redirect_mode(true, 3000), RedirectMode::MisconfiguredPort);
    assert_eq!(redirect_mode(false, 443), RedirectMode::Disabled);
    assert_eq!(redirect_mode(false, 8443), RedirectMode::Disabled);
}
