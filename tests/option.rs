use pinentry::option::PinentryOption;

#[test]
fn parses_formatted_passphrase_option() {
    assert_eq!(
        PinentryOption::parse("formatted-passphrase"),
        PinentryOption::FormattedPassphrase
    );
}

#[test]
fn parses_formatted_passphrase_hint_option() {
    assert_eq!(
        PinentryOption::parse("formatted-passphrase-hint=test"),
        PinentryOption::FormattedPassphraseHint("test".to_string())
    );
    assert_eq!(
        PinentryOption::parse("formatted-passphrase-hint="),
        PinentryOption::FormattedPassphraseHint("".to_string())
    );
    assert_eq!(
        PinentryOption::parse("formatted-passphrase-hint"),
        PinentryOption::FormattedPassphraseHint("".to_string())
    );
}

#[test]
fn parses_ttytype_option() {
    assert_eq!(
        PinentryOption::parse("ttytype=test"),
        PinentryOption::TtyType("test".to_string())
    );
    assert_eq!(
        PinentryOption::parse("ttytype="),
        PinentryOption::TtyType("".to_string())
    );
    assert_eq!(
        PinentryOption::parse("ttytype"),
        PinentryOption::TtyType("".to_string())
    );
}

#[test]
fn parses_ttyname_option() {
    assert_eq!(
        PinentryOption::parse("ttyname=test"),
        PinentryOption::TtYName("test".to_string())
    );
    assert_eq!(
        PinentryOption::parse("ttyname="),
        PinentryOption::TtYName("".to_string())
    );
    assert_eq!(
        PinentryOption::parse("ttyname"),
        PinentryOption::TtYName("".to_string())
    );
}

#[test]
fn parses_lc_ctype_option() {
    assert_eq!(
        PinentryOption::parse("lc-ctype=test"),
        PinentryOption::LccType("test".to_string())
    );
    assert_eq!(
        PinentryOption::parse("lc-ctype="),
        PinentryOption::LccType("".to_string())
    );
    assert_eq!(
        PinentryOption::parse("lc-ctype"),
        PinentryOption::LccType("".to_string())
    );
}

#[test]
fn parses_default_ok_option() {
    assert_eq!(
        PinentryOption::parse("default-ok=test"),
        PinentryOption::DefaultOk("test".to_string())
    );
    assert_eq!(
        PinentryOption::parse("default-ok="),
        PinentryOption::DefaultOk("".to_string())
    );
    assert_eq!(
        PinentryOption::parse("default-ok"),
        PinentryOption::DefaultOk("".to_string())
    );
}

#[test]
fn parses_default_cancel_option() {
    assert_eq!(
        PinentryOption::parse("default-cancel=test"),
        PinentryOption::DefaultCancel("test".to_string())
    );
    assert_eq!(
        PinentryOption::parse("default-cancel="),
        PinentryOption::DefaultCancel("".to_string())
    );
    assert_eq!(
        PinentryOption::parse("default-cancel"),
        PinentryOption::DefaultCancel("".to_string())
    );
}

#[test]
fn parses_default_prompt_option() {
    assert_eq!(
        PinentryOption::parse("default-prompt=test"),
        PinentryOption::DefaultPrompt("test".to_string())
    );
    assert_eq!(
        PinentryOption::parse("default-prompt="),
        PinentryOption::DefaultPrompt("".to_string())
    );
    assert_eq!(
        PinentryOption::parse("default-prompt"),
        PinentryOption::DefaultPrompt("".to_string())
    );
}

#[test]
fn parses_allow_external_password_cache_option() {
    assert_eq!(
        PinentryOption::parse("allow-external-password-cache"),
        PinentryOption::AllowExternalPasswordCache
    );
}

#[test]
fn returns_unknown_option_for_anything_else() {
    assert_eq!(PinentryOption::parse("foo"), PinentryOption::UnknownOption);
    assert_eq!(PinentryOption::parse(""), PinentryOption::UnknownOption);
}
