use pinentry::Pinentry;

fn assert_input_produces_output(input: Vec<&str>, output: Vec<&str>) -> Pinentry {
    let lines: Vec<String> = input.iter().map(|l| l.to_string()).collect();

    let mut pinentry = Pinentry::new();
    let written = pinentry.run(&lines);

    assert_eq!(output.join("\n") + "\n", written.join("\n") + "\n");

    pinentry
}

#[test]
fn bye_command_closes_connection() {
    let pinentry = assert_input_produces_output(
        vec!["BYE"],
        vec!["OK Pleased to meet you", "OK Closing connection"],
    );
    assert_eq!(pinentry.should_quit, true);
}

#[test]
fn setdesc_command_sets_description() {
    let pinentry = assert_input_produces_output(
        vec!["SETDESC Hello, world!", "BYE"],
        vec!["OK Pleased to meet you", "OK", "OK Closing connection"],
    );
    assert_eq!(pinentry.description, Some("Hello, world!".to_string()));
}

#[test]
fn settimeout_command_sets_timeout() {
    let pinentry = assert_input_produces_output(
        vec!["SETTIMEOUT 10", "BYE"],
        vec!["OK Pleased to meet you", "OK", "OK Closing connection"],
    );
    assert_eq!(pinentry.timeout, Some(10));
}

#[test]
fn setprompt_command_sets_prompt() {
    let pinentry = assert_input_produces_output(
        vec!["SETPROMPT Enter your password", "BYE"],
        vec!["OK Pleased to meet you", "OK", "OK Closing connection"],
    );
    assert_eq!(pinentry.prompt, Some("Enter your password".to_string()));
}

#[test]
fn settitle_command_sets_title() {
    let pinentry = assert_input_produces_output(
        vec!["SETTITLE Enter your password", "BYE"],
        vec!["OK Pleased to meet you", "OK", "OK Closing connection"],
    );
    assert_eq!(pinentry.title, Some("Enter your password".to_string()));
}

#[test]
fn setok_command_sets_ok_button() {
    let pinentry = assert_input_produces_output(
        vec!["SETOK OK", "BYE"],
        vec!["OK Pleased to meet you", "OK", "OK Closing connection"],
    );
    assert_eq!(pinentry.ok_button, Some("OK".to_string()));
}

#[test]
fn setcancel_command_sets_cancel_button() {
    let pinentry = assert_input_produces_output(
        vec!["SETCANCEL Cancel", "BYE"],
        vec!["OK Pleased to meet you", "OK", "OK Closing connection"],
    );
    assert_eq!(pinentry.cancel_button, Some("Cancel".to_string()));
}

#[test]
fn setnotok_command_sets_not_ok_button() {
    let pinentry = assert_input_produces_output(
        vec!["SETNOTOK Not OK", "BYE"],
        vec!["OK Pleased to meet you", "OK", "OK Closing connection"],
    );
    assert_eq!(pinentry.not_ok_button, Some("Not OK".to_string()));
}

#[test]
fn seterror_command_sets_error() {
    let pinentry = assert_input_produces_output(
        vec!["SETERROR Error message", "BYE"],
        vec!["OK Pleased to meet you", "OK", "OK Closing connection"],
    );
    assert_eq!(pinentry.error, Some("Error message".to_string()));
}

#[test]
fn setrepeat_command_sets_repeat() {
    let pinentry = assert_input_produces_output(
        vec!["SETREPEAT", "BYE"],
        vec!["OK Pleased to meet you", "OK", "OK Closing connection"],
    );
    assert_eq!(pinentry.repeat, true);
}

#[test]
fn setqualitybar_command_sets_quality_bar() {
    let pinentry = assert_input_produces_output(
        vec!["SETQUALITYBAR", "BYE"],
        vec!["OK Pleased to meet you", "OK", "OK Closing connection"],
    );
    assert_eq!(pinentry.quality_bar, true);
}

#[test]
fn setqualitybartooltip_command_sets_quality_bar_tooltip() {
    let pinentry = assert_input_produces_output(
        vec!["SETQUALITYBARTOOLTIP Tooltip", "BYE"],
        vec!["OK Pleased to meet you", "OK", "OK Closing connection"],
    );
    assert_eq!(pinentry.quality_bar_tooltip, Some("Tooltip".to_string()));
}

#[test]
fn setgenpin_command_sets_generate_pin() {
    let pinentry = assert_input_produces_output(
        vec!["SETGENPIN", "BYE"],
        vec!["OK Pleased to meet you", "OK", "OK Closing connection"],
    );
    assert_eq!(pinentry.generate_pin, true);
}

#[test]
fn setgenpintooltip_command_sets_generate_pin_tooltip() {
    let pinentry = assert_input_produces_output(
        vec!["SETGENPINTOOLTIP Tooltip", "BYE"],
        vec!["OK Pleased to meet you", "OK", "OK Closing connection"],
    );
    assert_eq!(pinentry.generate_pin_tooltip, Some("Tooltip".to_string()));
}

#[test]
fn setkeyinfo_command_sets_key_info() {
    let pinentry = assert_input_produces_output(
        vec!["SETKEYINFO Key info", "BYE"],
        vec!["OK Pleased to meet you", "OK", "OK Closing connection"],
    );
    assert_eq!(pinentry.key_info, Some("Key info".to_string()));
}

#[test]
fn reset_command_resets_all_fields() {
    let pinentry = assert_input_produces_output(
        vec![
            "SETDESC Hello, world!",
            "SETPROMPT Enter your password",
            "SETTITLE Enter your password",
            "SETOK OK",
            "SETCANCEL Cancel",
            "SETNOTOK Not OK",
            "SETERROR Error message",
            "SETREPEAT",
            "SETQUALITYBAR",
            "SETQUALITYBARTOOLTIP Tooltip",
            "SETGENPIN",
            "SETGENPINTOOLTIP Tooltip",
            "SETKEYINFO Key info",
            "RESET",
            "BYE",
        ],
        vec![
            "OK Pleased to meet you",
            "OK",
            "OK",
            "OK",
            "OK",
            "OK",
            "OK",
            "OK",
            "OK",
            "OK",
            "OK",
            "OK",
            "OK",
            "OK",
            "OK",
            "OK Closing connection",
        ],
    );

    assert_eq!(pinentry.description, None);
    assert_eq!(pinentry.prompt, None);
    assert_eq!(pinentry.title, None);
    assert_eq!(pinentry.ok_button, None);
    assert_eq!(pinentry.cancel_button, None);
    assert_eq!(pinentry.not_ok_button, None);
    assert_eq!(pinentry.error, None);
    assert_eq!(pinentry.repeat, false);
    assert_eq!(pinentry.quality_bar, false);
    assert_eq!(pinentry.quality_bar_tooltip, None);
    assert_eq!(pinentry.generate_pin, false);
    assert_eq!(pinentry.generate_pin_tooltip, None);
    assert_eq!(pinentry.key_info, None);
}

#[test]
fn unimplemented_command_returns_not_implemented_error() {
    assert_input_produces_output(
        vec!["CANCEL", "BYE"],
        vec![
            "OK Pleased to meet you",
            "ERR 536870981 Not implemented <User defined source 1>",
            "OK Closing connection",
        ],
    );
}

#[test]
fn unknown_command_returns_unknown_ipc_command_error() {
    assert_input_produces_output(
        vec!["FOO", "BYE"],
        vec![
            "OK Pleased to meet you",
            "ERR 536871187 Unknown IPC command <User defined source 1>",
            "OK Closing connection",
        ],
    );
}
