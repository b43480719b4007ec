use midi_cc_sender::{create_midi_cc_122_message, validate_midi_channel, validate_midi_value};

#[test]
fn test_midi_value_validation_comprehensive_errors() {
    let error_cases = vec![
        ("128", 0, "out of range"),
        ("129", 0, "out of range"),
        ("255", 0, "out of range"),
        ("256", 0, "Invalid value"),
        ("999", 0, "Invalid value"),
        ("18446744073709551615", 0, "Invalid value"),
        ("-1", 0, "Invalid value"),
        ("-128", 0, "Invalid value"),
        ("abc", 0, "Invalid value"),
        ("12.5", 0, "Invalid value"),
        ("0x40", 0, "Invalid value"),
        ("64e0", 0, "Invalid value"),
        ("!@#$", 0, "Invalid value"),
        ("", 0, ""),
        ("   ", 0, ""),
    ];

    for (input, expected_value, expected_keyword) in error_cases {
        let (value, warning) = validate_midi_value(input);
        assert_eq!(value, expected_value, "Value mismatch for input: '{}'", input);

        if expected_keyword.is_empty() {
            assert!(warning.is_none(), "Unexpected warning for input: '{}'", input);
        } else {
            assert!(warning.is_some(), "Expected warning for input: '{}'", input);
            let warning_msg = warning.unwrap();
            assert!(
                warning_msg.contains(expected_keyword),
                "Warning '{}' doesn't contain '{}' for input: '{}'",
                warning_msg,
                expected_keyword,
                input
            );
        }
    }
}

#[test]
fn test_midi_channel_validation_comprehensive_errors() {
    let error_cases = vec![
        ("16", 0, "out of range"),
        ("17", 0, "out of range"),
        ("255", 0, "out of range"),
        ("256", 0, "Invalid channel"),
        ("999", 0, "Invalid channel"),
        ("18446744073709551615", 0, "Invalid channel"),
        ("-1", 0, "Invalid channel"),
        ("-16", 0, "Invalid channel"),
        ("xyz", 0, "Invalid channel"),
        ("3.14", 0, "Invalid channel"),
        ("0xF", 0, "Invalid channel"),
        ("1e1", 0, "Invalid channel"),
        ("@#$%", 0, "Invalid channel"),
        ("", 0, ""),
        ("   ", 0, ""),
    ];

    for (input, expected_channel, expected_keyword) in error_cases {
        let (channel, warning) = validate_midi_channel(input);
        assert_eq!(channel, expected_channel, "Channel mismatch for input: '{}'", input);

        if expected_keyword.is_empty() {
            assert!(warning.is_none(), "Unexpected warning for input: '{}'", input);
        } else {
            assert!(warning.is_some(), "Expected warning for input: '{}'", input);
            let warning_msg = warning.unwrap();
            assert!(
                warning_msg.contains(expected_keyword),
                "Warning '{}' doesn't contain '{}' for input: '{}'",
                warning_msg,
                expected_keyword,
                input
            );
        }
    }
}

#[test]
fn test_midi_message_creation_error_boundaries() {
    assert!(create_midi_cc_122_message(127, 0).is_ok());
    assert!(create_midi_cc_122_message(128, 0).is_err());
    assert!(create_midi_cc_122_message(255, 0).is_err());

    assert!(create_midi_cc_122_message(0, 15).is_ok());
    assert!(create_midi_cc_122_message(0, 16).is_err());
    assert!(create_midi_cc_122_message(0, 255).is_err());

    assert!(create_midi_cc_122_message(128, 16).is_err());
    assert!(create_midi_cc_122_message(255, 255).is_err());
}

#[test]
fn test_error_message_content() {
    let value_error = create_midi_cc_122_message(128, 0).unwrap_err();
    assert!(value_error.message().contains("Invalid MIDI value"));
    assert!(value_error.message().contains("128"));
    assert!(value_error.message().contains("0-127"));

    let value_error_255 = create_midi_cc_122_message(255, 0).unwrap_err();
    assert!(value_error_255.message().contains("Invalid MIDI value"));
    assert!(value_error_255.message().contains("255"));

    let channel_error = create_midi_cc_122_message(0, 16).unwrap_err();
    assert!(channel_error.message().contains("Invalid MIDI channel"));
    assert!(channel_error.message().contains("16"));
    assert!(channel_error.message().contains("0-15"));

    let channel_error_255 = create_midi_cc_122_message(0, 255).unwrap_err();
    assert!(channel_error_255.message().contains("Invalid MIDI channel"));
    assert!(channel_error_255.message().contains("255"));
}

#[test]
fn test_validation_warning_message_content() {
    let (_, warning) = validate_midi_value("128");
    let warning_msg = warning.unwrap();
    assert!(warning_msg.contains("Warning"));
    assert!(warning_msg.contains("128"));
    assert!(warning_msg.contains("out of range"));
    assert!(warning_msg.contains("0-127"));
    assert!(warning_msg.contains("default value 0"));

    let (_, warning) = validate_midi_value("abc");
    let warning_msg = warning.unwrap();
    assert!(warning_msg.contains("Warning"));
    assert!(warning_msg.contains("Invalid value"));
    assert!(warning_msg.contains("abc"));
    assert!(warning_msg.contains("default value 0"));

    let (_, warning) = validate_midi_channel("16");
    let warning_msg = warning.unwrap();
    assert!(warning_msg.contains("Warning"));
    assert!(warning_msg.contains("16"));
    assert!(warning_msg.contains("out of range"));
    assert!(warning_msg.contains("0-15"));
    assert!(warning_msg.contains("default channel 0"));

    let (_, warning) = validate_midi_channel("xyz");
    let warning_msg = warning.unwrap();
    assert!(warning_msg.contains("Warning"));
    assert!(warning_msg.contains("Invalid channel"));
    assert!(warning_msg.contains("xyz"));
    assert!(warning_msg.contains("default channel 0"));
}

#[test]
fn test_unicode_and_special_character_handling() {
    let special_inputs = vec![
        "🎵",
        "½",
        "∞",
        "π",
        "中文",
        "العربية",
        "русский",
        "\n64\n",
        "\t127\t",
        "\r\n0\r\n",
    ];

    for input in special_inputs {
        let (value, warning) = validate_midi_value(input);
        if input.trim().chars().all(|c| c.is_ascii_digit()) {
            let expected_val: u8 = input.trim().parse().unwrap_or(0);
            if expected_val <= 127 {
                assert_eq!(value, expected_val, "Failed for input: '{}'", input);
                assert!(warning.is_none(), "Unexpected warning for valid input: '{}'", input);
            } else {
                assert_eq!(value, 0, "Should default to 0 for out of range: '{}'", input);
                assert!(warning.is_some(), "Expected warning for out of range: '{}'", input);
            }
        } else {
            assert_eq!(value, 0, "Should default to 0 for special input: '{}'", input);
            assert!(warning.is_some(), "Expected warning for special input: '{}'", input);
        }
    }
}

#[test]
fn test_memory_safety_with_large_inputs() {
    let large_string = "9".repeat(1000);
    let (value, warning) = validate_midi_value(&large_string);
    assert_eq!(value, 0);
    assert!(warning.is_some());
    assert!(warning.unwrap().contains("Invalid value"));

    let large_text = "a".repeat(1000);
    let (value, warning) = validate_midi_value(&large_text);
    assert_eq!(value, 0);
    assert!(warning.is_some());
    assert!(warning.unwrap().contains("Invalid value"));
}
