use fanwaave_desktop_core::config::{
    char_is_white_space, is_blank, ConfigError, ConfigValue, DesktopConfig, ParsedCommandLine,
};

fn s(text: &str) -> String {
    text.to_string()
}

fn parsed(
    unknown: Vec<&str>,
    errors: Vec<&str>,
    command: Vec<&str>,
    flags: Vec<(&str, &str)>,
) -> ParsedCommandLine {
    ParsedCommandLine {
        unknown_options: unknown.into_iter().map(s).collect(),
        errors: errors.into_iter().map(s).collect(),
        command: command.into_iter().map(s).collect(),
        provided_flags: flags.into_iter().map(|(k, v)| (s(k), s(v))).collect(),
    }
}

#[test]
fn unknown_option_is_refused_without_echoing_it() {
    let r = DesktopConfig::admit_command_line(parsed(
        vec!["--unknown=DO_NOT_ECHO_SENTINEL"],
        vec![],
        vec![],
        vec![],
    ));
    let error = r.expect_err("unknown option must fail");
    assert_eq!(error, ConfigError::UnknownOption);
    let message = error.message();
    assert_eq!(message, "unknown command-line option");
    assert!(!message.contains("DO_NOT_ECHO_SENTINEL"));
}

#[test]
fn unknown_option_takes_precedence_over_other_faults() {
    let r = DesktopConfig::admit_command_line(parsed(
        vec!["--x"],
        vec!["bad"],
        vec!["sub"],
        vec![("A", "1")],
    ));
    assert_eq!(r.err(), Some(ConfigError::UnknownOption));
    let r = DesktopConfig::admit_command_line(parsed(vec![], vec!["bad"], vec!["sub"], vec![]));
    assert_eq!(r.err(), Some(ConfigError::InvalidValue));
    let r = DesktopConfig::admit_command_line(parsed(vec![], vec![], vec!["sub"], vec![]));
    assert_eq!(r.err(), Some(ConfigError::SubcommandGiven));
}

#[test]
fn admitted_command_line_overrides_only_given_flags() {
    let r = DesktopConfig::admit_command_line(parsed(
        vec![],
        vec![],
        vec![],
        vec![("FANWAAVE_API_BASE", "https://argv.example"), ("FANWAAVE_API_BASE", "https://later.example")],
    ));
    let overrides = r.ok().expect("admitted");
    assert_eq!(overrides.len(), 1);
    assert_eq!(overrides.get(&s("FANWAAVE_API_BASE")), Some(&s("https://later.example")));
    let empty = DesktopConfig::admit_command_line(parsed(vec![], vec![], vec![], vec![]));
    assert_eq!(empty.ok().expect("admitted").len(), 0);
}

#[test]
fn url_binding_becomes_api_base() {
    let config = DesktopConfig::from_api_base_binding(Some(ConfigValue::Url(s("http://127.0.0.1:8080"))))
        .expect("config resolves");
    assert_eq!(config.api_base, "http://127.0.0.1:8080");
    assert_eq!(config, DesktopConfig { api_base: s("http://127.0.0.1:8080") });
}

#[test]
fn blank_or_non_url_binding_has_the_wrong_type() {
    let r = DesktopConfig::from_api_base_binding(Some(ConfigValue::Url(s(" \t\n"))));
    assert_eq!(r.err(), Some(ConfigError::ApiBaseWrongType));
    let r = DesktopConfig::from_api_base_binding(Some(ConfigValue::Url(s(""))));
    assert_eq!(r.err(), Some(ConfigError::ApiBaseWrongType));
    let r = DesktopConfig::from_api_base_binding(Some(ConfigValue::Other));
    assert_eq!(r.err(), Some(ConfigError::ApiBaseWrongType));
}

#[test]
fn missing_binding_is_unresolved() {
    let r = DesktopConfig::from_api_base_binding(None);
    let e = r.err().expect("unresolved");
    assert_eq!(e, ConfigError::ApiBaseUnresolved);
    assert_eq!(e.message(), "Fanwaave api_base_url binding is unresolved");
}

#[test]
fn messages_are_fixed_texts() {
    assert_eq!(ConfigError::ContractPathNotUtf8.message(), "flags-2-env contract path is not valid UTF-8");
    assert_eq!(ConfigError::ContractAuditFailed.message(), "flags-2-env configuration audit failed");
    assert_eq!(ConfigError::CommandLineParseFailed.message(), "flags-2-env parse failed");
    assert_eq!(ConfigError::InvalidValue.message(), "invalid command-line value");
    assert_eq!(ConfigError::SubcommandGiven.message(), "desktop executable does not accept subcommands");
    assert_eq!(ConfigError::DomainConfigParseFailed.message(), "Fanwaave configuration parse failed");
    assert_eq!(ConfigError::DomainResolutionFailed.message(), "Fanwaave configuration resolution failed");
    assert_eq!(ConfigError::ApiBaseWrongType.message(), "Fanwaave api_base_url binding has the wrong type");
}

#[test]
fn blank_agrees_with_trim() {
    for text in ["", " ", "\t\r\n", "\u{85}\u{a0}\u{3000}\u{2009}", " a ", "x", "\u{200b}", "\u{feff}"] {
        assert_eq!(is_blank(text), text.trim().is_empty(), "{:?}", text);
    }
    for code in 0u32..0x3100 {
        if let Some(c) = char::from_u32(code) {
            assert_eq!(char_is_white_space(c), c.is_whitespace(), "{:x}", code);
        }
    }
}
