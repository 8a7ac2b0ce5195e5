//! Admission rules of the desktop configuration: what the command line may hold,
//! and how the resolved `api_base_url` binding becomes the desktop's API base.
//!
//! The command-line parser and the Fanwaave domain-configuration resolver are
//! separate components; this module decides on what they report. Precedence of
//! the resolved value is argv > environment > domain default: only the flags
//! the user actually gave on the command line become overrides.
use crate::env_map::{pairs_map, EnvMap};
use vstd::prelude::*;

verus! {

/// The configuration of the desktop application.
#[derive(Clone, Debug)]
pub struct DesktopConfig {
    pub api_base: String,
}

impl PartialEq for DesktopConfig {
    fn eq(&self, other: &Self) -> (r: bool) {
        self.api_base == other.api_base
    }
}

impl vstd::std_specs::cmp::PartialEqSpecImpl for DesktopConfig {
    open spec fn obeys_eq_spec() -> bool {
        true
    }

    open spec fn eq_spec(&self, other: &Self) -> bool {
        self.api_base@ == other.api_base@
    }
}

impl Eq for DesktopConfig {}

/// What the command-line parser reports for argv, as far as admission reads it.
pub struct ParsedCommandLine {
    /// Options that the command-line contract does not declare.
    pub unknown_options: Vec<String>,
    /// Values that the contract's types rejected.
    pub errors: Vec<String>,
    /// Subcommand words, if any were given.
    pub command: Vec<String>,
    /// The (variable, value) pairs of the flags given on argv, in argv order;
    /// contract defaults are not among them.
    pub provided_flags: Vec<(String, String)>,
}

/// A resolved domain-configuration value, as far as admission reads it.
#[derive(Clone, Debug)]
pub enum ConfigValue {
    /// A value of URL type, with its text.
    Url(String),
    /// A value of any other type.
    Other,
}

/// Why the desktop configuration could not be built. No variant carries any
/// text of the input, so no message echoes what the user typed.
#[derive(Clone, Copy, Debug, PartialEq, Eq, Structural)]
pub enum ConfigError {
    ContractPathNotUtf8,
    ContractAuditFailed,
    CommandLineParseFailed,
    UnknownOption,
    InvalidValue,
    SubcommandGiven,
    DomainConfigParseFailed,
    DomainResolutionFailed,
    ApiBaseWrongType,
    ApiBaseUnresolved,
}

/// The message that reports `e`.
pub open spec fn error_message(e: ConfigError) -> Seq<char> {
    match e {
        ConfigError::ContractPathNotUtf8 => "flags-2-env contract path is not valid UTF-8"@,
        ConfigError::ContractAuditFailed => "flags-2-env configuration audit failed"@,
        ConfigError::CommandLineParseFailed => "flags-2-env parse failed"@,
        ConfigError::UnknownOption => "unknown command-line option"@,
        ConfigError::InvalidValue => "invalid command-line value"@,
        ConfigError::SubcommandGiven => "desktop executable does not accept subcommands"@,
        ConfigError::DomainConfigParseFailed => "Fanwaave configuration parse failed"@,
        ConfigError::DomainResolutionFailed => "Fanwaave configuration resolution failed"@,
        ConfigError::ApiBaseWrongType => "Fanwaave api_base_url binding has the wrong type"@,
        ConfigError::ApiBaseUnresolved => "Fanwaave api_base_url binding is unresolved"@,
    }
}

impl ConfigError {
    /// The message that reports this error.
    pub fn message(&self) -> (m: String)
        ensures
            m@ == error_message(*self),
    {
        match self {
            ConfigError::ContractPathNotUtf8 => "flags-2-env contract path is not valid UTF-8".to_owned(),
            ConfigError::ContractAuditFailed => "flags-2-env configuration audit failed".to_owned(),
            ConfigError::CommandLineParseFailed => "flags-2-env parse failed".to_owned(),
            ConfigError::UnknownOption => "unknown command-line option".to_owned(),
            ConfigError::InvalidValue => "invalid command-line value".to_owned(),
            ConfigError::SubcommandGiven => "desktop executable does not accept subcommands".to_owned(),
            ConfigError::DomainConfigParseFailed => "Fanwaave configuration parse failed".to_owned(),
            ConfigError::DomainResolutionFailed => "Fanwaave configuration resolution failed".to_owned(),
            ConfigError::ApiBaseWrongType => "Fanwaave api_base_url binding has the wrong type".to_owned(),
            ConfigError::ApiBaseUnresolved => "Fanwaave api_base_url binding is unresolved".to_owned(),
        }
    }
}

/// Unicode `White_Space`, the set that `char::is_whitespace` and `str::trim` use.
pub open spec fn is_white_space(c: char) -> bool {
    let u = c as u32;
    ||| 0x9 <= u <= 0xD
    ||| u == 0x20
    ||| u == 0x85
    ||| u == 0xA0
    ||| u == 0x1680
    ||| 0x2000 <= u <= 0x200A
    ||| u == 0x2028
    ||| u == 0x2029
    ||| u == 0x202F
    ||| u == 0x205F
    ||| u == 0x3000
}

/// `s` is empty once trimmed: every character of it is white space.
pub open spec fn is_blank_text(s: Seq<char>) -> bool {
    forall|i: int| 0 <= i < s.len() ==> is_white_space(#[trigger] s[i])
}

/// Whether `c` is Unicode white space.
pub fn char_is_white_space(c: char) -> (r: bool)
    ensures
        r == is_white_space(c),
{
    let u = c as u32;
    (0x9 <= u && u <= 0xD) || u == 0x20 || u == 0x85 || u == 0xA0 || u == 0x1680 || (0x2000 <= u
        && u <= 0x200A) || u == 0x2028 || u == 0x2029 || u == 0x202F || u == 0x205F || u == 0x3000
}

/// Whether `s` trims to the empty string.
pub fn is_blank(s: &str) -> (r: bool)
    ensures
        r == is_blank_text(s@),
{
    let n = s.unicode_len();
    let mut i: usize = 0;
    while i < n
        invariant
            n == s@.len(),
            i <= n,
            forall|j: int| 0 <= j < i ==> is_white_space(#[trigger] s@[j]),
        decreases n - i,
    {
        if !char_is_white_space(s.get_char(i)) {
            return false;
        }
        i = i + 1;
    }
    true
}

/// The admission verdict on a parsed command line: unknown options first, then
/// invalid values, then subcommands; otherwise the argv overrides, where a later
/// flag for a variable replaces an earlier one.
pub open spec fn command_line_verdict(
    unknown_options: Seq<String>,
    errors: Seq<String>,
    command: Seq<String>,
    provided_flags: Seq<(String, String)>,
) -> Result<Map<Seq<char>, Seq<char>>, ConfigError> {
    if unknown_options.len() != 0 {
        Err(ConfigError::UnknownOption)
    } else if errors.len() != 0 {
        Err(ConfigError::InvalidValue)
    } else if command.len() != 0 {
        Err(ConfigError::SubcommandGiven)
    } else {
        Ok(pairs_map(provided_flags))
    }
}

/// The desktop configuration that the resolved `api_base_url` binding yields.
pub open spec fn api_base_verdict(binding: Option<ConfigValue>) -> Result<Seq<char>, ConfigError> {
    match binding {
        Some(ConfigValue::Url(value)) => if is_blank_text(value@) {
            Err(ConfigError::ApiBaseWrongType)
        } else {
            Ok(value@)
        },
        Some(ConfigValue::Other) => Err(ConfigError::ApiBaseWrongType),
        None => Err(ConfigError::ApiBaseUnresolved),
    }
}

impl DesktopConfig {
    /// Admits a parsed command line and returns the overrides it gives: the
    /// desktop accepts no unknown option, no invalid value and no subcommand.
    pub fn admit_command_line(parsed: ParsedCommandLine) -> (r: Result<EnvMap, ConfigError>)
        ensures
            match r {
                Ok(overrides) => command_line_verdict(
                    parsed.unknown_options@,
                    parsed.errors@,
                    parsed.command@,
                    parsed.provided_flags@,
                ) == Ok::<Map<Seq<char>, Seq<char>>, ConfigError>(overrides@),
                Err(e) => command_line_verdict(
                    parsed.unknown_options@,
                    parsed.errors@,
                    parsed.command@,
                    parsed.provided_flags@,
                ) == Err::<Map<Seq<char>, Seq<char>>, ConfigError>(e),
            },
    {
        if parsed.unknown_options.len() != 0 {
            return Err(ConfigError::UnknownOption);
        }
        if parsed.errors.len() != 0 {
            return Err(ConfigError::InvalidValue);
        }
        if parsed.command.len() != 0 {
            return Err(ConfigError::SubcommandGiven);
        }
        Ok(EnvMap::from_pairs(parsed.provided_flags))
    }

    /// Builds the configuration from the resolved `api_base_url` binding: a URL
    /// value that is not blank becomes the API base, unchanged.
    pub fn from_api_base_binding(binding: Option<ConfigValue>) -> (r: Result<DesktopConfig, ConfigError>)
        ensures
            match r {
                Ok(config) => api_base_verdict(binding) == Ok::<Seq<char>, ConfigError>(config.api_base@),
                Err(e) => api_base_verdict(binding) == Err::<Seq<char>, ConfigError>(e),
            },
    {
        match binding {
            Some(ConfigValue::Url(value)) => {
                if is_blank(value.as_str()) {
                    Err(ConfigError::ApiBaseWrongType)
                } else {
                    Ok(DesktopConfig { api_base: value })
                }
            },
            Some(ConfigValue::Other) => Err(ConfigError::ApiBaseWrongType),
            None => Err(ConfigError::ApiBaseUnresolved),
        }
    }
}

/// Unknown options fail closed: whatever else the command line holds, an
/// unknown option refuses it, and the refusal reads the fixed text
/// "unknown command-line option", which echoes no option the user gave.
pub proof fn lemma_unknown_option_fails_closed(
    unknown_options: Seq<String>,
    errors: Seq<String>,
    command: Seq<String>,
    provided_flags: Seq<(String, String)>,
)
    requires
        unknown_options.len() > 0,
    ensures
        command_line_verdict(unknown_options, errors, command, provided_flags) == Err::<
            Map<Seq<char>, Seq<char>>,
            ConfigError,
        >(ConfigError::UnknownOption),
        error_message(ConfigError::UnknownOption) == "unknown command-line option"@,
{
}

/// Only argv reaches the overrides: an admitted command line overrides exactly
/// the variables it names, each with the value of its last flag.
pub proof fn lemma_overrides_are_argv_only(
    unknown_options: Seq<String>,
    errors: Seq<String>,
    command: Seq<String>,
    provided_flags: Seq<(String, String)>,
    i: int,
)
    requires
        unknown_options.len() == 0,
        errors.len() == 0,
        command.len() == 0,
        0 <= i < provided_flags.len(),
        forall|j: int| i < j < provided_flags.len() ==> #[trigger] provided_flags[j].0@ != provided_flags[i].0@,
    ensures
        command_line_verdict(unknown_options, errors, command, provided_flags) is Ok,
        command_line_verdict(unknown_options, errors, command, provided_flags)->Ok_0.contains_key(
            provided_flags[i].0@,
        ),
        command_line_verdict(unknown_options, errors, command, provided_flags)->Ok_0[provided_flags[i].0@]
            == provided_flags[i].1@,
        forall|name: Seq<char>|
            #[trigger] command_line_verdict(unknown_options, errors, command, provided_flags)->Ok_0.contains_key(name)
                <==> exists|j: int| 0 <= j < provided_flags.len() && #[trigger] provided_flags[j].0@ == name,
{
    crate::env_map::lemma_later_pair_wins(provided_flags, i);
    assert forall|name: Seq<char>|
        #[trigger] pairs_map(provided_flags).contains_key(name)
            <==> exists|j: int| 0 <= j < provided_flags.len() && #[trigger] provided_flags[j].0@ == name by {
        crate::env_map::lemma_pairs_map_names(provided_flags, name);
    }
}

/// A value error refuses the command line: with no unknown option, any value
/// that the contract's types rejected makes admission fail with `InvalidValue`,
/// whatever subcommand words or flags were given.
pub proof fn lemma_invalid_value_refused(
    unknown_options: Seq<String>,
    errors: Seq<String>,
    command: Seq<String>,
    provided_flags: Seq<(String, String)>,
)
    requires
        unknown_options.len() == 0,
        errors.len() > 0,
    ensures
        command_line_verdict(unknown_options, errors, command, provided_flags) == Err::<
            Map<Seq<char>, Seq<char>>,
            ConfigError,
        >(ConfigError::InvalidValue),
{
}

/// A subcommand refuses the command line: with no unknown option and no value
/// error, any subcommand word makes admission fail with `SubcommandGiven`,
/// whatever flags were given.
pub proof fn lemma_subcommand_refused(
    unknown_options: Seq<String>,
    errors: Seq<String>,
    command: Seq<String>,
    provided_flags: Seq<(String, String)>,
)
    requires
        unknown_options.len() == 0,
        errors.len() == 0,
        command.len() > 0,
    ensures
        command_line_verdict(unknown_options, errors, command, provided_flags) == Err::<
            Map<Seq<char>, Seq<char>>,
            ConfigError,
        >(ConfigError::SubcommandGiven),
{
}

/// Admission is all or nothing: a command line is admitted exactly when it has
/// no unknown option, no value error and no subcommand word.
pub proof fn lemma_admitted_only_when_clean(
    unknown_options: Seq<String>,
    errors: Seq<String>,
    command: Seq<String>,
    provided_flags: Seq<(String, String)>,
)
    ensures
        command_line_verdict(unknown_options, errors, command, provided_flags) is Ok
            <==> (unknown_options.len() == 0 && errors.len() == 0 && command.len() == 0),
{
}

/// A URL binding is refused only when its text is blank: if any character of
/// the text is not white space, the API base is that text, unchanged; if every
/// character is white space, the binding has the wrong type.
pub proof fn lemma_url_binding_admitted_unless_blank(value: String)
    ensures
        (exists|i: int| 0 <= i < value@.len() && !is_white_space(#[trigger] value@[i]))
            ==> api_base_verdict(Some(ConfigValue::Url(value))) == Ok::<Seq<char>, ConfigError>(value@),
        (forall|i: int| 0 <= i < value@.len() ==> is_white_space(#[trigger] value@[i]))
            ==> api_base_verdict(Some(ConfigValue::Url(value))) == Err::<Seq<char>, ConfigError>(
                ConfigError::ApiBaseWrongType,
            ),
        api_base_verdict(Some(ConfigValue::Url(value))) is Ok
            ==> api_base_verdict(Some(ConfigValue::Url(value)))->Ok_0 == value@,
{
}

/// Only a URL value can become the API base: any other value has the wrong
/// type, and a missing binding is unresolved.
pub proof fn lemma_non_url_binding_refused()
    ensures
        api_base_verdict(Some(ConfigValue::Other)) == Err::<Seq<char>, ConfigError>(ConfigError::ApiBaseWrongType),
        api_base_verdict(None) == Err::<Seq<char>, ConfigError>(ConfigError::ApiBaseUnresolved),
{
}

} // verus!
