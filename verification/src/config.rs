//! The Ferrous Forge configuration: its defaults and the keys that can be read and set.

use vstd::prelude::*;
use crate::error::{Error, ErrorKind};
use crate::text::{
    bool_text, bool_to_string, chars_of, decimal, parse_bool, parse_bool_spec, parse_unsigned,
    parse_usize, same_chars, text, usize_to_string, lemma_decimal_parses,
};

verus! {

broadcast use vstd::string::group_string_axioms;

/// A level of the configuration hierarchy.
#[derive(Debug, Clone, Copy, PartialEq, Eq, Structural)]
pub enum ConfigLevel {
    /// System-wide configuration
    System,
    /// User-specific configuration
    User,
    /// Project-specific configuration
    Project,
}

/// A custom validation rule.
#[derive(Debug)]
pub struct CustomRule {
    /// Name of the rule
    pub name: String,
    /// Pattern to match (regex)
    pub pattern: String,
    /// Error message to display
    pub message: String,
    /// Whether this rule is enabled
    pub enabled: bool,
}

/// The contents of a custom rule.
pub struct CustomRuleView {
    pub name: Seq<char>,
    pub pattern: Seq<char>,
    pub message: Seq<char>,
    pub enabled: bool,
}

impl View for CustomRule {
    type V = CustomRuleView;

    open spec fn view(&self) -> CustomRuleView {
        CustomRuleView {
            name: self.name@,
            pattern: self.pattern@,
            message: self.message@,
            enabled: self.enabled,
        }
    }
}

/// Ferrous Forge configuration.
#[derive(Debug)]
pub struct Config {
    /// Whether Ferrous Forge has been initialized
    pub initialized: bool,
    /// Version of the configuration format
    pub version: String,
    /// Update channel (stable, beta, nightly)
    pub update_channel: String,
    /// Whether to automatically check for updates
    pub auto_update: bool,
    /// Custom clippy rules
    pub clippy_rules: Vec<String>,
    /// File size limit in lines
    pub max_file_lines: usize,
    /// Function size limit in lines
    pub max_function_lines: usize,
    /// Whether to enforce Edition 2024
    pub enforce_edition_2024: bool,
    /// Whether to ban underscore bandaid patterns
    pub ban_underscore_bandaid: bool,
    /// Whether to require documentation
    pub require_documentation: bool,
    /// Custom validation rules
    pub custom_rules: Vec<CustomRule>,
}

/// The contents of a configuration.
pub struct ConfigView {
    pub initialized: bool,
    pub version: Seq<char>,
    pub update_channel: Seq<char>,
    pub auto_update: bool,
    pub clippy_rules: Seq<Seq<char>>,
    pub max_file_lines: usize,
    pub max_function_lines: usize,
    pub enforce_edition_2024: bool,
    pub ban_underscore_bandaid: bool,
    pub require_documentation: bool,
    pub custom_rules: Seq<CustomRuleView>,
}

impl View for Config {
    type V = ConfigView;

    open spec fn view(&self) -> ConfigView {
        ConfigView {
            initialized: self.initialized,
            version: self.version@,
            update_channel: self.update_channel@,
            auto_update: self.auto_update,
            clippy_rules: self.clippy_rules@.map_values(|r: String| r@),
            max_file_lines: self.max_file_lines,
            max_function_lines: self.max_function_lines,
            enforce_edition_2024: self.enforce_edition_2024,
            ban_underscore_bandaid: self.ban_underscore_bandaid,
            require_documentation: self.require_documentation,
            custom_rules: self.custom_rules@.map_values(|r: CustomRule| r@),
        }
    }
}

/// The default configuration.
pub open spec fn default_config() -> ConfigView {
    ConfigView {
        initialized: false,
        version: "0.1.0"@,
        update_channel: "stable"@,
        auto_update: true,
        clippy_rules: seq![
            "-D warnings"@,
            "-D clippy::unwrap_used"@,
            "-D clippy::expect_used"@,
            "-D clippy::panic"@,
            "-D clippy::unimplemented"@,
            "-D clippy::todo"@,
        ],
        max_file_lines: 300,
        max_function_lines: 50,
        enforce_edition_2024: true,
        ban_underscore_bandaid: true,
        require_documentation: true,
        custom_rules: seq![],
    }
}

/// The value `get` reports for a key, if the key is known.
pub open spec fn config_get(c: ConfigView, key: Seq<char>) -> Option<Seq<char>> {
    if key == "update_channel"@ {
        Some(c.update_channel)
    } else if key == "auto_update"@ {
        Some(bool_text(c.auto_update))
    } else if key == "max_file_lines"@ {
        Some(decimal(c.max_file_lines as nat))
    } else if key == "max_function_lines"@ {
        Some(decimal(c.max_function_lines as nat))
    } else if key == "enforce_edition_2024"@ {
        Some(bool_text(c.enforce_edition_2024))
    } else if key == "ban_underscore_bandaid"@ {
        Some(bool_text(c.ban_underscore_bandaid))
    } else if key == "require_documentation"@ {
        Some(bool_text(c.require_documentation))
    } else {
        None
    }
}

/// The update channels that can be set.
pub open spec fn is_channel(v: Seq<char>) -> bool {
    v == "stable"@ || v == "beta"@ || v == "nightly"@
}

/// The outcome of setting `key` to `value`: the new configuration, or the message of the
/// configuration error that refuses it.
pub open spec fn config_set(c: ConfigView, key: Seq<char>, value: Seq<char>) -> Result<
    ConfigView,
    Seq<char>,
> {
    if key == "update_channel"@ {
        if is_channel(value) {
            Ok(ConfigView { update_channel: value, ..c })
        } else {
            Err("Invalid update channel. Must be: stable, beta, or nightly"@)
        }
    } else if key == "auto_update"@ {
        match parse_bool_spec(value) {
            Some(b) => Ok(ConfigView { auto_update: b, ..c }),
            None => Err("Invalid boolean value for auto_update"@),
        }
    } else if key == "max_file_lines"@ {
        match parse_unsigned(value, usize::MAX as nat) {
            Some(n) => Ok(ConfigView { max_file_lines: n as usize, ..c }),
            None => Err("Invalid number for max_file_lines"@),
        }
    } else if key == "max_function_lines"@ {
        match parse_unsigned(value, usize::MAX as nat) {
            Some(n) => Ok(ConfigView { max_function_lines: n as usize, ..c }),
            None => Err("Invalid number for max_function_lines"@),
        }
    } else if key == "enforce_edition_2024"@ {
        match parse_bool_spec(value) {
            Some(b) => Ok(ConfigView { enforce_edition_2024: b, ..c }),
            None => Err("Invalid boolean value for enforce_edition_2024"@),
        }
    } else if key == "ban_underscore_bandaid"@ {
        match parse_bool_spec(value) {
            Some(b) => Ok(ConfigView { ban_underscore_bandaid: b, ..c }),
            None => Err("Invalid boolean value for ban_underscore_bandaid"@),
        }
    } else if key == "require_documentation"@ {
        match parse_bool_spec(value) {
            Some(b) => Ok(ConfigView { require_documentation: b, ..c }),
            None => Err("Invalid boolean value for require_documentation"@),
        }
    } else {
        Err("Unknown configuration key: "@ + key)
    }
}

/// The keys and values that `list` reports, in order.
pub open spec fn config_list(c: ConfigView) -> Seq<(Seq<char>, Seq<char>)> {
    seq![
        ("update_channel"@, c.update_channel),
        ("auto_update"@, bool_text(c.auto_update)),
        ("max_file_lines"@, decimal(c.max_file_lines as nat)),
        ("max_function_lines"@, decimal(c.max_function_lines as nat)),
        ("enforce_edition_2024"@, bool_text(c.enforce_edition_2024)),
        ("ban_underscore_bandaid"@, bool_text(c.ban_underscore_bandaid)),
        ("require_documentation"@, bool_text(c.require_documentation)),
    ]
}

/// The contents of a list of key/value string pairs.
pub open spec fn pairs_view(v: Seq<(String, String)>) -> Seq<(Seq<char>, Seq<char>)> {
    v.map_values(|p: (String, String)| (p.0@, p.1@))
}

impl Default for Config {
    fn default() -> (r: Self)
        ensures
            r@ == default_config(),
    {
        let clippy_rules = vec![
            text("-D warnings"),
            text("-D clippy::unwrap_used"),
            text("-D clippy::expect_used"),
            text("-D clippy::panic"),
            text("-D clippy::unimplemented"),
            text("-D clippy::todo"),
        ];
        let r = Config {
            initialized: false,
            version: text("0.1.0"),
            update_channel: text("stable"),
            auto_update: true,
            clippy_rules,
            max_file_lines: 300,
            max_function_lines: 50,
            enforce_edition_2024: true,
            ban_underscore_bandaid: true,
            require_documentation: true,
            custom_rules: Vec::new(),
        };
        assert(r@.clippy_rules =~= default_config().clippy_rules);
        assert(r@.custom_rules =~= default_config().custom_rules);
        r
    }
}

impl Config {
    /// Check if Ferrous Forge is initialized
    pub fn is_initialized(&self) -> (r: bool)
        ensures
            r == self.initialized,
    {
        self.initialized
    }

    /// Mark Ferrous Forge as initialized
    pub fn mark_initialized(&mut self)
        ensures
            final(self)@ == (ConfigView { initialized: true, ..old(self)@ }),
    {
        self.initialized = true;
    }

    /// Get a configuration value by key
    pub fn get(&self, key: &str) -> (r: Option<String>)
        ensures
            match r {
                Some(v) => config_get(self@, key@) == Some(v@),
                None => config_get(self@, key@) is None,
            },
    {
        let k = chars_of(key);
        let k = k.as_slice();
        if same_chars(k, chars_of("update_channel").as_slice()) {
            Some(self.update_channel.clone())
        } else if same_chars(k, chars_of("auto_update").as_slice()) {
            Some(bool_to_string(self.auto_update))
        } else if same_chars(k, chars_of("max_file_lines").as_slice()) {
            Some(usize_to_string(self.max_file_lines))
        } else if same_chars(k, chars_of("max_function_lines").as_slice()) {
            Some(usize_to_string(self.max_function_lines))
        } else if same_chars(k, chars_of("enforce_edition_2024").as_slice()) {
            Some(bool_to_string(self.enforce_edition_2024))
        } else if same_chars(k, chars_of("ban_underscore_bandaid").as_slice()) {
            Some(bool_to_string(self.ban_underscore_bandaid))
        } else if same_chars(k, chars_of("require_documentation").as_slice()) {
            Some(bool_to_string(self.require_documentation))
        } else {
            None
        }
    }

    /// Set a configuration value by key; a refused value leaves the configuration unchanged.
    pub fn set(&mut self, key: &str, value: &str) -> (r: Result<(), Error>)
        ensures
            match r {
                Ok(_) => config_set(old(self)@, key@, value@) == Ok::<ConfigView, Seq<char>>(
                    final(self)@,
                ),
                Err(e) => {
                    &&& e.kind == ErrorKind::Config
                    &&& config_set(old(self)@, key@, value@) == Err::<ConfigView, Seq<char>>(
                        e.message@,
                    )
                    &&& final(self)@ == old(self)@
                },
            },
    {
        let k = chars_of(key);
        let k = k.as_slice();
        let v = chars_of(value);
        let v = v.as_slice();
        if same_chars(k, chars_of("update_channel").as_slice()) {
            if same_chars(v, chars_of("stable").as_slice()) || same_chars(
                v,
                chars_of("beta").as_slice(),
            ) || same_chars(v, chars_of("nightly").as_slice()) {
                self.update_channel = text(value);
                Ok(())
            } else {
                Err(Error::config(text("Invalid update channel. Must be: stable, beta, or nightly")))
            }
        } else if same_chars(k, chars_of("auto_update").as_slice()) {
            match parse_bool(v) {
                Some(b) => {
                    self.auto_update = b;
                    Ok(())
                },
                None => Err(Error::config(text("Invalid boolean value for auto_update"))),
            }
        } else if same_chars(k, chars_of("max_file_lines").as_slice()) {
            match parse_usize(v) {
                Some(n) => {
                    self.max_file_lines = n;
                    Ok(())
                },
                None => Err(Error::config(text("Invalid number for max_file_lines"))),
            }
        } else if same_chars(k, chars_of("max_function_lines").as_slice()) {
            match parse_usize(v) {
                Some(n) => {
                    self.max_function_lines = n;
                    Ok(())
                },
                None => Err(Error::config(text("Invalid number for max_function_lines"))),
            }
        } else if same_chars(k, chars_of("enforce_edition_2024").as_slice()) {
            match parse_bool(v) {
                Some(b) => {
                    self.enforce_edition_2024 = b;
                    Ok(())
                },
                None => Err(Error::config(text("Invalid boolean value for enforce_edition_2024"))),
            }
        } else if same_chars(k, chars_of("ban_underscore_bandaid").as_slice()) {
            match parse_bool(v) {
                Some(b) => {
                    self.ban_underscore_bandaid = b;
                    Ok(())
                },
                None => Err(
                    Error::config(text("Invalid boolean value for ban_underscore_bandaid")),
                ),
            }
        } else if same_chars(k, chars_of("require_documentation").as_slice()) {
            match parse_bool(v) {
                Some(b) => {
                    self.require_documentation = b;
                    Ok(())
                },
                None => Err(
                    Error::config(text("Invalid boolean value for require_documentation")),
                ),
            }
        } else {
            let mut m = text("Unknown configuration key: ");
            m.append(key);
            Err(Error::config(m))
        }
    }

    /// List all configuration keys and values
    pub fn list(&self) -> (r: Vec<(String, String)>)
        ensures
            pairs_view(r@) == config_list(self@),
    {
        let r = vec![
            (text("update_channel"), self.update_channel.clone()),
            (text("auto_update"), bool_to_string(self.auto_update)),
            (text("max_file_lines"), usize_to_string(self.max_file_lines)),
            (text("max_function_lines"), usize_to_string(self.max_function_lines)),
            (text("enforce_edition_2024"), bool_to_string(self.enforce_edition_2024)),
            (text("ban_underscore_bandaid"), bool_to_string(self.ban_underscore_bandaid)),
            (text("require_documentation"), bool_to_string(self.require_documentation)),
        ];
        assert(pairs_view(r@) =~= config_list(self@));
        r
    }

    /// Reset configuration to defaults, keeping the initialized state set
    pub fn reset(&mut self)
        ensures
            final(self)@ == (ConfigView { initialized: true, ..default_config() }),
    {
        *self = Config::default();
        self.initialized = true;
    }
}


/// The seven keys that `get`, `set` and `list` know.
pub open spec fn is_known_key(key: Seq<char>) -> bool {
    key == "update_channel"@ || key == "auto_update"@ || key == "max_file_lines"@ || key
        == "max_function_lines"@ || key == "enforce_edition_2024"@ || key
        == "ban_underscore_bandaid"@ || key == "require_documentation"@
}

/// A value that `set` accepts for `key` and that `get` reports back as it was written:
/// a known channel, the word `true` or `false`, or the decimal text of a `usize`.
pub open spec fn canonical_setting(key: Seq<char>, value: Seq<char>) -> bool {
    if key == "update_channel"@ {
        is_channel(value)
    } else if key == "auto_update"@ || key == "enforce_edition_2024"@ || key
        == "ban_underscore_bandaid"@ || key == "require_documentation"@ {
        value == "true"@ || value == "false"@
    } else if key == "max_file_lines"@ || key == "max_function_lines"@ {
        exists|n: usize| value == decimal(n as nat)
    } else {
        false
    }
}

/// The lengths and first letters of the key texts, which tell them apart.
proof fn lemma_key_texts()
    ensures
        "update_channel"@.len() == 14,
        "update_channel"@[0] == 'u',
        "auto_update"@.len() == 11,
        "max_file_lines"@.len() == 14,
        "max_file_lines"@[0] == 'm',
        "max_function_lines"@.len() == 18,
        "enforce_edition_2024"@.len() == 20,
        "ban_underscore_bandaid"@.len() == 22,
        "require_documentation"@.len() == 21,
        "true"@.len() == 4,
        "false"@.len() == 5,
{
    reveal_strlit("update_channel");
    reveal_strlit("auto_update");
    reveal_strlit("max_file_lines");
    reveal_strlit("max_function_lines");
    reveal_strlit("enforce_edition_2024");
    reveal_strlit("ban_underscore_bandaid");
    reveal_strlit("require_documentation");
    reveal_strlit("true");
    reveal_strlit("false");
}

/// A boolean word parses back to the boolean it renders.
proof fn lemma_bool_round_trip(b: bool)
    ensures
        parse_bool_spec(bool_text(b)) == Some(b),
{
    lemma_key_texts();
}

/// Setting a key to a canonical value succeeds, and reading that key back gives exactly
/// the value that was written.
pub proof fn law_set_then_get(c: ConfigView, key: Seq<char>, value: Seq<char>)
    requires
        canonical_setting(key, value),
    ensures
        config_set(c, key, value) is Ok,
        config_get(config_set(c, key, value)->Ok_0, key) == Some(value),
{
    lemma_key_texts();
    if key == "max_file_lines"@ || key == "max_function_lines"@ {
        let n = choose|n: usize| value == decimal(n as nat);
        lemma_decimal_parses(n as nat);
    }
}

/// A successful `set` of one key leaves what every other key reports unchanged.
pub proof fn law_set_keeps_other_keys(
    c: ConfigView,
    key: Seq<char>,
    value: Seq<char>,
    other: Seq<char>,
)
    requires
        config_set(c, key, value) is Ok,
        other != key,
    ensures
        config_get(config_set(c, key, value)->Ok_0, other) == config_get(c, other),
{
    lemma_key_texts();
}

/// Writing back what `get` reports for a known key succeeds and changes nothing, for any
/// configuration whose update channel is one that `set` accepts.
pub proof fn law_write_back_is_identity(c: ConfigView, key: Seq<char>)
    requires
        is_known_key(key),
        is_channel(c.update_channel),
    ensures
        config_get(c, key) is Some,
        config_set(c, key, config_get(c, key)->Some_0) == Ok::<ConfigView, Seq<char>>(c),
{
    lemma_key_texts();
    lemma_bool_round_trip(c.auto_update);
    lemma_bool_round_trip(c.enforce_edition_2024);
    lemma_bool_round_trip(c.ban_underscore_bandaid);
    lemma_bool_round_trip(c.require_documentation);
    lemma_decimal_parses(c.max_file_lines as nat);
    lemma_decimal_parses(c.max_function_lines as nat);
}

/// `list` reports exactly the keys that `get` knows, each once, with the values `get`
/// reports for them.
pub proof fn law_list_agrees_with_get(c: ConfigView)
    ensures
        config_list(c).len() == 7,
        forall|i: int|
            0 <= i < 7 ==> config_get(c, (#[trigger] config_list(c)[i]).0) == Some(
                config_list(c)[i].1,
            ),
        forall|i: int, j: int|
            0 <= i < j < 7 ==> (#[trigger] config_list(c)[i]).0 != (#[trigger] config_list(
                c,
            )[j]).0,
        forall|key: Seq<char>|
            (#[trigger] config_get(c, key)) is Some <==> exists|i: int|
                0 <= i < 7 && (#[trigger] config_list(c)[i]).0 == key,
{
    lemma_key_texts();
    let l = config_list(c);
    assert forall|key: Seq<char>| (#[trigger] config_get(c, key)) is Some implies exists|i: int|
        0 <= i < 7 && (#[trigger] config_list(c)[i]).0 == key by {
        if key == "update_channel"@ {
            assert(l[0].0 == key);
        } else if key == "auto_update"@ {
            assert(l[1].0 == key);
        } else if key == "max_file_lines"@ {
            assert(l[2].0 == key);
        } else if key == "max_function_lines"@ {
            assert(l[3].0 == key);
        } else if key == "enforce_edition_2024"@ {
            assert(l[4].0 == key);
        } else if key == "ban_underscore_bandaid"@ {
            assert(l[5].0 == key);
        } else {
            assert(l[6].0 == key);
        }
    }
}

} // verus!
