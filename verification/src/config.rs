//! The configuration file: a TOML document whose top-level string keys give defaults for
//! the global options.

use vstd::prelude::*;
use vstd::string::*;
use crate::text::{host_and_port, opt_view, same_text, split_host_port};

verus! {

/// The settings a configuration file may give; any of them may be missing.
#[derive(Debug, PartialEq, Eq)]
pub struct Config {
    /// SSH host, as `host:port`.
    pub host: Option<String>,
    pub ssh_user: Option<String>,
    /// Path of the SSH private key.
    pub identity_file: Option<String>,
    pub occ_path: Option<String>,
    pub php_path: Option<String>,
}

/// The texts a configuration holds.
pub struct ConfigView {
    pub host: Option<Seq<char>>,
    pub ssh_user: Option<Seq<char>>,
    pub identity_file: Option<Seq<char>>,
    pub occ_path: Option<Seq<char>>,
    pub php_path: Option<Seq<char>>,
}

impl View for Config {
    type V = ConfigView;

    open spec fn view(&self) -> ConfigView {
        ConfigView {
            host: opt_view(self.host),
            ssh_user: opt_view(self.ssh_user),
            identity_file: opt_view(self.identity_file),
            occ_path: opt_view(self.occ_path),
            php_path: opt_view(self.php_path),
        }
    }
}

/// The configuration that sets nothing.
pub open spec fn empty_config() -> ConfigView {
    ConfigView { host: None, ssh_user: None, identity_file: None, occ_path: None, php_path: None }
}

impl Default for Config {
    fn default() -> (r: Config)
        ensures
            r@ == empty_config(),
    {
        Config { host: None, ssh_user: None, identity_file: None, occ_path: None, php_path: None }
    }
}

impl Config {
    /// The host of the `host` setting and the port written after its last colon (see
    /// `crate::text::host_and_port`); an empty host and no port when the setting is missing.
    pub fn get_host_and_port(&self) -> (r: (String, Option<u16>))
        ensures
            self.host is Some ==> (r.0@, r.1) == host_and_port(self.host->0@),
            self.host is None ==> r.0@ == Seq::<char>::empty() && r.1 is None,
    {
        match &self.host {
            Some(h) => split_host_port(h.as_str()),
            None => (String::new(), None),
        }
    }
}

/// Names what `toml::from_str::<toml::Table>` reads from `document`: `None` when it is not a
/// valid TOML document; otherwise each top-level key of the table, in the table's order, with
/// the text of its value when that value is a string and `None` when it is of another type.
pub uninterp spec fn toml_top_level_entries(document: Seq<char>) -> Option<
    Seq<(Seq<char>, Option<Seq<char>>)>,
>;

/// The texts of the entries handed out by `read_toml_entries`.
pub open spec fn entries_view(entries: Seq<(String, Option<String>)>) -> Seq<
    (Seq<char>, Option<Seq<char>>),
> {
    entries.map_values(|e: (String, Option<String>)| (e.0@, opt_view(e.1)))
}

/// Whether no two entries have the same key.
pub open spec fn keys_distinct(entries: Seq<(Seq<char>, Option<Seq<char>>)>) -> bool {
    forall|i: int, j: int| 0 <= i < j < entries.len() ==> #[trigger] entries[i].0 != #[trigger] entries[j].0
}

#[verifier::external_type_specification]
#[verifier::external_body]
pub struct ExTomlError(toml::de::Error);

/// Parses `document` with `toml::from_str::<toml::Table>` and hands out its top-level
/// entries, each key with its value's text when the value is a TOML string. Trusted: the
/// result is `Ok` exactly when the crate accepts the document, and then equals what
/// `toml_top_level_entries` names and has distinct keys (a `toml::Table` is a map); nothing
/// is said of the error beyond that it came.
#[verifier::external_body]
fn read_toml_entries(document: &str) -> (r: Result<Vec<(String, Option<String>)>, toml::de::Error>)
    ensures
        r is Ok <==> toml_top_level_entries(document@) is Some,
        r is Ok ==> entries_view(r->Ok_0@) == toml_top_level_entries(document@)->0,
        r is Ok ==> keys_distinct(entries_view(r->Ok_0@)),
{
    let table = toml::from_str::<toml::Table>(document)?;
    Ok(
        table.into_iter().map(|(key, value)| match value {
            toml::Value::String(text) => (key, Some(text)),
            _ => (key, None),
        }).collect(),
    )
}

/// Why a configuration file was refused.
#[derive(Debug)]
pub enum ConfigError {
    /// The document is not valid TOML.
    Syntax(toml::de::Error),
    /// A known key holds a value that is not a string.
    NotText { key: String },
}

/// The setting keys, in the order of the configuration's fields.
pub open spec fn is_setting_key(key: Seq<char>) -> bool {
    key == "host"@ || key == "ssh_user"@ || key == "identity_file"@ || key == "occ_path"@
        || key == "php_path"@
}

/// `config` with the setting named `key` set to `value`.
pub open spec fn with_setting(config: ConfigView, key: Seq<char>, value: Seq<char>) -> ConfigView {
    if key == "host"@ {
        ConfigView { host: Some(value), ..config }
    } else if key == "ssh_user"@ {
        ConfigView { ssh_user: Some(value), ..config }
    } else if key == "identity_file"@ {
        ConfigView { identity_file: Some(value), ..config }
    } else if key == "occ_path"@ {
        ConfigView { occ_path: Some(value), ..config }
    } else if key == "php_path"@ {
        ConfigView { php_path: Some(value), ..config }
    } else {
        config
    }
}

/// The configuration that the top-level entries of a document give, read in order: each
/// setting key sets its field; other keys are ignored; the first setting key whose value is
/// not a string refuses the document, and is what `Err` holds.
pub open spec fn config_from_entries(entries: Seq<(Seq<char>, Option<Seq<char>>)>) -> Result<
    ConfigView,
    Seq<char>,
>
    decreases entries.len(),
{
    if entries.len() == 0 {
        Ok(empty_config())
    } else {
        match config_from_entries(entries.drop_last()) {
            Err(key) => Err(key),
            Ok(config) => {
                let (key, value) = entries.last();
                if !is_setting_key(key) {
                    Ok(config)
                } else {
                    match value {
                        Some(text) => Ok(with_setting(config, key, text)),
                        None => Err(key),
                    }
                }
            },
        }
    }
}

/// Sets the field that `key` names; keys that are not settings are ignored.
fn set_setting(config: &mut Config, key: &str, value: String)
    ensures
        final(config)@ == with_setting(old(config)@, key@, value@),
{
    proof {
        reveal_strlit("host");
        reveal_strlit("ssh_user");
        reveal_strlit("identity_file");
        reveal_strlit("occ_path");
        reveal_strlit("php_path");
    }
    if same_text(key, "host") {
        config.host = Some(value);
    } else if same_text(key, "ssh_user") {
        config.ssh_user = Some(value);
    } else if same_text(key, "identity_file") {
        config.identity_file = Some(value);
    } else if same_text(key, "occ_path") {
        config.occ_path = Some(value);
    } else if same_text(key, "php_path") {
        config.php_path = Some(value);
    }
}

/// Whether `key` names a setting.
fn setting_key(key: &str) -> (r: bool)
    ensures
        r == is_setting_key(key@),
{
    same_text(key, "host") || same_text(key, "ssh_user") || same_text(key, "identity_file")
        || same_text(key, "occ_path") || same_text(key, "php_path")
}

proof fn lemma_refusal_persists(entries: Seq<(Seq<char>, Option<Seq<char>>)>, j: int)
    requires
        0 <= j <= entries.len(),
        config_from_entries(entries.take(j)) is Err,
    ensures
        config_from_entries(entries) == config_from_entries(entries.take(j)),
    decreases entries.len(),
{
    if j < entries.len() {
        assert(entries.drop_last().take(j) =~= entries.take(j));
        lemma_refusal_persists(entries.drop_last(), j);
    } else {
        assert(entries.take(j) =~= entries);
    }
}

/// Reads the settings out of the top-level entries of a document (see `config_from_entries`).
pub fn config_from_toml_entries(entries: &Vec<(String, Option<String>)>) -> (r: Result<
    Config,
    ConfigError,
>)
    ensures
        match config_from_entries(entries_view(entries@)) {
            Ok(c) => r is Ok && r->Ok_0@ == c,
            Err(key) => r matches Err(ConfigError::NotText { key: k }) && k@ == key,
        },
{
    let ghost all = entries_view(entries@);
    let mut config = Config::default();
    let n = entries.len();
    let mut i: usize = 0;
    while i < n
        invariant
            n == entries@.len(),
            all == entries_view(entries@),
            i <= n,
            config_from_entries(all.take(i as int)) == Ok::<ConfigView, Seq<char>>(config@),
        decreases n - i,
    {
        let entry = &entries[i];
        assert(all[i as int] == (entry.0@, opt_view(entry.1)));
        assert(all.take(i + 1).drop_last() =~= all.take(i as int));
        assert(all.take(i + 1).last() == all[i as int]);
        if setting_key(entry.0.as_str()) {
            match &entry.1 {
                Some(text) => {
                    set_setting(&mut config, entry.0.as_str(), text.clone());
                },
                None => {
                    proof {
                        lemma_refusal_persists(all, i + 1);
                    }
                    return Err(ConfigError::NotText { key: entry.0.clone() });
                },
            }
        }
        i = i + 1;
    }
    assert(all.take(n as int) =~= all);
    Ok(config)
}

/// The setting that `key` names in `config`; `None` for a key that names no setting.
pub open spec fn setting_of(config: ConfigView, key: Seq<char>) -> Option<Seq<char>> {
    if key == "host"@ {
        config.host
    } else if key == "ssh_user"@ {
        config.ssh_user
    } else if key == "identity_file"@ {
        config.identity_file
    } else if key == "occ_path"@ {
        config.occ_path
    } else if key == "php_path"@ {
        config.php_path
    } else {
        None
    }
}

/// The text a document gives `key`: the value of its entry with that key (the last one,
/// should there be several), `None` when there is none or the value is not a string.
pub open spec fn document_setting(entries: Seq<(Seq<char>, Option<Seq<char>>)>, key: Seq<char>) -> Option<
    Seq<char>,
>
    decreases entries.len(),
{
    if entries.len() == 0 {
        None
    } else if entries.last().0 == key {
        entries.last().1
    } else {
        document_setting(entries.drop_last(), key)
    }
}

/// When a document's entries are accepted, each setting holds exactly the text the document
/// gives its key, and is unset when the document has no such key.
pub proof fn law_settings_are_the_document_values(
    entries: Seq<(Seq<char>, Option<Seq<char>>)>,
    key: Seq<char>,
)
    requires
        config_from_entries(entries) is Ok,
        is_setting_key(key),
    ensures
        setting_of(config_from_entries(entries)->Ok_0, key) == document_setting(entries, key),
        (forall|i: int| 0 <= i < entries.len() ==> #[trigger] entries[i].0 != key) ==> setting_of(
            config_from_entries(entries)->Ok_0,
            key,
        ) is None,
    decreases entries.len(),
{
    reveal_strlit("host");
    reveal_strlit("ssh_user");
    reveal_strlit("identity_file");
    reveal_strlit("occ_path");
    reveal_strlit("php_path");
    if entries.len() > 0 {
        let rest = entries.drop_last();
        assert forall|i: int| 0 <= i < rest.len() implies rest[i] == entries[i] by {}
        law_settings_are_the_document_values(rest, key);
        if forall|i: int| 0 <= i < entries.len() ==> #[trigger] entries[i].0 != key {
            assert(entries[entries.len() - 1].0 != key);
            assert forall|i: int| 0 <= i < rest.len() implies #[trigger] rest[i].0 != key by {
                assert(rest[i] == entries[i]);
            }
        }
    }
}

/// Reads a configuration file's text: the settings its top-level keys give (see
/// `config_from_entries`), `ConfigError::Syntax` when it is not valid TOML, and
/// `ConfigError::NotText` for the first setting key whose value is not a string.
pub fn parse_config_toml(content: &str) -> (r: Result<Config, ConfigError>)
    ensures
        toml_top_level_entries(content@) is None <==> r matches Err(ConfigError::Syntax(_)),
        toml_top_level_entries(content@) matches Some(entries) ==> match config_from_entries(
            entries,
        ) {
            Ok(c) => r is Ok && r->Ok_0@ == c,
            Err(key) => r matches Err(ConfigError::NotText { key: k }) && k@ == key,
        },
        toml_top_level_entries(content@) matches Some(entries) ==> keys_distinct(entries),
        r matches Ok(c) ==> forall|key: Seq<char>|
            #![trigger setting_of(c@, key)]
            is_setting_key(key) ==> setting_of(c@, key) == document_setting(
                toml_top_level_entries(content@)->0,
                key,
            ),
{
    match read_toml_entries(content) {
        Ok(entries) => {
            let r = config_from_toml_entries(&entries);
            proof {
                if r is Ok {
                    assert forall|key: Seq<char>| is_setting_key(key) implies #[trigger] setting_of(
                        r->Ok_0@,
                        key,
                    ) == document_setting(toml_top_level_entries(content@)->0, key) by {
                        law_settings_are_the_document_values(entries_view(entries@), key);
                    }
                }
            }
            r
        },
        Err(e) => Err(ConfigError::Syntax(e)),
    }
}

} // verus!
