use vstd::prelude::*;
use vstd::string::StringExecFns;

verus! {

/// What the configuration holds under one key.
pub enum ConfigField {
    Absent,
    Text(String),
    /// A value of another kind than a string.
    Other,
}

/// Why the configuration gives no environment directory.
#[derive(Debug, PartialEq, Eq)]
pub enum ConfigError {
    /// The text is not a TOML document.
    InvalidConfig,
    /// There is no `servers_dir` key.
    MissingServersDir,
    /// `servers_dir` is not a string.
    NotAString,
}

/// Whether a text is a TOML document whose top level is a table, as the toml crate judges it.
pub uninterp spec fn is_toml_table(text: Seq<char>) -> bool;

/// What the top-level table of a TOML text holds under a key: `None` when the key is
/// absent, `Some(None)` when its value is not a string, `Some(Some(s))` for the string `s`.
pub uninterp spec fn toml_string_field(text: Seq<char>, key: Seq<char>) -> Option<Option<Seq<char>>>;

/// The plain form of a looked-up configuration entry.
pub open spec fn field_view(f: ConfigField) -> Option<Option<Seq<char>>> {
    match f {
        ConfigField::Absent => None,
        ConfigField::Other => Some(None),
        ConfigField::Text(s) => Some(Some(s@)),
    }
}

/// Relies on `toml::from_str` to read the text as a table, and on `toml::map::Map::get`
/// for the value under `key`, a string given by its text. Both depend on their input alone.
#[verifier::external_body]
fn toml_lookup(text: &str, key: &str) -> (r: Option<ConfigField>)
    ensures
        r is Some <==> is_toml_table(text@),
        r is Some ==> field_view(r->Some_0) == toml_string_field(text@, key@),
{
    let table: toml::Table = toml::from_str(text).ok()?;
    Some(match table.get(key) {
        None => ConfigField::Absent,
        Some(toml::Value::String(s)) => ConfigField::Text(s.clone()),
        Some(_) => ConfigField::Other,
    })
}

/// Whether a path starts with a `~` that stands for the home directory: alone, or
/// before `/`.
pub open spec fn starts_at_home(p: Seq<char>) -> bool {
    p.len() > 0 && p[0] == '~' && (p.len() == 1 || p[1] == '/')
}

/// Whether a path starts with `~\`, which only Windows counts as starting at home.
pub open spec fn starts_with_tilde_backslash(p: Seq<char>) -> bool {
    p.len() > 1 && p[0] == '~' && p[1] == '\\'
}

pub open spec fn home_view(home: Option<String>) -> Option<Seq<char>> {
    match home {
        Some(h) => Some(h@),
        None => None,
    }
}

/// `p` with a leading `~` that stands for the home directory replaced by `home`; kept
/// as it is where there is no such `~` or no home.
pub open spec fn tilde_expanded(p: Seq<char>, home: Option<Seq<char>>) -> Seq<char> {
    if starts_at_home(p) && home is Some {
        home->Some_0 + p.subrange(1, p.len() as int)
    } else {
        p
    }
}

/// Relies on `shellexpand::tilde_with_context`: with `home` as the home directory, a
/// leading `~` alone or before `/` becomes `home`, and other text stays as it is (a
/// `~\` prefix is expanded too on Windows).
#[verifier::external_body]
fn expand_tilde(path: &str, home: &Option<String>) -> (r: String)
    ensures
        !starts_with_tilde_backslash(path@) ==> r@ == tilde_expanded(path@, home_view(*home)),
{
    shellexpand::tilde_with_context(path, || home.as_ref()).to_string()
}

/// Relies on `shellexpand::tilde`: `~` alone becomes the user's home directory, or
/// stays `~` where there is none.
#[verifier::external_body]
fn tilde_alone() -> String {
    shellexpand::tilde("~").to_string()
}

/// The user's home directory, where the system gives one.
pub fn home_directory() -> (r: Option<String>)
    ensures
        r is Some ==> r->Some_0@ != "~"@,
{
    let home = tilde_alone();
    let tilde = String::from_str("~");
    if home == tilde {
        None
    } else {
        Some(home)
    }
}

/// The environment directory that the `servers_dir` entry of a configuration gives,
/// before home expansion.
pub fn servers_dir_from(field: ConfigField) -> (r: Result<String, ConfigError>)
    ensures
        field is Text <==> r is Ok,
        r is Ok ==> r->Ok_0 == field->Text_0,
        field is Absent ==> r == Err::<String, ConfigError>(ConfigError::MissingServersDir),
        field is Other ==> r == Err::<String, ConfigError>(ConfigError::NotAString),
{
    match field {
        ConfigField::Text(dir) => Ok(dir),
        ConfigField::Absent => Err(ConfigError::MissingServersDir),
        ConfigField::Other => Err(ConfigError::NotAString),
    }
}

/// Reads the configuration text into the environment directory, expanded against
/// the home directory `home`.
pub fn servers_dir(text: &str, home: &Option<String>) -> (r: Result<String, ConfigError>)
    ensures
        !is_toml_table(text@) ==> r == Err::<String, ConfigError>(ConfigError::InvalidConfig),
        is_toml_table(text@) && toml_string_field(text@, "servers_dir"@) is None ==> r == Err::<
            String,
            ConfigError,
        >(ConfigError::MissingServersDir),
        is_toml_table(text@) && toml_string_field(text@, "servers_dir"@) == Some(
            None::<Seq<char>>,
        ) ==> r == Err::<String, ConfigError>(ConfigError::NotAString),
        is_toml_table(text@) && toml_string_field(text@, "servers_dir"@) is Some
            && toml_string_field(text@, "servers_dir"@)->Some_0 is Some ==> ({
            let d = toml_string_field(text@, "servers_dir"@)->Some_0->Some_0;
            &&& r is Ok
            &&& !starts_with_tilde_backslash(d) ==> r->Ok_0@ == tilde_expanded(d, home_view(*home))
        }),
{
    let field = match toml_lookup(text, "servers_dir") {
        Some(f) => f,
        None => return Err(ConfigError::InvalidConfig),
    };
    let raw = servers_dir_from(field)?;
    Ok(expand_tilde(raw.as_str(), home))
}

/// The configuration file, `~/.config/server/config.toml` under the home directory `home`.
pub fn config_file_path(home: &Option<String>) -> (r: String)
    ensures
        home is Some ==> r@ == home->Some_0@ + "/.config/server/config.toml"@,
        home is None ==> r@ == "~/.config/server/config.toml"@,
{
    proof {
        reveal_strlit("~/.config/server/config.toml");
        reveal_strlit("/.config/server/config.toml");
        let p = "~/.config/server/config.toml"@;
        assert(p.subrange(1, p.len() as int) =~= "/.config/server/config.toml"@);
    }
    expand_tilde("~/.config/server/config.toml", home)
}

/// The directory of the configuration file, `~/.config/server/` under the home directory `home`.
pub fn config_dir_path(home: &Option<String>) -> (r: String)
    ensures
        home is Some ==> r@ == home->Some_0@ + "/.config/server/"@,
        home is None ==> r@ == "~/.config/server/"@,
{
    proof {
        reveal_strlit("~/.config/server/");
        reveal_strlit("/.config/server/");
        let p = "~/.config/server/"@;
        assert(p.subrange(1, p.len() as int) =~= "/.config/server/"@);
    }
    expand_tilde("~/.config/server/", home)
}

/// The configuration written on a first run: one line that sets `servers_dir`.
pub fn config_template() -> (r: String)
    ensures
        r@ == "servers_dir = \"~/Tools/mage-db-sync-databases/\"\n"@,
{
    String::from_str("servers_dir = \"~/Tools/mage-db-sync-databases/\"\n")
}

} // verus!
