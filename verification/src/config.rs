//! Settings loading: the typed configuration and its schema.
//!
//! The settings file is a TOML document with four required string fields
//! and one optional array of strings. The TOML grammar itself is the toml
//! crate's work, reached through the trusted readers below; which fields
//! are required, and of what type, is decided here.

use crate::errors::LaunchError;
use vstd::prelude::*;

verus! {

/// The configuration loaded once per run, immutable thereafter.
#[derive(Debug, PartialEq, Eq)]
pub struct Config {
    /// Path to the external mod-loading executable.
    pub me3_path: String,
    /// Path to the mod manifest file consumed by the loader.
    pub mod_path: String,
    /// Path or name of the game binary.
    pub game_exe: String,
    /// Identifier passed to the loader to select a game definition.
    pub game: String,
    /// Extra loader arguments, forwarded verbatim in their given order.
    pub extra_args: Vec<String>,
}

pub ghost struct ConfigModel {
    pub me3_path: Seq<char>,
    pub mod_path: Seq<char>,
    pub game_exe: Seq<char>,
    pub game: Seq<char>,
    pub extra_args: Seq<Seq<char>>,
}

impl View for Config {
    type V = ConfigModel;

    open spec fn view(&self) -> ConfigModel {
        ConfigModel {
            me3_path: self.me3_path@,
            mod_path: self.mod_path@,
            game_exe: self.game_exe@,
            game: self.game@,
            extra_args: self.extra_args.deep_view(),
        }
    }
}

/// The string at top-level entry `key` of the TOML document `doc`: absent
/// when `doc` does not parse, has no such entry, or holds a non-string
/// there.
pub uninterp spec fn toml_string_field(doc: Seq<char>, key: Seq<char>) -> Option<Seq<char>>;

/// Whether the TOML document `doc` parses and has a top-level entry `key`.
pub uninterp spec fn toml_key_present(doc: Seq<char>, key: Seq<char>) -> bool;

/// The strings at top-level entry `key` of the TOML document `doc`: absent
/// when `doc` does not parse, has no such entry, or holds anything but an
/// array of strings there.
pub uninterp spec fn toml_string_array_field(doc: Seq<char>, key: Seq<char>) -> Option<
    Seq<Seq<char>>,
>;

/// Relies on toml::from_str::<toml::Table>, toml::map::Map::get and
/// toml::Value::as_str: the string at top-level `key` of `doc`, a function
/// of the two arguments alone.
#[verifier::external_body]
fn read_string_field(doc: &str, key: &str) -> (r: Option<String>)
    ensures
        r matches Some(s) ==> toml_string_field(doc@, key@) == Some(s@),
        r is None ==> toml_string_field(doc@, key@) is None,
{
    match toml::from_str::<toml::Table>(doc) {
        Ok(t) => match t.get(key) {
            Some(v) => v.as_str().map(|s| s.to_string()),
            None => None,
        },
        Err(_) => None,
    }
}

/// Relies on toml::from_str::<toml::Table> and toml::map::Map::contains_key:
/// whether `doc` parses as a TOML table with an entry at `key`, a function
/// of the two arguments alone.
#[verifier::external_body]
fn read_key_present(doc: &str, key: &str) -> (r: bool)
    ensures
        r == toml_key_present(doc@, key@),
{
    match toml::from_str::<toml::Table>(doc) {
        Ok(t) => t.contains_key(key),
        Err(_) => false,
    }
}

/// Relies on toml::from_str::<toml::Table>, toml::map::Map::get,
/// toml::Value::as_array and toml::Value::as_str: the strings in the array
/// at top-level `key` of `doc`, a function of the two arguments alone.
#[verifier::external_body]
fn read_string_array_field(doc: &str, key: &str) -> (r: Option<Vec<String>>)
    ensures
        r matches Some(v) ==> toml_string_array_field(doc@, key@) == Some(v.deep_view()),
        r is None ==> toml_string_array_field(doc@, key@) is None,
{
    let t: toml::Table = match toml::from_str(doc) {
        Ok(t) => t,
        Err(_) => return None,
    };
    let arr = match t.get(key) {
        Some(v) => v.as_array(),
        None => None,
    }?;
    arr.iter().map(|v| v.as_str().map(|s| s.to_string())).collect::<Option<Vec<String>>>()
}

/// The configuration described by the TOML document `doc`, when `doc`
/// matches the schema: four required string fields, and an optional
/// `extra_args` entry that, if present, must be an array of strings.
pub open spec fn spec_config_of_doc(doc: Seq<char>) -> Option<ConfigModel> {
    match (
        toml_string_field(doc, "me3_path"@),
        toml_string_field(doc, "mod_path"@),
        toml_string_field(doc, "game_exe"@),
        toml_string_field(doc, "game"@),
    ) {
        (Some(me3_path), Some(mod_path), Some(game_exe), Some(game)) => {
            if !toml_key_present(doc, "extra_args"@) {
                Some(
                    ConfigModel {
                        me3_path,
                        mod_path,
                        game_exe,
                        game,
                        extra_args: Seq::empty(),
                    },
                )
            } else {
                match toml_string_array_field(doc, "extra_args"@) {
                    Some(extra_args) => Some(
                        ConfigModel { me3_path, mod_path, game_exe, game, extra_args },
                    ),
                    None => None,
                }
            }
        },
        _ => None,
    }
}

/// The fixed name of the settings file, looked for beside the launcher.
pub fn settings_file_name() -> (r: &'static str)
    ensures
        r@ == "config.toml"@,
{
    "config.toml"
}

/// Loads the configuration from the settings file's text.
///
/// `shown_path` is the path the settings were read from, used in error
/// messages; `content` is the file's text, or nothing when the file could
/// not be read.
pub fn load_config(shown_path: &str, content: Option<&str>) -> (r: Result<Config, LaunchError>)
    ensures
        content is None ==> (r matches Err(e) && e matches LaunchError::ConfigReadError {
            path,
        } && path@ == shown_path@),
        content matches Some(text) ==> match spec_config_of_doc(text@) {
            Some(m) => r matches Ok(c) && c@ == m,
            None => r matches Err(e) && e matches LaunchError::ConfigParseError { path }
                && path@ == shown_path@,
        },
{
    let text = match content {
        None => {
            return Err(LaunchError::ConfigReadError { path: shown_path.to_owned() });
        },
        Some(text) => text,
    };
    let me3_path = read_string_field(text, "me3_path");
    let mod_path = read_string_field(text, "mod_path");
    let game_exe = read_string_field(text, "game_exe");
    let game = read_string_field(text, "game");
    match (me3_path, mod_path, game_exe, game) {
        (Some(me3_path), Some(mod_path), Some(game_exe), Some(game)) => {
            let extra_args: Vec<String> = if !read_key_present(text, "extra_args") {
                let v: Vec<String> = Vec::new();
                proof {
                    assert(v.deep_view() =~= Seq::<Seq<char>>::empty());
                }
                v
            } else {
                match read_string_array_field(text, "extra_args") {
                    Some(v) => v,
                    None => {
                        return Err(
                            LaunchError::ConfigParseError { path: shown_path.to_owned() },
                        );
                    },
                }
            };
            Ok(Config { me3_path, mod_path, game_exe, game, extra_args })
        },
        _ => Err(LaunchError::ConfigParseError { path: shown_path.to_owned() }),
    }
}

} // verus!
