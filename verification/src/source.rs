//! Reading the settings out of a loaded configuration.

use vstd::prelude::*;
use config::{Config, ConfigError};
use crate::settings::{RawSettings, RawSettingsView};

verus! {

/// `config::Config`, a loaded configuration. Nothing is known of what is
/// inside one but what the two readers below report.
#[verifier::external_type_specification]
#[verifier::external_body]
pub struct ExConfig(Config);

/// `config::ConfigError`, why a lookup failed. It is only ever dropped.
#[verifier::external_type_specification]
#[verifier::external_body]
pub struct ExConfigError(ConfigError);

/// The text that `config` holds under `key`, if it holds a scalar there.
pub uninterp spec fn config_text(config: Config, key: Seq<char>) -> Option<Seq<char>>;

/// The list of texts that `config` holds under `key`, if it holds an array of
/// scalars there.
pub uninterp spec fn config_list(config: Config, key: Seq<char>) -> Option<Seq<Seq<char>>>;

/// `Config::get_string`: looks `key` up and hands the value back as text. It
/// fails when the key is absent or the value is a table, an array or nil.
/// What it finds depends on the configuration and the key alone.
#[verifier::external_body]
fn read_text(config: &Config, key: &str) -> (r: Result<String, ConfigError>)
    ensures
        match r {
            Ok(s) => config_text(*config, key@) == Some(s@),
            Err(_) => config_text(*config, key@) is None,
        },
{
    config.get_string(key)
}

/// `Config::get`, asked for a list of strings: looks `key` up and hands the
/// array found there back, each item as text. It fails when the key is
/// absent, the value is no array, or an item is a table, an array or nil.
/// What it finds depends on the configuration and the key alone.
#[verifier::external_body]
fn read_list(config: &Config, key: &str) -> (r: Result<Vec<String>, ConfigError>)
    ensures
        match r {
            Ok(v) => config_list(*config, key@) == Some(v.deep_view()),
            Err(_) => config_list(*config, key@) is None,
        },
{
    config.get::<Vec<String>>(key)
}

/// The settings that `config` provides: search terms and recipient, time and
/// weekday under `default`, the credentials under `profile`.
pub open spec fn provided(config: Config) -> RawSettingsView {
    RawSettingsView {
        keyword: config_list(config, "default.keyword"@),
        email: config_text(config, "default.email"@),
        time: config_text(config, "default.time"@),
        weekday: config_text(config, "default.weekday"@),
        id: config_text(config, "profile.id"@),
        password: config_text(config, "profile.password"@),
    }
}

/// The text under `key`, or `None` where there is none.
fn text_at(config: &Config, key: &str) -> (r: Option<String>)
    ensures
        r.deep_view() == config_text(*config, key@),
{
    match read_text(config, key) {
        Ok(s) => Some(s),
        Err(_) => None,
    }
}

/// Collects the settings that `config` provides.
pub fn read_settings(config: &Config) -> (r: RawSettings)
    ensures
        r@ == provided(*config),
{
    let keyword = match read_list(config, "default.keyword") {
        Ok(v) => Some(v),
        Err(_) => None,
    };
    RawSettings {
        keyword,
        email: text_at(config, "default.email"),
        time: text_at(config, "default.time"),
        weekday: text_at(config, "default.weekday"),
        id: text_at(config, "profile.id"),
        password: text_at(config, "profile.password"),
    }
}

} // verus!
