use vstd::prelude::*;
use crate::text::same_text;

verus! {

/// Key under which the configuration is stored.
pub const STORAGE_KEY: &'static str = "seed";

/// Stored form of a configuration in light mode.
pub const LIGHT_TEXT: &'static str = "{\"mode\":\"Light\"}";

/// Stored form of a configuration in dark mode.
pub const DARK_TEXT: &'static str = "{\"mode\":\"Dark\"}";

/// Display mode, the one preference kept across sessions.
#[derive(Clone, Copy, Debug, PartialEq, Eq, Structural)]
pub enum Mode {
    Light,
    Dark,
}

impl Mode {
    pub open spec fn toggled(self) -> Mode {
        match self {
            Mode::Light => Mode::Dark,
            Mode::Dark => Mode::Light,
        }
    }

    pub fn toggle(&mut self)
        ensures
            *final(self) == old(self).toggled(),
    {
        *self = match self {
            Mode::Light => Mode::Dark,
            Mode::Dark => Mode::Light,
        };
    }
}

impl Default for Mode {
    fn default() -> (r: Mode)
        ensures
            r == Mode::Light,
    {
        Mode::Light
    }
}

/// The persisted record.
#[derive(Clone, Copy, Debug, PartialEq, Eq, Structural)]
pub struct Config {
    pub mode: Mode,
}

impl Default for Config {
    fn default() -> (r: Config)
        ensures
            r == default_config(),
    {
        Config { mode: Mode::Light }
    }
}

pub open spec fn default_config() -> Config {
    Config { mode: Mode::Light }
}

/// Stored form of a configuration.
pub open spec fn stored_text(c: Config) -> Seq<char> {
    match c.mode {
        Mode::Light => LIGHT_TEXT@,
        Mode::Dark => DARK_TEXT@,
    }
}

/// The configuration read back from what the store holds: the record it
/// denotes, or the default when nothing is stored or the text is no record.
pub open spec fn config_from_stored(stored: Option<Seq<char>>) -> Config {
    match stored {
        Some(t) => if t == DARK_TEXT@ {
            Config { mode: Mode::Dark }
        } else {
            default_config()
        },
        None => default_config(),
    }
}

/// The configuration that a key-value store yields under the fixed key.
pub open spec fn loaded(store: Map<Seq<char>, Seq<char>>) -> Config {
    if store.contains_key(STORAGE_KEY@) {
        config_from_stored(Some(store[STORAGE_KEY@]))
    } else {
        config_from_stored(None)
    }
}

/// The store after a configuration is saved under the fixed key.
pub open spec fn saved(store: Map<Seq<char>, Seq<char>>, c: Config) -> Map<Seq<char>, Seq<char>> {
    store.insert(STORAGE_KEY@, stored_text(c))
}

impl Config {
    /// Text to write under the storage key.
    pub fn stored_text(&self) -> (r: String)
        ensures
            r@ == stored_text(*self),
    {
        match self.mode {
            Mode::Light => String::from_str(LIGHT_TEXT),
            Mode::Dark => String::from_str(DARK_TEXT),
        }
    }
}

/// Reads the configuration from what the store holds under the storage
/// key; absent or malformed text gives the default configuration.
pub fn load_config(stored: Option<&str>) -> (r: Config)
    ensures
        r == config_from_stored(
            match stored {
                Some(t) => Some(t@),
                None => None,
            },
        ),
{
    match stored {
        Some(t) => {
            if same_text(t, DARK_TEXT) {
                Config { mode: Mode::Dark }
            } else {
                Config::default()
            }
        },
        None => Config::default(),
    }
}

/// Saving a configuration and loading it back gives the same configuration,
/// whatever else the store holds.
pub proof fn lemma_save_then_load(store: Map<Seq<char>, Seq<char>>, c: Config)
    ensures
        loaded(saved(store, c)) == c,
{
    reveal_strlit("{\"mode\":\"Light\"}");
    reveal_strlit("{\"mode\":\"Dark\"}");
    assert(saved(store, c)[STORAGE_KEY@] == stored_text(c));
    if c.mode is Light {
        assert(LIGHT_TEXT@[9] != DARK_TEXT@[9]);
    }
}

/// Loading from an empty store gives the default configuration.
pub proof fn lemma_load_empty()
    ensures
        loaded(Map::empty()) == default_config(),
{
}

} // verus!
