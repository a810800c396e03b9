//! The settings store: the two user preferences (model identifier,
//! exit-prevention flag) with their persisted JSON form and the in-memory
//! cached exit-prevention flag that the window-close path reads.
//!
//! The persisted form is one JSON object, `{"model":M,"prevent_exit":B}`,
//! written canonically: no extra whitespace, the model string escaped as in
//! [`crate::escape`]. The parser accepts exactly that canonical form;
//! anything else is a malformed settings file and is reported, never
//! silently defaulted.
use vstd::prelude::*;
use crate::escape::append_escaped;
use crate::escape::escape;
use crate::escape::lemma_scan_escape;
use crate::escape::scan_string;
use crate::escape::scan_string_exec;
use crate::strutil::str_starts_with;
use crate::strutil::str_tail_is;

verus! {

/// The two user preferences.
#[derive(Debug)]
pub struct Settings {
    pub model: String,
    pub prevent_exit: bool,
}

/// Why a persisted settings text was rejected.
#[derive(Clone, Copy, Debug, PartialEq, Eq, Structural)]
pub enum SettingsError {
    /// The text is not a canonical settings object.
    Malformed,
}

impl SettingsError {
    /// A human-readable account of the failure, for the caller-facing
    /// string boundary.
    pub fn message(&self) -> (r: String)
        ensures
            r@ == "settings text is not a valid settings object"@,
    {
        String::from_str("settings text is not a valid settings object")
    }
}

/// The JSON form of a boolean.
pub open spec fn bool_json(p: bool) -> Seq<char> {
    if p {
        "true"@
    } else {
        "false"@
    }
}

/// The canonical persisted form of the settings.
pub open spec fn settings_json(model: Seq<char>, prevent_exit: bool) -> Seq<char> {
    "{\"model\":\""@ + escape(model) + "\",\"prevent_exit\":"@ + bool_json(prevent_exit) + "}"@
}

/// What a settings text means: the model and flag it canonically encodes,
/// or nothing.
pub open spec fn parse_settings_spec(s: Seq<char>) -> Option<(Seq<char>, bool)> {
    let pre = "{\"model\":\""@;
    if s.len() >= pre.len() && s.take(pre.len() as int) == pre {
        match scan_string(s.skip(pre.len() as int)) {
            Some(r) => {
                if r.1 == ",\"prevent_exit\":true}"@ {
                    Some((r.0, true))
                } else if r.1 == ",\"prevent_exit\":false}"@ {
                    Some((r.0, false))
                } else {
                    None
                }
            },
            None => None,
        }
    } else {
        None
    }
}

/// Renders the exact text to persist for the given preferences. This is
/// the whole of the save operation's logic; it does not touch the cached
/// exit-prevention flag.
pub fn save_settings(model: &str, prevent_exit: bool) -> (r: String)
    ensures
        r@ == settings_json(model@, prevent_exit),
{
    let mut out = String::new();
    out.append("{\"model\":\"");
    append_escaped(&mut out, model);
    out.append("\",\"prevent_exit\":");
    if prevent_exit {
        out.append("true");
    } else {
        out.append("false");
    }
    out.append("}");
    proof {
        assert(out@ =~= settings_json(model@, prevent_exit));
    }
    out
}

/// Reads a persisted settings text back into the preferences it encodes.
pub fn parse_settings(s: &str) -> (r: Result<Settings, SettingsError>)
    ensures
        match r {
            Ok(st) => parse_settings_spec(s@) == Some((st.model@, st.prevent_exit)),
            Err(e) => parse_settings_spec(s@) is None && e == SettingsError::Malformed,
        },
{
    let pre = "{\"model\":\"";
    if !str_starts_with(s, pre) {
        return Err(SettingsError::Malformed);
    }
    let plen = pre.unicode_len();
    let scanned = scan_string_exec(s, plen);
    match scanned {
        Some((model, j)) => {
            if str_tail_is(s, j, ",\"prevent_exit\":true}") {
                Ok(Settings { model, prevent_exit: true })
            } else if str_tail_is(s, j, ",\"prevent_exit\":false}") {
                Ok(Settings { model, prevent_exit: false })
            } else {
                Err(SettingsError::Malformed)
            }
        },
        None => Err(SettingsError::Malformed),
    }
}

/// Parsing inverts rendering: a saved settings text reads back as exactly
/// the preferences it was saved with.
pub proof fn lemma_settings_round_trip(model: Seq<char>, prevent_exit: bool)
    ensures
        parse_settings_spec(settings_json(model, prevent_exit)) == Some((model, prevent_exit)),
{
    let s = settings_json(model, prevent_exit);
    let pre = "{\"model\":\""@;
    let mid = "\",\"prevent_exit\":"@;
    let rest = ",\"prevent_exit\":"@ + bool_json(prevent_exit) + "}"@;
    reveal_strlit("{\"model\":\"");
    reveal_strlit("\",\"prevent_exit\":");
    reveal_strlit(",\"prevent_exit\":");
    reveal_strlit(",\"prevent_exit\":true}");
    reveal_strlit(",\"prevent_exit\":false}");
    reveal_strlit("true");
    reveal_strlit("false");
    reveal_strlit("}");
    assert(mid =~= seq!['"'] + ",\"prevent_exit\":"@);
    assert(s.take(pre.len() as int) =~= pre);
    assert(s.skip(pre.len() as int) =~= escape(model) + (seq!['"'] + rest));
    lemma_scan_escape(model, rest);
    if prevent_exit {
        assert(rest =~= ",\"prevent_exit\":true}"@);
        assert(rest != ",\"prevent_exit\":false}"@) by {
            assert(rest.len() == 21 && ",\"prevent_exit\":false}"@.len() == 22);
        };
    } else {
        assert(rest =~= ",\"prevent_exit\":false}"@);
        assert(rest != ",\"prevent_exit\":true}"@) by {
            assert(rest.len() == 22 && ",\"prevent_exit\":true}"@.len() == 21);
        };
    }
}

/// What a load operation hands back: the settings now in force, their
/// canonical text, and whether that text still has to be written because
/// nothing was persisted yet.
pub struct LoadedSettings {
    pub settings: Settings,
    pub json: String,
    pub created: bool,
}

/// The settings store's in-memory shared state: the cached exit-prevention
/// flag, read synchronously on the window-close path so that path never
/// re-reads the persisted file.
pub struct SettingsStore {
    prevent_exit: bool,
}

impl SettingsStore {
    /// The cached "block exit" flag.
    pub closed spec fn prevent_exit_flag(&self) -> bool {
        self.prevent_exit
    }

    /// A fresh store; exit is not blocked until settings are loaded or the
    /// flag is set.
    pub fn new() -> (r: SettingsStore)
        ensures
            r.prevent_exit_flag() == false,
    {
        SettingsStore { prevent_exit: false }
    }

    /// Stores the logical negation of the input: the flag stores "block
    /// exit" while the caller passes "exit is allowed". The inversion is a
    /// deliberate contract of this store.
    pub fn set_exit_prevention(&mut self, exit_allowed: bool)
        ensures
            final(self).prevent_exit_flag() == !exit_allowed,
    {
        self.prevent_exit = !exit_allowed;
    }

    /// The flag as the window-close path reads it.
    pub fn exit_prevented(&self) -> (r: bool)
        ensures
            r == self.prevent_exit_flag(),
    {
        self.prevent_exit
    }

    /// The load operation's logic. `stored` is the persisted text, or
    /// nothing when no settings file exists yet: absence is not an error
    /// but a request to adopt and persist the caller-supplied defaults.
    /// Loading refreshes the cached exit-prevention flag; a malformed text
    /// is reported and leaves the flag alone.
    pub fn load_settings(
        &mut self,
        stored: Option<&str>,
        default_model: &str,
        default_prevent_exit: bool,
    ) -> (r: Result<LoadedSettings, SettingsError>)
        ensures
            match r {
                Ok(ls) => {
                    &&& ls.json@ == settings_json(ls.settings.model@, ls.settings.prevent_exit)
                    &&& final(self).prevent_exit_flag() == ls.settings.prevent_exit
                    &&& match stored {
                        Some(text) => parse_settings_spec(text@) == Some(
                            (ls.settings.model@, ls.settings.prevent_exit),
                        ) && !ls.created,
                        None => ls.settings.model@ == default_model@ && ls.settings.prevent_exit
                            == default_prevent_exit && ls.created,
                    }
                },
                Err(e) => {
                    &&& stored matches Some(text) && parse_settings_spec(text@) is None
                    &&& e == SettingsError::Malformed
                    &&& final(self).prevent_exit_flag() == old(self).prevent_exit_flag()
                },
            },
    {
        match stored {
            Some(text) => {
                match parse_settings(text) {
                    Ok(st) => {
                        let json = save_settings(st.model.as_str(), st.prevent_exit);
                        self.prevent_exit = st.prevent_exit;
                        Ok(LoadedSettings { settings: st, json, created: false })
                    },
                    Err(e) => Err(e),
                }
            },
            None => {
                let st = Settings {
                    model: String::from_str(default_model),
                    prevent_exit: default_prevent_exit,
                };
                let json = save_settings(default_model, default_prevent_exit);
                self.prevent_exit = default_prevent_exit;
                Ok(LoadedSettings { settings: st, json, created: true })
            },
        }
    }
}

} // verus!
