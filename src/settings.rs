//! User preferences and their persisted document.

use crate::document::{lookup, Document, JsonModel, JsonValue};
use vstd::prelude::*;

verus! {

pub const FONT_SIZE_KEY: &'static str = "font_size";
pub const LAUNCH_AT_LOGIN_KEY: &'static str = "launch_at_login";
pub const LOCKFILE_DIR_KEY: &'static str = "lockfile_dir";
pub const DAYLIT_PATH_KEY: &'static str = "daylit_path";
pub const USE_NATIVE_KEY: &'static str = "use_native_notifications";

/// The font size that a fresh installation uses.
pub const DEFAULT_FONT_SIZE: &'static str = "medium";

/// User preferences. `lockfile_dir` overrides where the rendezvous lockfile
/// lives; `daylit_path` overrides the external notifier's program.
pub struct Settings {
    pub font_size: String,
    pub launch_at_login: bool,
    pub lockfile_dir: Option<String>,
    pub daylit_path: Option<String>,
    pub use_native_notifications: bool,
}

pub struct SettingsView {
    pub font_size: Seq<char>,
    pub launch_at_login: bool,
    pub lockfile_dir: Option<Seq<char>>,
    pub daylit_path: Option<Seq<char>>,
    pub use_native_notifications: bool,
}

pub open spec fn opt_view(o: Option<String>) -> Option<Seq<char>> {
    match o {
        Some(s) => Some(s@),
        None => None,
    }
}

impl View for Settings {
    type V = SettingsView;

    open spec fn view(&self) -> SettingsView {
        SettingsView {
            font_size: self.font_size@,
            launch_at_login: self.launch_at_login,
            lockfile_dir: opt_view(self.lockfile_dir),
            daylit_path: opt_view(self.daylit_path),
            use_native_notifications: self.use_native_notifications,
        }
    }
}

/// The documented defaults.
pub open spec fn default_settings() -> SettingsView {
    SettingsView {
        font_size: DEFAULT_FONT_SIZE@,
        launch_at_login: false,
        lockfile_dir: None,
        daylit_path: None,
        use_native_notifications: false,
    }
}

/// A text field: missing gives the default, a string gives itself, anything
/// else does not fit (`None`).
pub open spec fn text_field(v: Option<JsonModel>, default: Seq<char>) -> Option<Seq<char>> {
    match v {
        None => Some(default),
        Some(JsonModel::Text(t)) => Some(t),
        Some(_) => None,
    }
}

pub open spec fn bool_field(v: Option<JsonModel>, default: bool) -> Option<bool> {
    match v {
        None => Some(default),
        Some(JsonModel::Bool(b)) => Some(b),
        Some(_) => None,
    }
}

/// An optional text field: missing or null is absent, a string is present.
pub open spec fn optional_text_field(v: Option<JsonModel>) -> Option<Option<Seq<char>>> {
    match v {
        None => Some(None),
        Some(JsonModel::Null) => Some(None),
        Some(JsonModel::Text(t)) => Some(Some(t)),
        Some(_) => None,
    }
}

/// The settings that a stored document stands for: missing fields take their
/// defaults, and a document that is absent or has a field of the wrong kind
/// stands for the defaults as a whole.
pub open spec fn settings_of(doc: Option<Seq<(Seq<char>, JsonModel)>>) -> SettingsView {
    match doc {
        None => default_settings(),
        Some(d) => {
            let f = text_field(lookup(d, FONT_SIZE_KEY@), DEFAULT_FONT_SIZE@);
            let l = bool_field(lookup(d, LAUNCH_AT_LOGIN_KEY@), false);
            let k = optional_text_field(lookup(d, LOCKFILE_DIR_KEY@));
            let p = optional_text_field(lookup(d, DAYLIT_PATH_KEY@));
            let n = bool_field(lookup(d, USE_NATIVE_KEY@), false);
            if f is Some && l is Some && k is Some && p is Some && n is Some {
                SettingsView {
                    font_size: f.unwrap(),
                    launch_at_login: l.unwrap(),
                    lockfile_dir: k.unwrap(),
                    daylit_path: p.unwrap(),
                    use_native_notifications: n.unwrap(),
                }
            } else {
                default_settings()
            }
        },
    }
}

pub open spec fn optional_text_model(o: Option<Seq<char>>) -> JsonModel {
    match o {
        Some(t) => JsonModel::Text(t),
        None => JsonModel::Null,
    }
}

/// The document that saving a `Settings` value stores.
pub open spec fn settings_document(s: SettingsView) -> Seq<(Seq<char>, JsonModel)> {
    seq![
        (FONT_SIZE_KEY@, JsonModel::Text(s.font_size)),
        (LAUNCH_AT_LOGIN_KEY@, JsonModel::Bool(s.launch_at_login)),
        (LOCKFILE_DIR_KEY@, optional_text_model(s.lockfile_dir)),
        (DAYLIT_PATH_KEY@, optional_text_model(s.daylit_path)),
        (USE_NATIVE_KEY@, JsonModel::Bool(s.use_native_notifications)),
    ]
}

pub open spec fn opt_doc_view(doc: Option<&Document>) -> Option<Seq<(Seq<char>, JsonModel)>> {
    match doc {
        Some(d) => Some(d@),
        None => None,
    }
}

fn clone_opt(o: &Option<String>) -> (r: Option<String>)
    ensures
        opt_view(r) == opt_view(*o),
{
    match o {
        Some(s) => Some(s.clone()),
        None => None,
    }
}

fn read_text(v: Option<&JsonValue>, default: &str) -> (r: Option<String>)
    ensures
        opt_view(r) == text_field(
            match v {
                Some(x) => Some(x@),
                None => None,
            },
            default@,
        ),
{
    match v {
        None => Some(default.to_owned()),
        Some(JsonValue::Text(t)) => Some(t.clone()),
        Some(_) => None,
    }
}

fn read_bool(v: Option<&JsonValue>, default: bool) -> (r: Option<bool>)
    ensures
        r == bool_field(
            match v {
                Some(x) => Some(x@),
                None => None,
            },
            default,
        ),
{
    match v {
        None => Some(default),
        Some(JsonValue::Bool(b)) => Some(*b),
        Some(_) => None,
    }
}

fn read_optional_text(v: Option<&JsonValue>) -> (r: Option<Option<String>>)
    ensures
        match r {
            Some(o) => optional_text_field(
                match v {
                    Some(x) => Some(x@),
                    None => None,
                },
            ) == Some(opt_view(o)),
            None => optional_text_field(
                match v {
                    Some(x) => Some(x@),
                    None => None,
                },
            ) is None,
        },
{
    match v {
        None => Some(None),
        Some(JsonValue::Null) => Some(None),
        Some(JsonValue::Text(t)) => Some(Some(t.clone())),
        Some(_) => None,
    }
}

impl Clone for Settings {
    fn clone(&self) -> (r: Settings)
        ensures
            r@ == self@,
    {
        Settings {
            font_size: self.font_size.clone(),
            launch_at_login: self.launch_at_login,
            lockfile_dir: clone_opt(&self.lockfile_dir),
            daylit_path: clone_opt(&self.daylit_path),
            use_native_notifications: self.use_native_notifications,
        }
    }
}

impl Default for Settings {
    fn default() -> (s: Settings)
        ensures
            s@ == default_settings(),
    {
        Settings {
            font_size: DEFAULT_FONT_SIZE.to_owned(),
            launch_at_login: false,
            lockfile_dir: None,
            daylit_path: None,
            use_native_notifications: false,
        }
    }
}

impl Settings {
    /// Reads settings from the stored document (`None` when nothing is
    /// stored); never fails, falling back to the defaults.
    pub fn load(doc: Option<&Document>) -> (s: Settings)
        ensures
            s@ == settings_of(opt_doc_view(doc)),
    {
        match doc {
            None => Settings::default(),
            Some(d) => {
                let f = read_text(d.get(FONT_SIZE_KEY), DEFAULT_FONT_SIZE);
                let l = read_bool(d.get(LAUNCH_AT_LOGIN_KEY), false);
                let k = read_optional_text(d.get(LOCKFILE_DIR_KEY));
                let p = read_optional_text(d.get(DAYLIT_PATH_KEY));
                let n = read_bool(d.get(USE_NATIVE_KEY), false);
                match (f, l, k, p, n) {
                    (Some(f), Some(l), Some(k), Some(p), Some(n)) => Settings {
                        font_size: f,
                        launch_at_login: l,
                        lockfile_dir: k,
                        daylit_path: p,
                        use_native_notifications: n,
                    },
                    _ => Settings::default(),
                }
            },
        }
    }

    /// The document that saving these settings stores.
    pub fn to_document(&self) -> (d: Document)
        ensures
            d@ == settings_document(self@),
    {
        let mut d = Document::new();
        d.push(FONT_SIZE_KEY, JsonValue::Text(self.font_size.clone()));
        d.push(LAUNCH_AT_LOGIN_KEY, JsonValue::Bool(self.launch_at_login));
        d.push(LOCKFILE_DIR_KEY, optional_text_value(&self.lockfile_dir));
        d.push(DAYLIT_PATH_KEY, optional_text_value(&self.daylit_path));
        d.push(USE_NATIVE_KEY, JsonValue::Bool(self.use_native_notifications));
        d
    }
}

/// Every field that the document holds has the kind its setting needs: text
/// for the font size, a boolean for each flag, null or text for each path.
pub open spec fn well_kinded(d: Seq<(Seq<char>, JsonModel)>) -> bool {
    &&& text_field(lookup(d, FONT_SIZE_KEY@), DEFAULT_FONT_SIZE@) is Some
    &&& bool_field(lookup(d, LAUNCH_AT_LOGIN_KEY@), false) is Some
    &&& optional_text_field(lookup(d, LOCKFILE_DIR_KEY@)) is Some
    &&& optional_text_field(lookup(d, DAYLIT_PATH_KEY@)) is Some
    &&& bool_field(lookup(d, USE_NATIVE_KEY@), false) is Some
}

proof fn lemma_keys_distinct()
    ensures
        FONT_SIZE_KEY@ != LAUNCH_AT_LOGIN_KEY@,
        FONT_SIZE_KEY@ != LOCKFILE_DIR_KEY@,
        FONT_SIZE_KEY@ != DAYLIT_PATH_KEY@,
        FONT_SIZE_KEY@ != USE_NATIVE_KEY@,
        LAUNCH_AT_LOGIN_KEY@ != LOCKFILE_DIR_KEY@,
        LAUNCH_AT_LOGIN_KEY@ != DAYLIT_PATH_KEY@,
        LAUNCH_AT_LOGIN_KEY@ != USE_NATIVE_KEY@,
        LOCKFILE_DIR_KEY@ != DAYLIT_PATH_KEY@,
        LOCKFILE_DIR_KEY@ != USE_NATIVE_KEY@,
        DAYLIT_PATH_KEY@ != USE_NATIVE_KEY@,
{
    reveal_strlit("font_size");
    reveal_strlit("launch_at_login");
    reveal_strlit("lockfile_dir");
    reveal_strlit("daylit_path");
    reveal_strlit("use_native_notifications");
    assert(FONT_SIZE_KEY@.len() != LAUNCH_AT_LOGIN_KEY@.len());
    assert(FONT_SIZE_KEY@.len() != LOCKFILE_DIR_KEY@.len());
    assert(FONT_SIZE_KEY@[0] != DAYLIT_PATH_KEY@[0]);
    assert(FONT_SIZE_KEY@.len() != USE_NATIVE_KEY@.len());
    assert(LAUNCH_AT_LOGIN_KEY@.len() != LOCKFILE_DIR_KEY@.len());
    assert(LAUNCH_AT_LOGIN_KEY@.len() != DAYLIT_PATH_KEY@.len());
    assert(LAUNCH_AT_LOGIN_KEY@.len() != USE_NATIVE_KEY@.len());
    assert(LOCKFILE_DIR_KEY@.len() != DAYLIT_PATH_KEY@.len());
    assert(LOCKFILE_DIR_KEY@.len() != USE_NATIVE_KEY@.len());
    assert(DAYLIT_PATH_KEY@.len() != USE_NATIVE_KEY@.len());
}

/// Loading the document that saving stores gives back the settings that were
/// saved, for every settings value.
pub proof fn lemma_load_after_save(s: SettingsView)
    ensures
        settings_of(Some(settings_document(s))) == s,
{
    lemma_keys_distinct();
    let d = settings_document(s);
    reveal_with_fuel(lookup, 6);
    assert(lookup(d, FONT_SIZE_KEY@) == Some(JsonModel::Text(s.font_size)));
    assert(lookup(d, LAUNCH_AT_LOGIN_KEY@) == Some(JsonModel::Bool(s.launch_at_login)));
    assert(lookup(d, LOCKFILE_DIR_KEY@) == Some(optional_text_model(s.lockfile_dir)));
    assert(lookup(d, DAYLIT_PATH_KEY@) == Some(optional_text_model(s.daylit_path)));
    assert(lookup(d, USE_NATIVE_KEY@) == Some(JsonModel::Bool(s.use_native_notifications)));
}

/// A stored document that lacks any subset of the fields loads with each
/// missing field at its documented default and each present field as stored.
pub proof fn lemma_missing_fields_take_defaults(d: Seq<(Seq<char>, JsonModel)>)
    requires
        well_kinded(d),
    ensures
        ({
            let s = settings_of(Some(d));
            &&& s.font_size == text_field(lookup(d, FONT_SIZE_KEY@), DEFAULT_FONT_SIZE@).unwrap()
            &&& s.launch_at_login == bool_field(lookup(d, LAUNCH_AT_LOGIN_KEY@), false).unwrap()
            &&& s.lockfile_dir == optional_text_field(lookup(d, LOCKFILE_DIR_KEY@)).unwrap()
            &&& s.daylit_path == optional_text_field(lookup(d, DAYLIT_PATH_KEY@)).unwrap()
            &&& s.use_native_notifications == bool_field(lookup(d, USE_NATIVE_KEY@), false).unwrap()
            &&& lookup(d, FONT_SIZE_KEY@) is None ==> s.font_size == default_settings().font_size
            &&& lookup(d, LAUNCH_AT_LOGIN_KEY@) is None ==> s.launch_at_login
                == default_settings().launch_at_login
            &&& lookup(d, LOCKFILE_DIR_KEY@) is None ==> s.lockfile_dir
                == default_settings().lockfile_dir
            &&& lookup(d, DAYLIT_PATH_KEY@) is None ==> s.daylit_path
                == default_settings().daylit_path
            &&& lookup(d, USE_NATIVE_KEY@) is None ==> s.use_native_notifications
                == default_settings().use_native_notifications
        }),
{
}

fn optional_text_value(o: &Option<String>) -> (v: JsonValue)
    ensures
        v@ == optional_text_model(opt_view(*o)),
{
    match o {
        Some(t) => JsonValue::Text(t.clone()),
        None => JsonValue::Null,
    }
}

} // verus!
