//! The user's settings and the JSON document they are stored as.
//!
//! The document is an object with six members under camel-case keys. A missing
//! document stands for the default settings; a document that is present but
//! unreadable is an error, never a silent fallback.
use vstd::prelude::*;
use vstd::string::StringExecFns;
use crate::json::{
    bool_of, bool_value, object_entries, object_get, object_of, object_value, parse_of,
    parse_text, str_of, string_value, to_pretty_text, u32_value, u64_of, flat_members,
    member_keys, object_keys, pretty_object_text, scalar_of, Scalar,
};

verus! {

/// The persisted user preferences.
#[derive(Clone, Debug)]
pub struct Settings {
    pub auto_import_enabled: bool,
    /// Minutes between two imports; any value is kept as it is.
    pub auto_import_interval: u32,
    pub alarm_enabled: bool,
    pub notification_enabled: bool,
    pub pontomais_login: String,
    /// Kept in plain text, as the user typed it.
    pub pontomais_password: String,
}

/// The settings with both texts as character sequences.
pub struct SettingsView {
    pub auto_import_enabled: bool,
    pub auto_import_interval: u32,
    pub alarm_enabled: bool,
    pub notification_enabled: bool,
    pub pontomais_login: Seq<char>,
    pub pontomais_password: Seq<char>,
}

impl View for Settings {
    type V = SettingsView;

    open spec fn view(&self) -> SettingsView {
        SettingsView {
            auto_import_enabled: self.auto_import_enabled,
            auto_import_interval: self.auto_import_interval,
            alarm_enabled: self.alarm_enabled,
            notification_enabled: self.notification_enabled,
            pontomais_login: self.pontomais_login@,
            pontomais_password: self.pontomais_password@,
        }
    }
}

/// The settings of a first run: every switch off, an import every ten
/// minutes, no credentials.
pub open spec fn default_settings() -> SettingsView {
    SettingsView {
        auto_import_enabled: false,
        auto_import_interval: 10,
        alarm_enabled: false,
        notification_enabled: false,
        pontomais_login: Seq::empty(),
        pontomais_password: Seq::empty(),
    }
}

impl Default for Settings {
    fn default() -> (r: Settings)
        ensures
            r@ == default_settings(),
    {
        Settings {
            auto_import_enabled: false,
            auto_import_interval: 10,
            alarm_enabled: false,
            notification_enabled: false,
            pontomais_login: String::new(),
            pontomais_password: String::new(),
        }
    }
}

impl PartialEq for Settings {
    fn eq(&self, o: &Settings) -> (r: bool)
        ensures
            r == (self@ == o@),
    {
        self.auto_import_enabled == o.auto_import_enabled
            && self.auto_import_interval == o.auto_import_interval
            && self.alarm_enabled == o.alarm_enabled
            && self.notification_enabled == o.notification_enabled
            && self.pontomais_login == o.pontomais_login
            && self.pontomais_password == o.pontomais_password
    }
}

impl vstd::std_specs::cmp::PartialEqSpecImpl for Settings {
    open spec fn obeys_eq_spec() -> bool {
        true
    }

    open spec fn eq_spec(&self, o: &Settings) -> bool {
        self@ == o@
    }
}

/// A member of the settings document.
#[derive(Clone, Copy, Debug, PartialEq, Eq, Structural)]
pub enum Field {
    AutoImportEnabled,
    AutoImportInterval,
    AlarmEnabled,
    NotificationEnabled,
    PontomaisLogin,
    PontomaisPassword,
}

impl Field {
    /// The member's key in the document.
    pub open spec fn key(self) -> Seq<char> {
        match self {
            Field::AutoImportEnabled => "autoImportEnabled"@,
            Field::AutoImportInterval => "autoImportInterval"@,
            Field::AlarmEnabled => "alarmEnabled"@,
            Field::NotificationEnabled => "notificationEnabled"@,
            Field::PontomaisLogin => "pontomaisLogin"@,
            Field::PontomaisPassword => "pontomaisPassword"@,
        }
    }

    pub fn name(self) -> (r: &'static str)
        ensures
            r@ == self.key(),
    {
        match self {
            Field::AutoImportEnabled => "autoImportEnabled",
            Field::AutoImportInterval => "autoImportInterval",
            Field::AlarmEnabled => "alarmEnabled",
            Field::NotificationEnabled => "notificationEnabled",
            Field::PontomaisLogin => "pontomaisLogin",
            Field::PontomaisPassword => "pontomaisPassword",
        }
    }
}

/// Why a document does not hold settings.
#[derive(Clone, Debug)]
pub enum DecodeFailure {
    /// The text is not JSON; serde_json's message.
    Syntax(String),
    /// The JSON value is not an object.
    NotAnObject,
    /// The object has no member under the field's key.
    MissingField(Field),
    /// The member is not of the field's JSON type.
    WrongType(Field),
    /// The member is an integer that does not fit the field.
    OutOfRange(Field),
}

/// What can go wrong while settings are stored or fetched.
#[derive(Clone, Debug)]
pub enum SettingsError {
    /// The application's data directory could not be found or made.
    PathResolution(String),
    /// The settings file could not be read or written.
    Io(String),
    /// The settings could not be written as JSON.
    Serialization(String),
    /// The settings file is present but holds no settings.
    Deserialization(DecodeFailure),
}

/// The keys of the document in their declared order.
pub open spec fn document_key_order() -> Seq<Seq<char>> {
    seq![
        Field::AutoImportEnabled.key(),
        Field::AutoImportInterval.key(),
        Field::AlarmEnabled.key(),
        Field::NotificationEnabled.key(),
        Field::PontomaisLogin.key(),
        Field::PontomaisPassword.key(),
    ]
}

/// The members of the document of `s`, in declared order.
pub open spec fn settings_members(s: SettingsView) -> Seq<(Seq<char>, Scalar)> {
    seq![
        (Field::AutoImportEnabled.key(), Scalar::Flag(s.auto_import_enabled)),
        (Field::AutoImportInterval.key(), Scalar::Count(s.auto_import_interval as u64)),
        (Field::AlarmEnabled.key(), Scalar::Flag(s.alarm_enabled)),
        (Field::NotificationEnabled.key(), Scalar::Flag(s.notification_enabled)),
        (Field::PontomaisLogin.key(), Scalar::Text(s.pontomais_login)),
        (Field::PontomaisPassword.key(), Scalar::Text(s.pontomais_password)),
    ]
}

/// `v` is the JSON document of `s`: an object with exactly the six members,
/// in declared order, each holding the field's value.
pub open spec fn is_document_of(v: serde_json::Value, s: SettingsView) -> bool {
    flat_members(v) == Some(settings_members(s))
}

/// The text stored for `s`: the indented JSON text of its document.
pub open spec fn stored_text(s: SettingsView) -> Seq<char> {
    pretty_object_text(settings_members(s))
}

/// The six keys are distinct.
pub proof fn lemma_keys_distinct()
    ensures
        document_key_order().no_duplicates(),
{
    reveal_strlit("autoImportEnabled");
    reveal_strlit("autoImportInterval");
    reveal_strlit("alarmEnabled");
    reveal_strlit("notificationEnabled");
    reveal_strlit("pontomaisLogin");
    reveal_strlit("pontomaisPassword");
    let k = document_key_order();
    assert forall|i: int, j: int| 0 <= i < k.len() && 0 <= j < k.len() && i != j implies k[i]
        != k[j] by {
        assert(k[i].len() != k[j].len() || k[i][0] != k[j][0] || k[i][1] != k[j][1] || k[i][9]
            != k[j][9]);
    }
}

pub open spec fn read_flag(e: Map<Seq<char>, serde_json::Value>, f: Field) -> Result<bool, DecodeFailure> {
    if !e.contains_key(f.key()) {
        Err(DecodeFailure::MissingField(f))
    } else {
        match bool_of(e[f.key()]) {
            Some(b) => Ok(b),
            None => Err(DecodeFailure::WrongType(f)),
        }
    }
}

pub open spec fn read_minutes(e: Map<Seq<char>, serde_json::Value>, f: Field) -> Result<u32, DecodeFailure> {
    if !e.contains_key(f.key()) {
        Err(DecodeFailure::MissingField(f))
    } else {
        match u64_of(e[f.key()]) {
            Some(n) => if n <= u32::MAX { Ok(n as u32) } else { Err(DecodeFailure::OutOfRange(f)) },
            None => Err(DecodeFailure::WrongType(f)),
        }
    }
}

pub open spec fn read_text(e: Map<Seq<char>, serde_json::Value>, f: Field) -> Result<Seq<char>, DecodeFailure> {
    if !e.contains_key(f.key()) {
        Err(DecodeFailure::MissingField(f))
    } else {
        match str_of(e[f.key()]) {
            Some(t) => Ok(t),
            None => Err(DecodeFailure::WrongType(f)),
        }
    }
}

/// The settings that an object's entries hold, the fields read in their
/// declared order; members under other keys are ignored.
pub open spec fn decode_entries(e: Map<Seq<char>, serde_json::Value>) -> Result<SettingsView, DecodeFailure> {
    match read_flag(e, Field::AutoImportEnabled) {
        Err(x) => Err(x),
        Ok(auto_import_enabled) => match read_minutes(e, Field::AutoImportInterval) {
            Err(x) => Err(x),
            Ok(auto_import_interval) => match read_flag(e, Field::AlarmEnabled) {
                Err(x) => Err(x),
                Ok(alarm_enabled) => match read_flag(e, Field::NotificationEnabled) {
                    Err(x) => Err(x),
                    Ok(notification_enabled) => match read_text(e, Field::PontomaisLogin) {
                        Err(x) => Err(x),
                        Ok(pontomais_login) => match read_text(e, Field::PontomaisPassword) {
                            Err(x) => Err(x),
                            Ok(pontomais_password) => Ok(SettingsView {
                                auto_import_enabled,
                                auto_import_interval,
                                alarm_enabled,
                                notification_enabled,
                                pontomais_login,
                                pontomais_password,
                            }),
                        },
                    },
                },
            },
        },
    }
}

/// The settings that a JSON value holds.
pub open spec fn decode_document(v: serde_json::Value) -> Result<SettingsView, DecodeFailure> {
    match object_of(v) {
        None => Err(DecodeFailure::NotAnObject),
        Some(m) => decode_entries(object_entries(m)),
    }
}

/// The outcome of reading a stored text.
pub open spec fn decode_text(t: Seq<char>, r: Result<Settings, SettingsError>) -> bool {
    match parse_of(t) {
        None => r matches Err(SettingsError::Deserialization(DecodeFailure::Syntax(_))),
        Some(v) => match decode_document(v) {
            Ok(m) => r matches Ok(s) && s@ == m,
            Err(x) => r == Err::<Settings, SettingsError>(SettingsError::Deserialization(x)),
        },
    }
}

fn flag_member(m: &serde_json::Map<String, serde_json::Value>, f: Field) -> (r: Result<bool, DecodeFailure>)
    ensures
        r == read_flag(object_entries(*m), f),
{
    match object_get(m, f.name()) {
        None => Err(DecodeFailure::MissingField(f)),
        Some(v) => match v.as_bool() {
            Some(b) => Ok(b),
            None => Err(DecodeFailure::WrongType(f)),
        },
    }
}

fn minutes_member(m: &serde_json::Map<String, serde_json::Value>, f: Field) -> (r: Result<u32, DecodeFailure>)
    ensures
        r == read_minutes(object_entries(*m), f),
{
    match object_get(m, f.name()) {
        None => Err(DecodeFailure::MissingField(f)),
        Some(v) => match v.as_u64() {
            Some(n) => if n <= u32::MAX as u64 {
                Ok(n as u32)
            } else {
                Err(DecodeFailure::OutOfRange(f))
            },
            None => Err(DecodeFailure::WrongType(f)),
        },
    }
}

fn text_member(m: &serde_json::Map<String, serde_json::Value>, f: Field) -> (r: Result<String, DecodeFailure>)
    ensures
        match r {
            Ok(t) => read_text(object_entries(*m), f) == Ok::<Seq<char>, DecodeFailure>(t@),
            Err(x) => read_text(object_entries(*m), f) == Err::<Seq<char>, DecodeFailure>(x),
        },
{
    match object_get(m, f.name()) {
        None => Err(DecodeFailure::MissingField(f)),
        Some(v) => match v.as_str() {
            Some(t) => Ok(String::from_str(t)),
            None => Err(DecodeFailure::WrongType(f)),
        },
    }
}

/// Reads the settings out of a JSON document.
pub fn settings_from_document(v: &serde_json::Value) -> (r: Result<Settings, DecodeFailure>)
    ensures
        match r {
            Ok(s) => decode_document(*v) == Ok::<SettingsView, DecodeFailure>(s@),
            Err(x) => decode_document(*v) == Err::<SettingsView, DecodeFailure>(x),
        },
{
    let m = match v.as_object() {
        None => return Err(DecodeFailure::NotAnObject),
        Some(m) => m,
    };
    let auto_import_enabled = flag_member(m, Field::AutoImportEnabled)?;
    let auto_import_interval = minutes_member(m, Field::AutoImportInterval)?;
    let alarm_enabled = flag_member(m, Field::AlarmEnabled)?;
    let notification_enabled = flag_member(m, Field::NotificationEnabled)?;
    let pontomais_login = text_member(m, Field::PontomaisLogin)?;
    let pontomais_password = text_member(m, Field::PontomaisPassword)?;
    Ok(Settings {
        auto_import_enabled,
        auto_import_interval,
        alarm_enabled,
        notification_enabled,
        pontomais_login,
        pontomais_password,
    })
}

/// Writes the settings as a JSON document.
pub fn settings_to_document(settings: Settings) -> (r: serde_json::Value)
    ensures
        is_document_of(r, settings@),
{
    let ghost sv = settings@;
    proof {
        lemma_keys_distinct();
    }
    let ghost k = document_key_order();
    let mut m = serde_json::Map::new();
    m.insert(String::from_str(Field::AutoImportEnabled.name()), bool_value(settings.auto_import_enabled));
    assert(object_keys(m) =~= k.subrange(0, 1));
    m.insert(String::from_str(Field::AutoImportInterval.name()), u32_value(settings.auto_import_interval));
    assert(object_keys(m) =~= k.subrange(0, 2));
    m.insert(String::from_str(Field::AlarmEnabled.name()), bool_value(settings.alarm_enabled));
    assert(object_keys(m) =~= k.subrange(0, 3));
    m.insert(String::from_str(Field::NotificationEnabled.name()), bool_value(settings.notification_enabled));
    assert(object_keys(m) =~= k.subrange(0, 4));
    m.insert(String::from_str(Field::PontomaisLogin.name()), string_value(settings.pontomais_login));
    assert(object_keys(m) =~= k.subrange(0, 5));
    m.insert(String::from_str(Field::PontomaisPassword.name()), string_value(settings.pontomais_password));
    proof {
        let e = object_entries(m);
        assert(object_keys(m) =~= k);
        assert(k.to_set() =~= e.dom()) by {
            assert forall|x: Seq<char>| k.to_set().contains(x) <==> e.dom().contains(x) by {
                if k.to_set().contains(x) {
                    let i = choose|i: int| 0 <= i < k.len() && k[i] == x;
                }
                if e.dom().contains(x) {
                    assert(k[0] == x || k[1] == x || k[2] == x || k[3] == x || k[4] == x || k[5] == x);
                }
            }
        }
        assert forall|i: int| 0 <= i < k.len() implies (#[trigger] scalar_of(e[k[i]])) is Some by {}
        assert(k.map_values(|x: Seq<char>| (x, scalar_of(e[x]).unwrap())) =~= settings_members(sv));
    }
    object_value(m)
}

/// Decoding the document of `s` gives back `s`, all six fields exactly.
pub proof fn lemma_document_round_trip(v: serde_json::Value, s: SettingsView)
    requires
        is_document_of(v, s),
    ensures
        decode_document(v) == Ok::<SettingsView, DecodeFailure>(s),
{
    let m = object_of(v).unwrap();
    let keys = object_keys(m);
    let e = object_entries(m);
    let ms = settings_members(s);
    assert(keys.len() == 6) by {
        assert(keys.map_values(|k: Seq<char>| (k, scalar_of(e[k]).unwrap())).len() == ms.len());
    }
    assert forall|i: int| 0 <= i < 6 implies keys[i] == ms[i].0 && e.contains_key(keys[i])
        && scalar_of(e[keys[i]]) == Some(ms[i].1) by {
        let mapped = keys.map_values(|k: Seq<char>| (k, scalar_of(e[k]).unwrap()));
        assert(mapped[i] == ms[i]);
        assert(keys.to_set().contains(keys[i]));
        assert(scalar_of(e[keys[i]]) is Some);
    }
    assert(keys[0] == Field::AutoImportEnabled.key());
    assert(keys[1] == Field::AutoImportInterval.key());
    assert(keys[2] == Field::AlarmEnabled.key());
    assert(keys[3] == Field::NotificationEnabled.key());
    assert(keys[4] == Field::PontomaisLogin.key());
    assert(keys[5] == Field::PontomaisPassword.key());
}

/// A stored text that is not JSON, a truncated file for one, makes loading
/// fail with a deserialization error: it never falls back to the defaults.
pub proof fn lemma_unreadable_text_is_an_error(t: Seq<char>, r: Result<Settings, SettingsError>)
    requires
        decode_text(t, r),
        parse_of(t) is None,
    ensures
        r matches Err(SettingsError::Deserialization(DecodeFailure::Syntax(_))),
        !(r is Ok),
{
}

/// The text to store for `settings`: the indented JSON text of its document,
/// the six members in declared order. Writing never fails, checks no value,
/// and the text depends on `settings` alone, so storing it replaces whatever
/// was stored before and two saves of equal settings give the same text.
pub fn save_settings(settings: Settings) -> (r: Result<String, SettingsError>)
    ensures
        r is Ok,
        r matches Ok(t) ==> t@ == stored_text(settings@),
{
    let document = settings_to_document(settings);
    match to_pretty_text(&document) {
        Ok(t) => Ok(t),
        Err(message) => Err(SettingsError::Serialization(message)),
    }
}

/// Reads settings out of a stored text.
pub fn settings_from_json(text: &str) -> (r: Result<Settings, SettingsError>)
    ensures
        decode_text(text@, r),
        forall|s: SettingsView| #[trigger] stored_text(s) == text@ ==> (r matches Ok(x) && x@ == s),
{
    let parsed = parse_text(text);
    let r = match parsed {
        Err(message) => Err(SettingsError::Deserialization(DecodeFailure::Syntax(message))),
        Ok(document) => match settings_from_document(&document) {
            Ok(s) => Ok(s),
            Err(x) => Err(SettingsError::Deserialization(x)),
        },
    };
    proof {
        assert forall|s: SettingsView| #[trigger] stored_text(s) == text@ implies (r matches Ok(x)
            && x@ == s) by {
            lemma_keys_distinct();
            assert(member_keys(settings_members(s)) =~= document_key_order());
            assert(pretty_object_text(settings_members(s)) == text@);
            let v = parsed.unwrap();
            lemma_document_round_trip(v, s);
        }
    }
    r
}

/// The settings held by the stored text, if there is one: no text gives the
/// default settings, a text gives what it holds or the reason it holds none.
pub fn load_settings(stored: Option<&str>) -> (r: Result<Settings, SettingsError>)
    ensures
        stored is None ==> (r matches Ok(s) && s@ == default_settings()),
        stored matches Some(t) ==> decode_text(t@, r),
        stored matches Some(t) ==> forall|s: SettingsView| #[trigger] stored_text(s) == t@ ==> (
        r matches Ok(x) && x@ == s),
{
    match stored {
        None => Ok(Settings::default()),
        Some(text) => settings_from_json(text),
    }
}

} // verus!
