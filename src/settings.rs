//! The persisted configuration: its fields, defaults and repair.
use vstd::prelude::*;
use crate::codec::{decode_secret, decoded_secret, encode_secret, encoded_secret, lemma_secret_round_trip};
use crate::json::{get_member, get_text, json_parse, member, parse_json, text_of, JsonValue};
use crate::shortcut::ShortcutError;
use crate::text::{owned, str_eq};
use crate::validate::{model_id_verdict, url_verdict, validate_model_id, validate_url, ValidationError};

verus! {

/// Which header convention the chat endpoint expects.
#[derive(Clone, Copy, Debug, PartialEq, Eq, Structural)]
pub enum Dialect {
    /// The reference API's own convention.
    Standard,
    /// A compatible third-party endpoint.
    Compatible,
}

/// The connection configuration.
#[derive(Debug)]
pub struct Settings {
    /// The API secret, in clear; only its encoded form is persisted.
    pub secret: String,
    pub endpoint_url: String,
    pub model_id: String,
    pub shortcut: String,
    pub system_prompt: String,
    pub dialect: Dialect,
}

/// The placeholder secret that stands for "not configured".
pub const SECRET_PLACEHOLDER: &'static str = "your_api_key_here";

/// The default chat endpoint.
pub const DEFAULT_ENDPOINT: &'static str = "https://api.openai.com/v1/chat/completions";

/// The default model identifier.
pub const DEFAULT_MODEL: &'static str = "gpt-4o-mini";

/// The default hotkey.
pub const DEFAULT_SHORTCUT: &'static str = "CommandOrControl+Shift+Space";

/// The default system prompt.
pub const DEFAULT_SYSTEM_PROMPT: &'static str = "You are a helpful assistant.";

/// Whether a secret counts as not configured.
pub open spec fn secret_unset(secret: Seq<char>) -> bool {
    secret.len() == 0 || secret == SECRET_PLACEHOLDER@
}

/// Whether a secret counts as not configured: empty, or the placeholder.
pub fn is_secret_unset(secret: &str) -> (r: bool)
    ensures
        r == secret_unset(secret@),
{
    secret.unicode_len() == 0 || str_eq(secret, SECRET_PLACEHOLDER)
}

impl Settings {
    /// Every text field is non-empty.
    pub open spec fn valid(&self) -> bool {
        &&& self.secret@.len() > 0
        &&& self.endpoint_url@.len() > 0
        &&& self.model_id@.len() > 0
        &&& self.shortcut@.len() > 0
        &&& self.system_prompt@.len() > 0
    }

    /// Whether these are the built-in defaults.
    pub open spec fn is_default(&self) -> bool {
        &&& self.secret@ == SECRET_PLACEHOLDER@
        &&& self.endpoint_url@ == DEFAULT_ENDPOINT@
        &&& self.model_id@ == DEFAULT_MODEL@
        &&& self.shortcut@ == DEFAULT_SHORTCUT@
        &&& self.system_prompt@ == DEFAULT_SYSTEM_PROMPT@
        &&& self.dialect == Dialect::Standard
    }

    /// The built-in defaults.
    pub fn defaults() -> (r: Settings)
        ensures
            r.is_default(),
            r.valid(),
    {
        proof {
            reveal_strlit("your_api_key_here");
            reveal_strlit("https://api.openai.com/v1/chat/completions");
            reveal_strlit("gpt-4o-mini");
            reveal_strlit("CommandOrControl+Shift+Space");
            reveal_strlit("You are a helpful assistant.");
        }
        Settings {
            secret: owned(SECRET_PLACEHOLDER),
            endpoint_url: owned(DEFAULT_ENDPOINT),
            model_id: owned(DEFAULT_MODEL),
            shortcut: owned(DEFAULT_SHORTCUT),
            system_prompt: owned(DEFAULT_SYSTEM_PROMPT),
            dialect: Dialect::Standard,
        }
    }
}

/// The configuration as mathematical values.
pub struct SettingsModel {
    pub secret: Seq<char>,
    pub endpoint_url: Seq<char>,
    pub model_id: Seq<char>,
    pub shortcut: Seq<char>,
    pub system_prompt: Seq<char>,
    pub dialect: Dialect,
}

impl View for Settings {
    type V = SettingsModel;

    open spec fn view(&self) -> SettingsModel {
        SettingsModel {
            secret: self.secret@,
            endpoint_url: self.endpoint_url@,
            model_id: self.model_id@,
            shortcut: self.shortcut@,
            system_prompt: self.system_prompt@,
            dialect: self.dialect,
        }
    }
}

impl SettingsModel {
    /// Every text field is non-empty.
    pub open spec fn valid(self) -> bool {
        &&& self.secret.len() > 0
        &&& self.endpoint_url.len() > 0
        &&& self.model_id.len() > 0
        &&& self.shortcut.len() > 0
        &&& self.system_prompt.len() > 0
    }
}

/// The built-in defaults.
pub open spec fn default_model() -> SettingsModel {
    SettingsModel {
        secret: SECRET_PLACEHOLDER@,
        endpoint_url: DEFAULT_ENDPOINT@,
        model_id: DEFAULT_MODEL@,
        shortcut: DEFAULT_SHORTCUT@,
        system_prompt: DEFAULT_SYSTEM_PROMPT@,
        dialect: Dialect::Standard,
    }
}

/// Key of the encoded secret.
pub const KEY_SECRET: &'static str = "secret";

/// Key of the endpoint URL.
pub const KEY_URL: &'static str = "api_url";

/// Key of the model identifier.
pub const KEY_MODEL: &'static str = "model_name";

/// Key of the hotkey.
pub const KEY_SHORTCUT: &'static str = "shortcut";

/// Key of the system prompt.
pub const KEY_PROMPT: &'static str = "system_prompt";

/// Key of the dialect.
pub const KEY_DIALECT: &'static str = "api_type";

/// The stored name of a dialect.
pub open spec fn dialect_name(d: Dialect) -> Seq<char> {
    match d {
        Dialect::Standard => "openai"@,
        Dialect::Compatible => "compatible"@,
    }
}

impl Dialect {
    /// The stored name of this dialect.
    pub fn name(&self) -> (r: &'static str)
        ensures
            r@ == dialect_name(*self),
    {
        match self {
            Dialect::Standard => "openai",
            Dialect::Compatible => "compatible",
        }
    }

    /// The dialect a stored name stands for.
    pub fn parse(name: &str) -> (r: Option<Dialect>)
        ensures
            r == dialect_named(name@),
    {
        if str_eq(name, "openai") {
            Some(Dialect::Standard)
        } else if str_eq(name, "compatible") {
            Some(Dialect::Compatible)
        } else {
            None
        }
    }
}

/// The dialect a stored name stands for.
pub open spec fn dialect_named(name: Seq<char>) -> Option<Dialect> {
    if name == "openai"@ {
        Some(Dialect::Standard)
    } else if name == "compatible"@ {
        Some(Dialect::Compatible)
    } else {
        None
    }
}

/// The text stored under `key`, if any.
pub open spec fn stored(doc: JsonValue, key: Seq<char>) -> Option<Seq<char>> {
    text_of(member(doc, key))
}

/// A text field as loaded: the stored text where it is non-empty, else the
/// default.
pub open spec fn field_or(doc: JsonValue, key: Seq<char>, default: Seq<char>) -> Seq<char> {
    match stored(doc, key) {
        Some(t) => if t.len() > 0 {
            t
        } else {
            default
        },
        None => default,
    }
}

/// Whether the stored secret is present but cannot be decoded to a
/// non-empty secret.
pub open spec fn secret_corrupted(doc: JsonValue) -> bool {
    match stored(doc, KEY_SECRET@) {
        Some(e) => e.len() > 0 && !(decoded_secret(e) matches Some(c) && c.len() > 0),
        None => false,
    }
}

/// The secret as loaded.
pub open spec fn loaded_secret(doc: JsonValue) -> Seq<char> {
    match stored(doc, KEY_SECRET@) {
        Some(e) => match decoded_secret(e) {
            Some(c) => if e.len() > 0 && c.len() > 0 {
                c
            } else {
                SECRET_PLACEHOLDER@
            },
            None => SECRET_PLACEHOLDER@,
        },
        None => SECRET_PLACEHOLDER@,
    }
}

/// The dialect as loaded.
pub open spec fn loaded_dialect(doc: JsonValue) -> Dialect {
    match stored(doc, KEY_DIALECT@) {
        Some(t) => match dialect_named(t) {
            Some(d) => d,
            None => Dialect::Standard,
        },
        None => Dialect::Standard,
    }
}

/// The configuration a stored document yields: field by field, each empty,
/// missing or invalid field replaced by its default. A missing or unparsable
/// document, or one that is not an object, yields the defaults.
pub open spec fn loaded_model(doc: Option<JsonValue>) -> SettingsModel {
    match doc {
        Some(d) => if d is Object {
            SettingsModel {
                secret: loaded_secret(d),
                endpoint_url: field_or(d, KEY_URL@, DEFAULT_ENDPOINT@),
                model_id: field_or(d, KEY_MODEL@, DEFAULT_MODEL@),
                shortcut: field_or(d, KEY_SHORTCUT@, DEFAULT_SHORTCUT@),
                system_prompt: field_or(d, KEY_PROMPT@, DEFAULT_SYSTEM_PROMPT@),
                dialect: loaded_dialect(d),
            }
        } else {
            default_model()
        },
        None => default_model(),
    }
}

/// Whether loading must write the secret back: its stored form was corrupted.
pub open spec fn needs_rewrite(doc: Option<JsonValue>) -> bool {
    match doc {
        Some(d) => d is Object && secret_corrupted(d),
        None => false,
    }
}

/// Whether `doc` is an object storing the fields of `s`, the secret encoded.
pub open spec fn stores(doc: JsonValue, s: SettingsModel) -> bool {
    &&& doc is Object
    &&& stored(doc, KEY_SECRET@) == Some(encoded_secret(s.secret))
    &&& stored(doc, KEY_URL@) == Some(s.endpoint_url)
    &&& stored(doc, KEY_MODEL@) == Some(s.model_id)
    &&& stored(doc, KEY_SHORTCUT@) == Some(s.shortcut)
    &&& stored(doc, KEY_PROMPT@) == Some(s.system_prompt)
    &&& stored(doc, KEY_DIALECT@) == Some(dialect_name(s.dialect))
}

/// The outcome of loading.
#[derive(Debug)]
pub struct Loaded {
    pub settings: Settings,
    /// The stored secret was corrupted: save `settings` so that the store
    /// holds the placeholder's encoding.
    pub rewrite: bool,
}

/// Returns the text stored under `key`.
fn stored_text<'a>(doc: &'a JsonValue, key: &str) -> (r: Option<&'a str>)
    ensures
        match r {
            Some(t) => stored(*doc, key@) == Some(t@),
            None => stored(*doc, key@) is None,
        },
{
    get_text(get_member(doc, key))
}

/// Returns a text field as loaded.
fn load_field(doc: &JsonValue, key: &str, default: &str) -> (r: String)
    ensures
        r@ == field_or(*doc, key@, default@),
{
    match stored_text(doc, key) {
        Some(t) => if t.unicode_len() > 0 {
            owned(t)
        } else {
            owned(default)
        },
        None => owned(default),
    }
}

/// Loads the configuration from a stored document (`None` where the store
/// is missing or does not parse), repairing field by field.
pub fn load_settings(doc: Option<&JsonValue>) -> (r: Loaded)
    ensures
        r.settings@ == loaded_model(crate::json::deref_opt(doc)),
        r.settings@.valid(),
        r.rewrite == needs_rewrite(crate::json::deref_opt(doc)),
{
    proof {
        reveal_strlit("your_api_key_here");
        reveal_strlit("https://api.openai.com/v1/chat/completions");
        reveal_strlit("gpt-4o-mini");
        reveal_strlit("CommandOrControl+Shift+Space");
        reveal_strlit("You are a helpful assistant.");
    }
    let d = match doc {
        Some(d) => match d {
            JsonValue::Object(_) => d,
            _ => {
                return Loaded { settings: Settings::defaults(), rewrite: false };
            },
        },
        None => {
            return Loaded { settings: Settings::defaults(), rewrite: false };
        },
    };
    let (secret, rewrite) = match stored_text(d, KEY_SECRET) {
        Some(e) => match decode_secret(e) {
            Some(c) => if e.unicode_len() > 0 && c.unicode_len() > 0 {
                (c, false)
            } else {
                (owned(SECRET_PLACEHOLDER), e.unicode_len() > 0)
            },
            None => (owned(SECRET_PLACEHOLDER), e.unicode_len() > 0),
        },
        None => (owned(SECRET_PLACEHOLDER), false),
    };
    let dialect = match stored_text(d, KEY_DIALECT) {
        Some(t) => match Dialect::parse(t) {
            Some(x) => x,
            None => Dialect::Standard,
        },
        None => Dialect::Standard,
    };
    let settings = Settings {
        secret,
        endpoint_url: load_field(d, KEY_URL, DEFAULT_ENDPOINT),
        model_id: load_field(d, KEY_MODEL, DEFAULT_MODEL),
        shortcut: load_field(d, KEY_SHORTCUT, DEFAULT_SHORTCUT),
        system_prompt: load_field(d, KEY_PROMPT, DEFAULT_SYSTEM_PROMPT),
        dialect,
    };
    Loaded { settings, rewrite }
}

/// The document that stores a configuration, the secret encoded.
pub fn to_document(s: &Settings) -> (r: JsonValue)
    ensures
        stores(r, s@),
{
    proof {
        reveal_strlit("secret");
        reveal_strlit("api_url");
        reveal_strlit("model_name");
        reveal_strlit("shortcut");
        reveal_strlit("system_prompt");
        reveal_strlit("api_type");
    }
    let mut members: Vec<(String, JsonValue)> = Vec::new();
    members.push((owned(KEY_SECRET), JsonValue::Str(encode_secret(s.secret.as_str()))));
    members.push((owned(KEY_URL), JsonValue::Str(owned(s.endpoint_url.as_str()))));
    members.push((owned(KEY_MODEL), JsonValue::Str(owned(s.model_id.as_str()))));
    members.push((owned(KEY_SHORTCUT), JsonValue::Str(owned(s.shortcut.as_str()))));
    members.push((owned(KEY_PROMPT), JsonValue::Str(owned(s.system_prompt.as_str()))));
    members.push((owned(KEY_DIALECT), JsonValue::Str(owned(s.dialect.name()))));
    let r = JsonValue::Object(members);
    proof {
        reveal_with_fuel(crate::json::find_member, 7);
        let m = members@;
        assert(m[0].0@ == KEY_SECRET@);
        assert(m.drop_first()[0].0@ == KEY_URL@);
        assert(m.drop_first().drop_first()[0].0@ == KEY_MODEL@);
        assert(m.drop_first().drop_first().drop_first()[0].0@ == KEY_SHORTCUT@);
        assert(m.drop_first().drop_first().drop_first().drop_first()[0].0@ == KEY_PROMPT@);
        assert(m.drop_first().drop_first().drop_first().drop_first().drop_first()[0].0@
            == KEY_DIALECT@);
        assert(KEY_SHORTCUT@ != KEY_DIALECT@) by {
            assert(KEY_SHORTCUT@[0] != KEY_DIALECT@[0]);
        }
        assert(stored(r, KEY_SECRET@) == Some(encoded_secret(s.secret@)));
        assert(stored(r, KEY_URL@) == Some(s.endpoint_url@));
        assert(stored(r, KEY_MODEL@) == Some(s.model_id@));
        assert(stored(r, KEY_SHORTCUT@) == Some(s.shortcut@));
        assert(stored(r, KEY_PROMPT@) == Some(s.system_prompt@));
        assert(stored(r, KEY_DIALECT@) == Some(dialect_name(s.dialect)));
    }
    r
}

proof fn lemma_dialect_names(d: Dialect)
    ensures
        dialect_named(dialect_name(d)) == Some(d),
{
    reveal_strlit("openai");
    reveal_strlit("compatible");
    assert("openai"@ != "compatible"@) by {
        assert("openai"@.len() != "compatible"@.len());
    }
}

/// A loaded configuration is always valid.
pub proof fn lemma_loaded_valid(doc: Option<JsonValue>)
    ensures
        loaded_model(doc).valid(),
{
    reveal_strlit("your_api_key_here");
    reveal_strlit("https://api.openai.com/v1/chat/completions");
    reveal_strlit("gpt-4o-mini");
    reveal_strlit("CommandOrControl+Shift+Space");
    reveal_strlit("You are a helpful assistant.");
}

/// Saving a valid configuration and loading it back gives every field back,
/// the secret decoded, with nothing to rewrite; the stored secret differs
/// from the secret in clear.
pub proof fn lemma_save_then_load(s: SettingsModel, doc: JsonValue)
    requires
        s.valid(),
        stores(doc, s),
    ensures
        loaded_model(Some(doc)) == s,
        !needs_rewrite(Some(doc)),
        stored(doc, KEY_SECRET@) != Some(s.secret),
{
    lemma_secret_round_trip(s.secret);
    lemma_dialect_names(s.dialect);
}

/// A text field of the configuration.
pub enum TextField {
    Secret,
    EndpointUrl,
    ModelId,
    Shortcut,
    SystemPrompt,
}

/// What is stored under a field's key when `s` is stored, except that the
/// field `empty` holds the empty text.
pub open spec fn stored_but_empty(s: SettingsModel, empty: TextField, f: TextField) -> Option<
    Seq<char>,
> {
    if f == empty {
        Some(Seq::empty())
    } else {
        Some(
            match f {
                TextField::Secret => encoded_secret(s.secret),
                TextField::EndpointUrl => s.endpoint_url,
                TextField::ModelId => s.model_id,
                TextField::Shortcut => s.shortcut,
                TextField::SystemPrompt => s.system_prompt,
            },
        )
    }
}

/// `s` with one field set to its default.
pub open spec fn with_default(s: SettingsModel, f: TextField) -> SettingsModel {
    match f {
        TextField::Secret => SettingsModel { secret: SECRET_PLACEHOLDER@, ..s },
        TextField::EndpointUrl => SettingsModel { endpoint_url: DEFAULT_ENDPOINT@, ..s },
        TextField::ModelId => SettingsModel { model_id: DEFAULT_MODEL@, ..s },
        TextField::Shortcut => SettingsModel { shortcut: DEFAULT_SHORTCUT@, ..s },
        TextField::SystemPrompt => SettingsModel { system_prompt: DEFAULT_SYSTEM_PROMPT@, ..s },
    }
}

/// A document that stores a valid configuration except for one empty text
/// field loads as that configuration with that field at its default: the
/// other fields are left as stored, and nothing needs rewriting.
pub proof fn lemma_empty_field_repaired(s: SettingsModel, empty: TextField, doc: JsonValue)
    requires
        s.valid(),
        doc is Object,
        stored(doc, KEY_SECRET@) == stored_but_empty(s, empty, TextField::Secret),
        stored(doc, KEY_URL@) == stored_but_empty(s, empty, TextField::EndpointUrl),
        stored(doc, KEY_MODEL@) == stored_but_empty(s, empty, TextField::ModelId),
        stored(doc, KEY_SHORTCUT@) == stored_but_empty(s, empty, TextField::Shortcut),
        stored(doc, KEY_PROMPT@) == stored_but_empty(s, empty, TextField::SystemPrompt),
        stored(doc, KEY_DIALECT@) == Some(dialect_name(s.dialect)),
    ensures
        loaded_model(Some(doc)) == with_default(s, empty),
        !needs_rewrite(Some(doc)),
{
    lemma_secret_round_trip(s.secret);
    lemma_dialect_names(s.dialect);
}

/// A document whose stored secret is corrupted loads with the placeholder
/// secret and asks to be rewritten; once the loaded configuration is saved,
/// loading gives the same configuration and asks for nothing.
pub proof fn lemma_corrupted_secret_heals(doc: JsonValue, saved: JsonValue)
    requires
        doc is Object,
        secret_corrupted(doc),
        stores(saved, loaded_model(Some(doc))),
    ensures
        loaded_model(Some(doc)).secret == SECRET_PLACEHOLDER@,
        needs_rewrite(Some(doc)),
        loaded_model(Some(saved)) == loaded_model(Some(doc)),
        !needs_rewrite(Some(saved)),
{
    lemma_loaded_valid(Some(doc));
    lemma_save_then_load(loaded_model(Some(doc)), saved);
}

/// A change to some fields of the configuration; `None` leaves a field as
/// it is.
#[derive(Debug)]
pub struct SettingsPatch {
    pub secret: Option<String>,
    pub endpoint_url: Option<String>,
    pub model_id: Option<String>,
    pub shortcut: Option<String>,
    pub system_prompt: Option<String>,
    pub dialect: Option<Dialect>,
}

/// Whether an optional new text is given and empty.
pub open spec fn given_empty(f: Option<String>) -> bool {
    f matches Some(x) && x@.len() == 0
}

/// The first reason, if any, to refuse a patch, checking the fields in
/// order: secret, endpoint, model identifier, shortcut, system prompt.
pub open spec fn patch_refusal(p: SettingsPatch) -> Option<ValidationError> {
    if given_empty(p.secret) {
        Some(ValidationError::EmptyField)
    } else if given_empty(p.endpoint_url) {
        Some(ValidationError::EmptyField)
    } else if p.endpoint_url matches Some(u) && url_verdict(u@) is Err {
        Some(url_verdict(p.endpoint_url->Some_0@)->Err_0)
    } else if p.model_id matches Some(m) && model_id_verdict(m@) is Err {
        Some(model_id_verdict(p.model_id->Some_0@)->Err_0)
    } else if given_empty(p.shortcut) {
        Some(ValidationError::EmptyField)
    } else if given_empty(p.system_prompt) {
        Some(ValidationError::EmptyField)
    } else {
        None
    }
}

/// A text field after a patch.
pub open spec fn patched_text(old: Seq<char>, f: Option<String>) -> Seq<char> {
    match f {
        Some(x) => x@,
        None => old,
    }
}

/// The configuration after a patch.
pub open spec fn patched(s: SettingsModel, p: SettingsPatch) -> SettingsModel {
    SettingsModel {
        secret: patched_text(s.secret, p.secret),
        endpoint_url: patched_text(s.endpoint_url, p.endpoint_url),
        model_id: patched_text(s.model_id, p.model_id),
        shortcut: patched_text(s.shortcut, p.shortcut),
        system_prompt: patched_text(s.system_prompt, p.system_prompt),
        dialect: match p.dialect {
            Some(d) => d,
            None => s.dialect,
        },
    }
}

/// Returns a text field after a patch.
fn patch_text(old: &String, f: Option<String>) -> (r: String)
    ensures
        r@ == patched_text(old@, f),
{
    match f {
        Some(x) => x,
        None => owned(old.as_str()),
    }
}

/// Whether an optional new text is given and empty.
fn is_given_empty(f: &Option<String>) -> (r: bool)
    ensures
        r == given_empty(*f),
{
    match f {
        Some(x) => x.unicode_len() == 0,
        None => false,
    }
}

/// Applies a patch to the current configuration, after validating every
/// given field; a refused patch changes nothing.
pub fn apply_patch(current: &Settings, patch: SettingsPatch) -> (r: Result<
    Settings,
    ValidationError,
>)
    ensures
        patch_refusal(patch) is Some ==> r == Err::<Settings, ValidationError>(
            patch_refusal(patch)->Some_0,
        ),
        patch_refusal(patch) is None ==> (r matches Ok(s) && s@ == patched(current@, patch)),
        r matches Ok(s) ==> (current@.valid() ==> s@.valid()),
{
    if is_given_empty(&patch.secret) || is_given_empty(&patch.endpoint_url) {
        return Err(ValidationError::EmptyField);
    }
    match &patch.endpoint_url {
        Some(u) => match validate_url(u.as_str()) {
            Err(e) => {
                return Err(e);
            },
            Ok(()) => {},
        },
        None => {},
    }
    match &patch.model_id {
        Some(m) => match validate_model_id(m.as_str()) {
            Err(e) => {
                return Err(e);
            },
            Ok(()) => {},
        },
        None => {},
    }
    if is_given_empty(&patch.shortcut) || is_given_empty(&patch.system_prompt) {
        return Err(ValidationError::EmptyField);
    }
    let dialect = match patch.dialect {
        Some(d) => d,
        None => current.dialect,
    };
    Ok(
        Settings {
            secret: patch_text(&current.secret, patch.secret),
            endpoint_url: patch_text(&current.endpoint_url, patch.endpoint_url),
            model_id: patch_text(&current.model_id, patch.model_id),
            shortcut: patch_text(&current.shortcut, patch.shortcut),
            system_prompt: patch_text(&current.system_prompt, patch.system_prompt),
            dialect,
        },
    )
}

/// The parse of an optional stored text.
pub open spec fn parsed_store(text: Option<&str>) -> Option<JsonValue> {
    match text {
        Some(t) => json_parse(t@),
        None => None,
    }
}

/// Loads the configuration from the stored text (`None` where the store is
/// missing), repairing field by field.
pub fn load_settings_text(text: Option<&str>) -> (r: Loaded)
    ensures
        r.settings@ == loaded_model(parsed_store(text)),
        r.settings@.valid(),
        r.rewrite == needs_rewrite(parsed_store(text)),
{
    match text {
        Some(t) => {
            let doc = parse_json(t);
            match &doc {
                Some(d) => load_settings(Some(d)),
                None => load_settings(None),
            }
        },
        None => load_settings(None),
    }
}

/// Whether a patch asks for a shortcut other than the current one, so that
/// the hotkey must be rebound before the patch is saved.
pub fn shortcut_changed(current: &Settings, patch: &SettingsPatch) -> (r: bool)
    ensures
        r == (patch.shortcut matches Some(x) && x@ != current.shortcut@),
{
    match &patch.shortcut {
        Some(x) => !str_eq(x.as_str(), current.shortcut.as_str()),
        None => false,
    }
}

/// The configuration to save once the rebind that a patch asked for is
/// over, and what to report. Where the rebind succeeded, the patched
/// configuration; where it failed, the patched configuration with the
/// previous shortcut kept, which is the binding left active, and the error.
pub fn settle_rebind(
    patched: Settings,
    previous_shortcut: String,
    rebind: Result<(), ShortcutError>,
) -> (r: (Settings, Result<(), ShortcutError>))
    ensures
        rebind is Ok ==> r.0@ == patched@ && r.1 is Ok,
        rebind is Err ==> r.0@ == (SettingsModel { shortcut: previous_shortcut@, ..patched@ })
            && r.1 == rebind,
{
    match rebind {
        Ok(()) => (patched, Ok(())),
        Err(e) => {
            let mut s = patched;
            s.shortcut = previous_shortcut;
            (s, Err(e))
        },
    }
}

} // verus!
