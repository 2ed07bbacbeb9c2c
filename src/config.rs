//! The settings record and its flat keyed form on disk.

use vstd::prelude::*;
use vstd::string::StringExecFns;

verus! {

/// The user's settings: always fully populated.
#[derive(Debug, Clone)]
pub struct Config {
    pub openai_api_key: String,
    pub shortcut: String,
    pub transcribe_model: String,
    pub post_model: String,
}

/// One field of the settings record.
#[derive(Debug, Clone, Copy, PartialEq, Eq, Structural)]
pub enum ConfigField {
    ApiKey,
    Shortcut,
    TranscribeModel,
    PostModel,
}

/// Why a stored record could not be read back as settings.
#[derive(Debug, Clone, Copy, PartialEq, Eq, Structural)]
pub enum ConfigError {
    /// The record has no entry for this field.
    MissingField(ConfigField),
    /// The entry for this field does not hold a string.
    NotAString(ConfigField),
}

/// A flat keyed record: each entry is a key and, where the stored value is
/// a string, that string.
pub type Record = Vec<(String, Option<String>)>;

pub open spec fn default_shortcut() -> Seq<char> {
    "Ctrl+Shift+Space"@
}

pub open spec fn default_transcribe_model() -> Seq<char> {
    "gpt-4o-mini-transcribe"@
}

pub open spec fn default_post_model() -> Seq<char> {
    "gpt-4.1-mini"@
}

/// `c` holds the default hotkey and model ids, and the given credential, or
/// an empty one where none is given.
pub open spec fn is_default_for(c: Config, api_key: Option<String>) -> bool {
    &&& c.openai_api_key@ == (match api_key {
        Some(k) => k@,
        None => Seq::<char>::empty(),
    })
    &&& c.shortcut@ == default_shortcut()
    &&& c.transcribe_model@ == default_transcribe_model()
    &&& c.post_model@ == default_post_model()
}

/// The key under which a field is stored.
pub open spec fn field_key(f: ConfigField) -> Seq<char> {
    match f {
        ConfigField::ApiKey => "openai_api_key"@,
        ConfigField::Shortcut => "shortcut"@,
        ConfigField::TranscribeModel => "transcribe_model"@,
        ConfigField::PostModel => "post_model"@,
    }
}

/// The value of a field in a settings record.
pub open spec fn field_value(c: Config, f: ConfigField) -> String {
    match f {
        ConfigField::ApiKey => c.openai_api_key,
        ConfigField::Shortcut => c.shortcut,
        ConfigField::TranscribeModel => c.transcribe_model,
        ConfigField::PostModel => c.post_model,
    }
}

/// The value of the first entry of `rec` whose key is `key`, if any.
pub open spec fn find_entry(rec: Seq<(String, Option<String>)>, key: Seq<char>) -> Option<
    Option<String>,
>
    decreases rec.len(),
{
    if rec.len() == 0 {
        None
    } else if rec[0].0@ == key {
        Some(rec[0].1)
    } else {
        find_entry(rec.drop_first(), key)
    }
}

/// The string stored for a field, or why there is none.
pub open spec fn read_field(rec: Seq<(String, Option<String>)>, f: ConfigField) -> Result<
    String,
    ConfigError,
> {
    match find_entry(rec, field_key(f)) {
        None => Err(ConfigError::MissingField(f)),
        Some(None) => Err(ConfigError::NotAString(f)),
        Some(Some(v)) => Ok(v),
    }
}

/// Settings read from a record, fields in declaration order; the first field
/// that cannot be read decides the error.
pub open spec fn config_from_record(rec: Seq<(String, Option<String>)>) -> Result<
    Config,
    ConfigError,
> {
    match read_field(rec, ConfigField::ApiKey) {
        Err(e) => Err(e),
        Ok(k) => match read_field(rec, ConfigField::Shortcut) {
            Err(e) => Err(e),
            Ok(s) => match read_field(rec, ConfigField::TranscribeModel) {
                Err(e) => Err(e),
                Ok(t) => match read_field(rec, ConfigField::PostModel) {
                    Err(e) => Err(e),
                    Ok(p) => Ok(
                        Config { openai_api_key: k, shortcut: s, transcribe_model: t, post_model: p },
                    ),
                },
            },
        },
    }
}

/// `rec` is the record that stores `c`: one entry per field, in
/// declaration order, each holding the field's string.
pub open spec fn stores(rec: Seq<(String, Option<String>)>, c: Config) -> bool {
    &&& rec.len() == 4
    &&& rec[0].0@ == field_key(ConfigField::ApiKey)
    &&& rec[1].0@ == field_key(ConfigField::Shortcut)
    &&& rec[2].0@ == field_key(ConfigField::TranscribeModel)
    &&& rec[3].0@ == field_key(ConfigField::PostModel)
    &&& rec[0].1 == Some(c.openai_api_key)
    &&& rec[1].1 == Some(c.shortcut)
    &&& rec[2].1 == Some(c.transcribe_model)
    &&& rec[3].1 == Some(c.post_model)
}

/// Saving settings and loading the saved record gives the same settings
/// back.
pub proof fn lemma_save_load_round_trip(c: Config, rec: Seq<(String, Option<String>)>)
    requires
        stores(rec, c),
    ensures
        config_from_record(rec) == Ok::<Config, ConfigError>(c),
{
    reveal_strlit("openai_api_key");
    reveal_strlit("shortcut");
    reveal_strlit("transcribe_model");
    reveal_strlit("post_model");
    let r1 = rec.drop_first();
    let r2 = r1.drop_first();
    let r3 = r2.drop_first();
    assert(r1[0] == rec[1] && r2[0] == rec[2] && r3[0] == rec[3]);
    let ks = field_key(ConfigField::Shortcut);
    let kt = field_key(ConfigField::TranscribeModel);
    let kp = field_key(ConfigField::PostModel);
    assert(rec[0].0@.len() == 14 && ks.len() == 8 && kt.len() == 16 && kp.len() == 10);
    assert(find_entry(rec, field_key(ConfigField::ApiKey)) == Some(rec[0].1));
    assert(find_entry(rec, ks) == find_entry(r1, ks));
    assert(find_entry(r1, ks) == Some(rec[1].1));
    assert(find_entry(rec, kt) == find_entry(r1, kt));
    assert(find_entry(r1, kt) == find_entry(r2, kt));
    assert(find_entry(r2, kt) == Some(rec[2].1));
    assert(find_entry(rec, kp) == find_entry(r1, kp));
    assert(find_entry(r1, kp) == find_entry(r2, kp));
    assert(find_entry(r2, kp) == find_entry(r3, kp));
    assert(find_entry(r3, kp) == Some(rec[3].1));
}

fn key_of(f: ConfigField) -> (r: String)
    ensures
        r@ == field_key(f),
{
    match f {
        ConfigField::ApiKey => String::from_str("openai_api_key"),
        ConfigField::Shortcut => String::from_str("shortcut"),
        ConfigField::TranscribeModel => String::from_str("transcribe_model"),
        ConfigField::PostModel => String::from_str("post_model"),
    }
}

fn lookup(rec: &Record, key: &String) -> (r: Option<Option<String>>)
    ensures
        r == find_entry(rec@, key@),
{
    let n = rec.len();
    let mut i: usize = 0;
    assert(rec@.subrange(0, n as int) =~= rec@);
    while i < n
        invariant
            n == rec@.len(),
            i <= n,
            find_entry(rec@, key@) == find_entry(rec@.subrange(i as int, n as int), key@),
        decreases n - i,
    {
        let ghost rest = rec@.subrange(i as int, n as int);
        assert(rest.drop_first() =~= rec@.subrange(i + 1, n as int));
        if rec[i].0 == *key {
            return Some(rec[i].1.clone());
        }
        i = i + 1;
    }
    None
}

fn read(rec: &Record, f: ConfigField) -> (r: Result<String, ConfigError>)
    ensures
        r == read_field(rec@, f),
{
    let key = key_of(f);
    match lookup(rec, &key) {
        None => Err(ConfigError::MissingField(f)),
        Some(None) => Err(ConfigError::NotAString(f)),
        Some(Some(v)) => Ok(v),
    }
}

impl Config {
    /// Settings with the default hotkey and model ids, and the given
    /// credential, or an empty one where none is given.
    pub fn with_defaults(api_key: Option<String>) -> (r: Config)
        ensures
            is_default_for(r, api_key),
    {
        let key = match api_key {
            Some(k) => k,
            None => String::new(),
        };
        Config {
            openai_api_key: key,
            shortcut: String::from_str("Ctrl+Shift+Space"),
            transcribe_model: String::from_str("gpt-4o-mini-transcribe"),
            post_model: String::from_str("gpt-4.1-mini"),
        }
    }

    /// A copy of these settings, field for field.
    pub fn snapshot(&self) -> (r: Config)
        ensures
            r == *self,
    {
        Config {
            openai_api_key: self.openai_api_key.clone(),
            shortcut: self.shortcut.clone(),
            transcribe_model: self.transcribe_model.clone(),
            post_model: self.post_model.clone(),
        }
    }

    /// The same settings with another hotkey.
    pub fn with_shortcut(&self, shortcut: String) -> (r: Config)
        ensures
            r == (Config { shortcut, ..*self }),
    {
        Config {
            openai_api_key: self.openai_api_key.clone(),
            shortcut,
            transcribe_model: self.transcribe_model.clone(),
            post_model: self.post_model.clone(),
        }
    }

    /// The record that stores these settings; loading it gives them back.
    pub fn save(&self) -> (r: Record)
        ensures
            stores(r@, *self),
            config_from_record(r@) == Ok::<Config, ConfigError>(*self),
    {
        let r = vec![
            (key_of(ConfigField::ApiKey), Some(self.openai_api_key.clone())),
            (key_of(ConfigField::Shortcut), Some(self.shortcut.clone())),
            (key_of(ConfigField::TranscribeModel), Some(self.transcribe_model.clone())),
            (key_of(ConfigField::PostModel), Some(self.post_model.clone())),
        ];
        proof {
            lemma_save_load_round_trip(*self, r@);
        }
        r
    }

    /// Settings from what was stored: defaults (with the given credential)
    /// where nothing was stored, else the stored record read field by field.
    pub fn load(stored: Option<&Record>, api_key: Option<String>) -> (r: Result<
        Config,
        ConfigError,
    >)
        ensures
            stored is None ==> r is Ok && is_default_for(r->Ok_0, api_key),
            stored is Some ==> r == config_from_record(stored->Some_0@),
    {
        match stored {
            None => Ok(Config::with_defaults(api_key)),
            Some(rec) => {
                let k = read(rec, ConfigField::ApiKey)?;
                let s = read(rec, ConfigField::Shortcut)?;
                let t = read(rec, ConfigField::TranscribeModel)?;
                let p = read(rec, ConfigField::PostModel)?;
                Ok(Config { openai_api_key: k, shortcut: s, transcribe_model: t, post_model: p })
            },
        }
    }
}

} // verus!
