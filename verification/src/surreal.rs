//! The configuration of the SurrealDB service: the builder's setters, and
//! the checks and defaults that building applies before connecting.
use vstd::prelude::*;
use vstd::string::*;

use crate::codes::ErrorKind;
use crate::path::{normalize_root, normalized_root};

verus! {

/// The configuration of the SurrealDB service; every setting is optional.
#[derive(Debug)]
pub struct SurrealdbConfig {
    pub root: Option<String>,
    pub url: Option<String>,
    pub auth_type: Option<String>,
    pub username: Option<String>,
    pub password: Option<String>,
    pub token: Option<String>,
    pub namespace: Option<String>,
    pub database: Option<String>,
    pub table: Option<String>,
    pub key_field: Option<String>,
    pub value_field: Option<String>,
}

/// An optional text as a sequence of characters.
pub open spec fn opt_view(o: Option<String>) -> Option<Seq<char>> {
    match o {
        Some(s) => Some(s@),
        None => None,
    }
}

/// The configuration as mathematical values.
pub ghost struct SurrealdbConfigView {
    pub root: Option<Seq<char>>,
    pub url: Option<Seq<char>>,
    pub auth_type: Option<Seq<char>>,
    pub username: Option<Seq<char>>,
    pub password: Option<Seq<char>>,
    pub token: Option<Seq<char>>,
    pub namespace: Option<Seq<char>>,
    pub database: Option<Seq<char>>,
    pub table: Option<Seq<char>>,
    pub key_field: Option<Seq<char>>,
    pub value_field: Option<Seq<char>>,
}

impl View for SurrealdbConfig {
    type V = SurrealdbConfigView;

    open spec fn view(&self) -> SurrealdbConfigView {
        SurrealdbConfigView {
            root: opt_view(self.root),
            url: opt_view(self.url),
            auth_type: opt_view(self.auth_type),
            username: opt_view(self.username),
            password: opt_view(self.password),
            token: opt_view(self.token),
            namespace: opt_view(self.namespace),
            database: opt_view(self.database),
            table: opt_view(self.table),
            key_field: opt_view(self.key_field),
            value_field: opt_view(self.value_field),
        }
    }
}

/// The configuration with nothing set.
pub open spec fn empty_config() -> SurrealdbConfigView {
    SurrealdbConfigView {
        root: None,
        url: None,
        auth_type: None,
        username: None,
        password: None,
        token: None,
        namespace: None,
        database: None,
        table: None,
        key_field: None,
        value_field: None,
    }
}

impl Default for SurrealdbConfig {
    /// A configuration with nothing set.
    fn default() -> (c: SurrealdbConfig)
        ensures
            c@ == empty_config(),
    {
        SurrealdbConfig {
            root: None,
            url: None,
            auth_type: None,
            username: None,
            password: None,
            token: None,
            namespace: None,
            database: None,
            table: None,
            key_field: None,
            value_field: None,
        }
    }
}

/// The builder of the SurrealDB service.
#[derive(Debug)]
pub struct SurrealdbBuilder {
    pub config: SurrealdbConfig,
}

impl Default for SurrealdbBuilder {
    /// A builder with nothing set.
    fn default() -> (b: SurrealdbBuilder)
        ensures
            b.config@ == empty_config(),
    {
        SurrealdbBuilder { config: SurrealdbConfig::default() }
    }
}

/// A setting given as text: an empty text leaves it as it was.
pub open spec fn set_text(previous: Option<Seq<char>>, value: Seq<char>) -> Option<Seq<char>> {
    if value.len() == 0 {
        previous
    } else {
        Some(value)
    }
}

/// A setting of the SurrealDB service that a builder method sets.
pub enum SurrealSetting {
    Root,
    Table,
    KeyField,
    ValueField,
    Url,
    Username,
    Password,
    Namespace,
    Database,
}

/// A configuration with one setting set from text.
pub open spec fn config_with(
    c: SurrealdbConfigView,
    setting: SurrealSetting,
    value: Seq<char>,
) -> SurrealdbConfigView {
    match setting {
        SurrealSetting::Root => SurrealdbConfigView { root: set_text(c.root, value), ..c },
        SurrealSetting::Table => SurrealdbConfigView { table: set_text(c.table, value), ..c },
        SurrealSetting::KeyField => SurrealdbConfigView { key_field: set_text(c.key_field, value), ..c },
        SurrealSetting::ValueField => SurrealdbConfigView { value_field: set_text(c.value_field, value), ..c },
        SurrealSetting::Url => SurrealdbConfigView { url: set_text(c.url, value), ..c },
        SurrealSetting::Username => SurrealdbConfigView { username: set_text(c.username, value), ..c },
        SurrealSetting::Password => SurrealdbConfigView { password: set_text(c.password, value), ..c },
        SurrealSetting::Namespace => SurrealdbConfigView { namespace: set_text(c.namespace, value), ..c },
        SurrealSetting::Database => SurrealdbConfigView { database: set_text(c.database, value), ..c },
    }
}

/// The text of a setting.
fn text_setting(value: &str) -> (s: Option<String>)
    ensures
        value@.len() == 0 ==> s is None,
        value@.len() != 0 ==> (s matches Some(t) && t@ == value@),
{
    if value.is_empty() {
        None
    } else {
        Some(String::from_str(value))
    }
}

impl SurrealdbBuilder {
    /// Sets the working directory; all operations are performed under it.
    /// An empty text leaves it unset (then it is "/").
    pub fn root(&mut self, root: &str) -> (r: &mut Self)
        ensures
            r.config@ == config_with(old(self).config@, SurrealSetting::Root, root@),
            *final(self) == *final(r),
    {
        if let Some(value) = text_setting(root) {
            self.config.root = Some(value);
        }
        self
    }

    /// Sets the table to read and write. An empty text leaves the setting as it was.
    pub fn table(&mut self, table: &str) -> (r: &mut Self)
        ensures
            r.config@ == config_with(old(self).config@, SurrealSetting::Table, table@),
            *final(self) == *final(r),
    {
        if let Some(value) = text_setting(table) {
            self.config.table = Some(value);
        }
        self
    }
    /// Sets the field that holds the key; it is `key` where unset. An empty text leaves the setting as it was.
    pub fn key_field(&mut self, key_field: &str) -> (r: &mut Self)
        ensures
            r.config@ == config_with(old(self).config@, SurrealSetting::KeyField, key_field@),
            *final(self) == *final(r),
    {
        if let Some(value) = text_setting(key_field) {
            self.config.key_field = Some(value);
        }
        self
    }
    /// Sets the field that holds the value; it is `value` where unset. An empty text leaves the setting as it was.
    pub fn value_field(&mut self, value_field: &str) -> (r: &mut Self)
        ensures
            r.config@ == config_with(old(self).config@, SurrealSetting::ValueField, value_field@),
            *final(self) == *final(r),
    {
        if let Some(value) = text_setting(value_field) {
            self.config.value_field = Some(value);
        }
        self
    }
    /// Sets the URL of the service. An empty text leaves the setting as it was.
    pub fn url(&mut self, url: &str) -> (r: &mut Self)
        ensures
            r.config@ == config_with(old(self).config@, SurrealSetting::Url, url@),
            *final(self) == *final(r),
    {
        if let Some(value) = text_setting(url) {
            self.config.url = Some(value);
        }
        self
    }
    /// Sets the user name to sign in with. An empty text leaves the setting as it was.
    pub fn username(&mut self, username: &str) -> (r: &mut Self)
        ensures
            r.config@ == config_with(old(self).config@, SurrealSetting::Username, username@),
            *final(self) == *final(r),
    {
        if let Some(value) = text_setting(username) {
            self.config.username = Some(value);
        }
        self
    }
    /// Sets the password to sign in with. An empty text leaves the setting as it was.
    pub fn password(&mut self, password: &str) -> (r: &mut Self)
        ensures
            r.config@ == config_with(old(self).config@, SurrealSetting::Password, password@),
            *final(self) == *final(r),
    {
        if let Some(value) = text_setting(password) {
            self.config.password = Some(value);
        }
        self
    }
    /// Sets the namespace. An empty text leaves the setting as it was.
    pub fn namespace(&mut self, namespace: &str) -> (r: &mut Self)
        ensures
            r.config@ == config_with(old(self).config@, SurrealSetting::Namespace, namespace@),
            *final(self) == *final(r),
    {
        if let Some(value) = text_setting(namespace) {
            self.config.namespace = Some(value);
        }
        self
    }
    /// Sets the database. An empty text leaves the setting as it was.
    pub fn database(&mut self, database: &str) -> (r: &mut Self)
        ensures
            r.config@ == config_with(old(self).config@, SurrealSetting::Database, database@),
            *final(self) == *final(r),
    {
        if let Some(value) = text_setting(database) {
            self.config.database = Some(value);
        }
        self
    }
}

/// An error of a service as the storage layer reports it: its kind, its
/// message, and the service it came from.
#[derive(Debug)]
pub struct ServiceError {
    pub kind: ErrorKind,
    pub message: String,
    pub service: String,
}

/// What building the SurrealDB service settles before it connects: the
/// table, the key and value fields, and the normalized working directory.
#[derive(Debug)]
pub struct SurrealSettings {
    pub table: String,
    pub key_field: String,
    pub value_field: String,
    pub root: String,
}

/// An invalid configuration of the SurrealDB service.
fn config_invalid(message: &str) -> (e: ServiceError)
    ensures
        e.kind == ErrorKind::ConfigInvalid,
        e.message@ == message@,
        e.service@ == "surreal"@,
{
    ServiceError {
        kind: ErrorKind::ConfigInvalid,
        message: String::from_str(message),
        service: String::from_str("surreal"),
    }
}

/// A setting, or its default where it is unset.
pub open spec fn or_default(o: Option<Seq<char>>, default: Seq<char>) -> Seq<char> {
    match o {
        Some(v) => v,
        None => default,
    }
}

/// A copy of a setting, or the default where it is unset.
fn setting_or(o: &Option<String>, default: &str) -> (s: String)
    ensures
        s@ == or_default(opt_view(*o), default@),
{
    match o {
        Some(v) => v.clone(),
        None => String::from_str(default),
    }
}

/// Whether settings are the ones built from a configuration whose URL and
/// table are set: the table as set, the key and value fields as set or
/// their defaults, and the normalized working directory.
pub open spec fn settings_built(c: SurrealdbConfigView, s: SurrealSettings) -> bool {
    &&& Some(s.table@) == c.table
    &&& s.key_field@ == or_default(c.key_field, "key"@)
    &&& s.value_field@ == or_default(c.value_field, "value"@)
    &&& s.root@ == normalized_root(or_default(c.root, "/"@))
}

impl SurrealdbBuilder {
    /// Checks the configuration and settles the service's settings: the
    /// URL and the table must be set; the key field is `key` and the value
    /// field `value` where unset; the working directory is `/` where unset,
    /// and is normalized.
    pub fn build(&self) -> (res: Result<SurrealSettings, ServiceError>)
        ensures
            self.config@.url is None ==> (res matches Err(e) && e.kind == ErrorKind::ConfigInvalid
                && e.message@ == "url is empty"@ && e.service@ == "surreal"@),
            self.config@.url is Some && self.config@.table is None ==> (res matches Err(e) && e.kind
                == ErrorKind::ConfigInvalid && e.message@ == "table is empty"@ && e.service@
                == "surreal"@),
            self.config@.url is Some && self.config@.table is Some ==> (res matches Ok(s)
                && settings_built(self.config@, s)),
    {
        if self.config.url.is_none() {
            return Err(config_invalid("url is empty"));
        }
        let table = match &self.config.table {
            Some(v) => v.clone(),
            None => {
                return Err(config_invalid("table is empty"));
            },
        };
        let key_field = setting_or(&self.config.key_field, "key");
        let value_field = setting_or(&self.config.value_field, "value");
        let root_setting = setting_or(&self.config.root, "/");
        let root = normalize_root(root_setting.as_str());
        Ok(SurrealSettings { table, key_field, value_field, root })
    }

    /// The error of a build whose connection to the service failed.
    pub fn connection_error() -> (e: ServiceError)
        ensures
            e.kind == ErrorKind::ConfigInvalid,
            e.message@ == "table is empty"@,
            e.service@ == "surreal"@,
    {
        config_invalid("table is empty")
    }
}

} // verus!
