//! The credential store: a single authenticated identity, resolved from
//! layered sources (persisted config file, then environment overrides) with
//! a fixed precedence between the two mutually exclusive auth variants.

use vstd::prelude::*;

verus! {

/// One authenticated identity: either an API token, or a global key paired
/// with the account email. Exactly one variant is ever populated.
#[derive(Debug)]
pub enum GlobalUser {
    TokenAuth { api_token: String },
    GlobalKeyAuth { email: String, api_key: String },
}

#[verifier::ext_equal]
pub enum GlobalUserView {
    TokenAuth { api_token: Seq<char> },
    GlobalKeyAuth { email: Seq<char>, api_key: Seq<char> },
}

impl View for GlobalUser {
    type V = GlobalUserView;

    open spec fn view(&self) -> GlobalUserView {
        match self {
            GlobalUser::TokenAuth { api_token } => GlobalUserView::TokenAuth {
                api_token: api_token@,
            },
            GlobalUser::GlobalKeyAuth { email, api_key } => GlobalUserView::GlobalKeyAuth {
                email: email@,
                api_key: api_key@,
            },
        }
    }
}

impl Clone for GlobalUser {
    fn clone(&self) -> (res: Self)
        ensures
            res == *self,
    {
        match self {
            GlobalUser::TokenAuth { api_token } => GlobalUser::TokenAuth {
                api_token: api_token.clone(),
            },
            GlobalUser::GlobalKeyAuth { email, api_key } => GlobalUser::GlobalKeyAuth {
                email: email.clone(),
                api_key: api_key.clone(),
            },
        }
    }
}

impl PartialEq for GlobalUser {
    fn eq(&self, other: &Self) -> (r: bool)
        ensures
            r == (self@ == other@),
    {
        match (self, other) {
            (
                GlobalUser::TokenAuth { api_token: a },
                GlobalUser::TokenAuth { api_token: b },
            ) => *a == *b,
            (
                GlobalUser::GlobalKeyAuth { email: e1, api_key: k1 },
                GlobalUser::GlobalKeyAuth { email: e2, api_key: k2 },
            ) => *e1 == *e2 && *k1 == *k2,
            _ => false,
        }
    }
}

impl vstd::std_specs::cmp::PartialEqSpecImpl for GlobalUser {
    open spec fn obeys_eq_spec() -> bool {
        true
    }

    open spec fn eq_spec(&self, other: &Self) -> bool {
        self@ == other@
    }
}

/// The resolved identity plus the rolling default project name that the
/// scaffolding command hands out.
#[derive(Debug)]
pub struct GlobalConfig {
    pub global_user: GlobalUser,
    pub next_default_project: String,
}

#[verifier::ext_equal]
pub struct GlobalConfigView {
    pub global_user: GlobalUserView,
    pub next_default_project: Seq<char>,
}

impl View for GlobalConfig {
    type V = GlobalConfigView;

    open spec fn view(&self) -> GlobalConfigView {
        GlobalConfigView {
            global_user: self.global_user@,
            next_default_project: self.next_default_project@,
        }
    }
}

impl Clone for GlobalConfig {
    fn clone(&self) -> (res: Self)
        ensures
            res == *self,
    {
        GlobalConfig {
            global_user: self.global_user.clone(),
            next_default_project: self.next_default_project.clone(),
        }
    }
}

impl PartialEq for GlobalConfig {
    fn eq(&self, other: &Self) -> (r: bool)
        ensures
            r == (self@ == other@),
    {
        self.global_user == other.global_user && self.next_default_project
            == other.next_default_project
    }
}

impl vstd::std_specs::cmp::PartialEqSpecImpl for GlobalConfig {
    open spec fn obeys_eq_spec() -> bool {
        true
    }

    open spec fn eq_spec(&self, other: &Self) -> bool {
        self@ == other@
    }
}

/// Why resolution failed.
#[derive(Clone, Copy, Debug, PartialEq, Eq, Structural)]
pub enum ConfigError {
    /// Neither a token nor a complete email and key pair was found.
    MissingCredentials,
    /// The persisted config text could not be read as a table of values.
    InvalidConfig,
}

/// The flat optional fields that the layered sources yield before
/// resolution picks a variant.
pub struct ConfigFields {
    pub api_token: Option<String>,
    pub email: Option<String>,
    pub api_key: Option<String>,
    pub next_default_project: Option<String>,
}

#[verifier::ext_equal]
pub struct ConfigFieldsView {
    pub api_token: Option<Seq<char>>,
    pub email: Option<Seq<char>>,
    pub api_key: Option<Seq<char>>,
    pub next_default_project: Option<Seq<char>>,
}

pub open spec fn opt_str_view(o: Option<String>) -> Option<Seq<char>> {
    match o {
        Some(s) => Some(s@),
        None => None,
    }
}

impl View for ConfigFields {
    type V = ConfigFieldsView;

    open spec fn view(&self) -> ConfigFieldsView {
        ConfigFieldsView {
            api_token: opt_str_view(self.api_token),
            email: opt_str_view(self.email),
            api_key: opt_str_view(self.api_key),
            next_default_project: opt_str_view(self.next_default_project),
        }
    }
}

pub open spec fn empty_fields() -> ConfigFieldsView {
    ConfigFieldsView { api_token: None, email: None, api_key: None, next_default_project: None }
}

impl ConfigFields {
    /// No field set, the state of a source that contributes nothing.
    pub fn empty() -> (r: ConfigFields)
        ensures
            r@ == empty_fields(),
    {
        let r = ConfigFields { api_token: None, email: None, api_key: None, next_default_project: None };
        proof {
            assert(r@ =~= empty_fields());
        }
        r
    }
}

/// A field counts as resolved only when it is present and non-empty.
pub open spec fn field_set(o: Option<Seq<char>>) -> bool {
    o matches Some(s) && s.len() > 0
}

/// The environment wins on conflict: its value, where it provides one,
/// shadows the file's.
pub open spec fn merge_field(file: Option<Seq<char>>, env: Option<Seq<char>>) -> Option<Seq<char>> {
    if env is Some {
        env
    } else {
        file
    }
}

pub open spec fn merge_fields(file: ConfigFieldsView, env: ConfigFieldsView) -> ConfigFieldsView {
    ConfigFieldsView {
        api_token: merge_field(file.api_token, env.api_token),
        email: merge_field(file.email, env.email),
        api_key: merge_field(file.api_key, env.api_key),
        next_default_project: merge_field(file.next_default_project, env.next_default_project),
    }
}

pub open spec fn default_project_name_spec() -> Seq<char> {
    "worker"@
}

/// Variant selection in strict order: a non-empty token wins outright, even
/// when email and key are also set; otherwise a complete email and key pair;
/// otherwise resolution fails.
pub open spec fn resolve_user_spec(f: ConfigFieldsView) -> Result<GlobalUserView, ConfigError> {
    if field_set(f.api_token) {
        Ok(GlobalUserView::TokenAuth { api_token: f.api_token.unwrap() })
    } else if field_set(f.email) && field_set(f.api_key) {
        Ok(
            GlobalUserView::GlobalKeyAuth {
                email: f.email.unwrap(),
                api_key: f.api_key.unwrap(),
            },
        )
    } else {
        Err(ConfigError::MissingCredentials)
    }
}

/// The persisted default project name where it is non-empty, else the fixed
/// sentinel.
pub open spec fn resolve_project_name_spec(f: ConfigFieldsView) -> Seq<char> {
    if field_set(f.next_default_project) {
        f.next_default_project.unwrap()
    } else {
        default_project_name_spec()
    }
}

pub open spec fn resolve_config_spec(f: ConfigFieldsView) -> Result<GlobalConfigView, ConfigError> {
    match resolve_user_spec(f) {
        Ok(u) => Ok(
            GlobalConfigView { global_user: u, next_default_project: resolve_project_name_spec(f) },
        ),
        Err(e) => Err(e),
    }
}

pub open spec fn config_result_matches(
    r: Result<GlobalConfig, ConfigError>,
    s: Result<GlobalConfigView, ConfigError>,
) -> bool {
    match r {
        Ok(c) => s matches Ok(v) && c@ == v,
        Err(e) => s matches Err(e2) && e == e2,
    }
}

pub open spec fn user_result_matches(
    r: Result<GlobalUser, ConfigError>,
    s: Result<GlobalUserView, ConfigError>,
) -> bool {
    match r {
        Ok(u) => s matches Ok(v) && u@ == v,
        Err(e) => s matches Err(e2) && e == e2,
    }
}

/// Picks the environment's value where there is one, else the file's.
fn merge_clone(file: &Option<String>, env: &Option<String>) -> (r: Option<String>)
    ensures
        opt_str_view(r) == merge_field(opt_str_view(*file), opt_str_view(*env)),
{
    match env {
        Some(s) => Some(s.clone()),
        None => match file {
            Some(s) => Some(s.clone()),
            None => None,
        },
    }
}

fn opt_is_set(o: &Option<String>) -> (r: bool)
    ensures
        r == field_set(opt_str_view(*o)),
{
    match o {
        Some(s) => !s.as_str().is_empty(),
        None => false,
    }
}

impl GlobalConfig {
    /// The fixed sentinel used when no default project name is persisted.
    pub fn default_project_name() -> (r: String)
        ensures
            r@ == default_project_name_spec(),
    {
        String::from_str("worker")
    }

    /// Resolves an identity and default project name from the file-sourced
    /// fields overlaid with the environment-sourced ones.
    pub fn resolve(file: &ConfigFields, env: &ConfigFields) -> (r: Result<GlobalConfig, ConfigError>)
        ensures
            config_result_matches(r, resolve_config_spec(merge_fields(file@, env@))),
    {
        let ghost m = merge_fields(file@, env@);
        let token = merge_clone(&file.api_token, &env.api_token);
        let email = merge_clone(&file.email, &env.email);
        let api_key = merge_clone(&file.api_key, &env.api_key);
        let next = merge_clone(&file.next_default_project, &env.next_default_project);
        let global_user: GlobalUser;
        if opt_is_set(&token) {
            global_user = GlobalUser::TokenAuth { api_token: token.unwrap() };
        } else if opt_is_set(&email) && opt_is_set(&api_key) {
            global_user = GlobalUser::GlobalKeyAuth {
                email: email.unwrap(),
                api_key: api_key.unwrap(),
            };
        } else {
            return Err(ConfigError::MissingCredentials);
        }
        let next_default_project = if opt_is_set(&next) {
            next.unwrap()
        } else {
            GlobalConfig::default_project_name()
        };
        let r = GlobalConfig { global_user, next_default_project };
        proof {
            assert(r@ =~= resolve_config_spec(m).unwrap());
        }
        Ok(r)
    }
}

/// Token precedence: whenever the overlaid fields hold a non-empty token,
/// resolution yields token-based auth, whatever the email and key fields
/// hold beside it.
pub proof fn lemma_token_precedence(f: ConfigFieldsView)
    requires
        field_set(f.api_token),
    ensures
        resolve_config_spec(f) matches Ok(c) && c.global_user == (GlobalUserView::TokenAuth {
            api_token: f.api_token.unwrap(),
        }),
{
}

/// Missing credentials: with no non-empty token and no complete email and
/// key pair, resolution fails, and with exactly that error.
pub proof fn lemma_missing_credentials(f: ConfigFieldsView)
    requires
        !field_set(f.api_token),
        !(field_set(f.email) && field_set(f.api_key)),
    ensures
        resolve_config_spec(f) == Err::<GlobalConfigView, ConfigError>(
            ConfigError::MissingCredentials,
        ),
{
}

/// What a string-valued entry of the persisted TOML text holds: `None` when
/// the text is not well-formed, `Some(None)` when the key is absent or not
/// bound to a string, `Some(Some(v))` for the bound string.
pub uninterp spec fn toml_str_entry(text: Seq<char>, key: Seq<char>) -> Option<Option<Seq<char>>>;

/// Relies on `str::parse::<toml::Table>` and `toml::map::Map::get`: parses
/// the text as a TOML table and looks one key up; both depend on their
/// arguments alone.
#[verifier::external_body]
fn lookup_str_entry(text: &str, key: &str) -> (r: Option<Option<String>>)
    ensures
        r is None ==> toml_str_entry(text@, key@) is None,
        r matches Some(inner) ==> (inner matches Some(v) && toml_str_entry(text@, key@)
            == Some(Some(v@)) || inner is None && toml_str_entry(text@, key@) == Some(
            None::<Seq<char>>,
        )),
{
    match text.parse::<toml::Table>() {
        Ok(table) => match table.get(key) {
            Some(toml::Value::String(v)) => Some(Some(v.clone())),
            _ => Some(None),
        },
        Err(_) => None,
    }
}

/// The flat fields that the persisted text yields, or `None` where the text
/// is not a well-formed table.
pub open spec fn file_fields_spec(text: Seq<char>) -> Option<ConfigFieldsView> {
    let tok = toml_str_entry(text, "api_token"@);
    let em = toml_str_entry(text, "email"@);
    let key = toml_str_entry(text, "api_key"@);
    let next = toml_str_entry(text, "next_default_project"@);
    if tok is None || em is None || key is None || next is None {
        None
    } else {
        Some(
            ConfigFieldsView {
                api_token: tok.unwrap(),
                email: em.unwrap(),
                api_key: key.unwrap(),
                next_default_project: next.unwrap(),
            },
        )
    }
}

/// Reads the credential-relevant fields out of persisted config text.
pub fn read_file_fields(text: &str) -> (r: Result<ConfigFields, ConfigError>)
    ensures
        match file_fields_spec(text@) {
            None => r matches Err(e) && e == ConfigError::InvalidConfig,
            Some(fv) => r matches Ok(f) && f@ == fv,
        },
{
    let api_token = match lookup_str_entry(text, "api_token") {
        None => return Err(ConfigError::InvalidConfig),
        Some(v) => v,
    };
    let email = match lookup_str_entry(text, "email") {
        None => return Err(ConfigError::InvalidConfig),
        Some(v) => v,
    };
    let api_key = match lookup_str_entry(text, "api_key") {
        None => return Err(ConfigError::InvalidConfig),
        Some(v) => v,
    };
    let next_default_project = match lookup_str_entry(text, "next_default_project") {
        None => return Err(ConfigError::InvalidConfig),
        Some(v) => v,
    };
    let r = ConfigFields { api_token, email, api_key, next_default_project };
    proof {
        assert(r@ =~= file_fields_spec(text@).unwrap());
    }
    Ok(r)
}

impl GlobalConfig {
    /// Resolves the whole layered configuration: the persisted file's text,
    /// where the file exists, overlaid with the environment-sourced fields.
    pub fn new(file_text: Option<&str>, env: &ConfigFields) -> (r: Result<GlobalConfig, ConfigError>)
        ensures
            match file_text {
                None => config_result_matches(
                    r,
                    resolve_config_spec(merge_fields(empty_fields(), env@)),
                ),
                Some(t) => match file_fields_spec(t@) {
                    None => r matches Err(e) && e == ConfigError::InvalidConfig,
                    Some(fv) => config_result_matches(
                        r,
                        resolve_config_spec(merge_fields(fv, env@)),
                    ),
                },
            },
    {
        let file_fields = match file_text {
            Some(t) => match read_file_fields(t) {
                Ok(f) => f,
                Err(e) => return Err(e),
            },
            None => ConfigFields::empty(),
        };
        GlobalConfig::resolve(&file_fields, env)
    }
}

impl GlobalUser {
    /// Resolves just the identity from the same layered sources.
    pub fn new(file_text: Option<&str>, env: &ConfigFields) -> (r: Result<GlobalUser, ConfigError>)
        ensures
            match file_text {
                None => user_result_matches(
                    r,
                    resolve_user_spec(merge_fields(empty_fields(), env@)),
                ),
                Some(t) => match file_fields_spec(t@) {
                    None => r matches Err(e) && e == ConfigError::InvalidConfig,
                    Some(fv) => user_result_matches(r, resolve_user_spec(merge_fields(fv, env@))),
                },
            },
    {
        match GlobalConfig::new(file_text, env) {
            Ok(c) => Ok(c.global_user),
            Err(e) => Err(e),
        }
    }
}

/// The flat fields that the config writer persists for a given config: the
/// variant's own fields and the default project name, nothing else.
pub open spec fn written_fields(c: GlobalConfigView) -> ConfigFieldsView {
    match c.global_user {
        GlobalUserView::TokenAuth { api_token } => ConfigFieldsView {
            api_token: Some(api_token),
            email: None,
            api_key: None,
            next_default_project: Some(c.next_default_project),
        },
        GlobalUserView::GlobalKeyAuth { email, api_key } => ConfigFieldsView {
            api_token: None,
            email: Some(email),
            api_key: Some(api_key),
            next_default_project: Some(c.next_default_project),
        },
    }
}

/// A config the writer would persist: the populated variant's fields and the
/// project name are non-empty.
pub open spec fn config_wf(c: GlobalConfigView) -> bool {
    &&& match c.global_user {
        GlobalUserView::TokenAuth { api_token } => api_token.len() > 0,
        GlobalUserView::GlobalKeyAuth { email, api_key } => email.len() > 0 && api_key.len() > 0,
    }
    &&& c.next_default_project.len() > 0
}

/// Round trip between the config writer and the credential store at the
/// field level: resolving exactly the fields the writer persists, with no
/// environment overlay, reproduces the same identity and default project
/// name.
pub proof fn lemma_written_fields_round_trip(c: GlobalConfigView)
    requires
        config_wf(c),
    ensures
        resolve_config_spec(merge_fields(written_fields(c), empty_fields())) == Ok::<
            GlobalConfigView,
            ConfigError,
        >(c),
{
    assert(resolve_config_spec(merge_fields(written_fields(c), empty_fields())).unwrap() =~= c);
}

} // verus!
