//! The configuration snapshot, its cached credential and default remote, the
//! binding that holds the current snapshot, and copy-on-write updates.
use crate::store::{
    copy_store, delete_value, get_value, ini_entries, load_store, loaded_entries, merge_into,
    set_value, FileRead, StoreMap,
};
use ini::Ini;
use std::sync::Arc;
use vstd::prelude::*;
use vstd::string::*;

verus! {

/// The name of the configuration file.
pub const CONFIG_RC_FILE_NAME: &'static str = ".glabclirc";

/// The second name under which a project directory may hold its configuration.
pub const PROJECT_RC_FILE_NAME: &'static str = "glabcli.ini";

/// The remote used where the configuration names none.
pub const DEFAULT_VCS_REMOTE: &'static str = "origin";

/// How the user authenticates.
#[derive(Debug, Clone, PartialEq, Eq)]
pub enum Auth {
    Key(String),
    Token(String),
}

/// Why the configuration could not be loaded.
#[derive(Debug, Clone, PartialEq, Eq)]
pub enum ConfigError {
    /// No home directory could be found.
    HomeDirectoryNotFound,
    /// The file at `path` exists but could not be read or parsed.
    Load { path: String, message: String },
}

impl Auth {
    /// The key of the `auth` section that holds this credential.
    pub open spec fn store_key(self) -> Seq<char> {
        match self {
            Auth::Key(_) => "api_key"@,
            Auth::Token(_) => "token"@,
        }
    }

    pub open spec fn secret(self) -> Seq<char> {
        match self {
            Auth::Key(v) => v@,
            Auth::Token(v) => v@,
        }
    }
}

pub open spec fn token_key() -> (Option<Seq<char>>, Seq<char>) {
    (Some("auth"@), "token"@)
}

pub open spec fn api_key_key() -> (Option<Seq<char>>, Seq<char>) {
    (Some("auth"@), "api_key"@)
}

pub open spec fn vcs_remote_key() -> (Option<Seq<char>>, Seq<char>) {
    (Some("defaults"@), "vcs_remote"@)
}

/// `a` is the credential that the store holds: its token where it has one,
/// else its API key, else none.
pub open spec fn is_credential_of(m: StoreMap, a: Option<Auth>) -> bool {
    if m.contains_key(token_key()) {
        a matches Some(Auth::Token(v)) && v@ == m[token_key()]
    } else if m.contains_key(api_key_key()) {
        a matches Some(Auth::Key(v)) && v@ == m[api_key_key()]
    } else {
        a is None
    }
}

/// The default remote of a store: `defaults.vcs_remote`, else `origin`.
pub open spec fn default_remote_of(m: StoreMap) -> Seq<char> {
    if m.contains_key(vcs_remote_key()) {
        m[vcs_remote_key()]
    } else {
        "origin"@
    }
}

/// The store after the credential is set: both credential keys are cleared and
/// the one of `a` is written.
pub open spec fn with_credential(m: StoreMap, a: Auth) -> StoreMap {
    m.remove(api_key_key()).remove(token_key()).insert((Some("auth"@), a.store_key()), a.secret())
}

/// `dir` joined with `name` as a path: one separator between them.
pub open spec fn joined_path(dir: Seq<char>, name: Seq<char>) -> Seq<char> {
    if dir.len() > 0 && dir.last() == '/' {
        dir + name
    } else {
        dir + seq!['/'] + name
    }
}

/// What the two configuration files merge to: the project's entries over the
/// global ones, or `None` where a file present cannot be loaded.
pub open spec fn merged_entries(global: FileRead, project: Option<(String, FileRead)>) -> Option<StoreMap> {
    match loaded_entries(global) {
        None => None,
        Some(g) => match project {
            None => Some(g),
            Some((_, p)) => match loaded_entries(p) {
                None => None,
                Some(pm) => Some(g.union_prefer_right(pm)),
            },
        },
    }
}

/// The path of the file that a configuration is anchored to: the project
/// file where one was found, else the global one.
pub open spec fn anchor_path(global_path: Seq<char>, project: Option<(String, FileRead)>) -> Seq<char> {
    match project {
        Some((p, _)) => p@,
        None => global_path,
    }
}

/// The `glab-cli` configuration: where it was loaded from, its store, and the
/// credential and default remote read from the store.
pub struct Config {
    filename: String,
    ini: Ini,
    process_bound: bool,
    cached_auth: Option<Auth>,
    cached_vcs_remote: String,
}

fn copy_auth(a: &Option<Auth>) -> (r: Option<Auth>)
    ensures
        r == *a,
{
    match a {
        Some(Auth::Key(v)) => Some(Auth::Key(v.clone())),
        Some(Auth::Token(v)) => Some(Auth::Token(v.clone())),
        None => None,
    }
}

/// Relies on `dirs::home_dir`: the user's home directory, if one is found,
/// as text. Nothing is known of its value.
#[verifier::external_body]
fn home_dir() -> (r: Option<String>) {
    dirs::home_dir().map(|p| p.to_string_lossy().into_owned())
}

/// Relies on `Arc::clone`: the new handle shares the same value.
#[verifier::external_body]
fn share(a: &Arc<Config>) -> (r: Arc<Config>)
    ensures
        *r == **a,
{
    Arc::clone(a)
}

/// Joins a directory and a file name with one separator.
pub fn join_path(dir: &str, name: &str) -> (r: String)
    ensures
        r@ == joined_path(dir@, name@),
{
    let n = dir.unicode_len();
    let ends_with_separator = n > 0 && dir.get_char(n - 1) == '/';
    let mut r = String::from_str(dir);
    if !ends_with_separator {
        r.append("/");
        proof { reveal_strlit("/"); }
    }
    r.append(name);
    r
}

/// The path of the global configuration file in the given home directory.
pub fn global_config_path(home: Option<String>) -> (r: Result<String, ConfigError>)
    ensures
        home is None ==> r == Err::<String, ConfigError>(ConfigError::HomeDirectoryNotFound),
        home is Some ==> r is Ok && r->Ok_0@ == joined_path(home->Some_0@, CONFIG_RC_FILE_NAME@),
{
    match home {
        Some(h) => Ok(join_path(h.as_str(), CONFIG_RC_FILE_NAME)),
        None => Err(ConfigError::HomeDirectoryNotFound),
    }
}

/// The path of the global configuration file in the user's home directory.
pub fn find_global_config_file() -> (r: Result<String, ConfigError>)
    ensures
        r is Err ==> r == Err::<String, ConfigError>(ConfigError::HomeDirectoryNotFound),
        r is Ok ==> exists|h: Seq<char>| r->Ok_0@ == joined_path(h, CONFIG_RC_FILE_NAME@),
{
    global_config_path(home_dir())
}

/// The files that may hold a project's configuration, in the order they are
/// tried: in each directory (the working directory first, then its
/// ancestors) the main name, then the second one.
pub fn project_config_candidates(dirs: &Vec<String>) -> (r: Vec<String>)
    requires
        dirs@.len() * 2 <= usize::MAX,
    ensures
        r@.len() == 2 * dirs@.len(),
        forall|i: int| 0 <= i < dirs@.len() ==> r@[2 * i]@ == joined_path(dirs@[i]@, CONFIG_RC_FILE_NAME@)
            && r@[2 * i + 1]@ == joined_path(dirs@[i]@, PROJECT_RC_FILE_NAME@),
{
    let mut r: Vec<String> = Vec::new();
    let mut i: usize = 0;
    while i < dirs.len()
        invariant
            0 <= i <= dirs@.len(),
            dirs@.len() * 2 <= usize::MAX,
            r@.len() == 2 * i,
            forall|k: int| 0 <= k < i ==> r@[2 * k]@ == joined_path(dirs@[k]@, CONFIG_RC_FILE_NAME@)
                && r@[2 * k + 1]@ == joined_path(dirs@[k]@, PROJECT_RC_FILE_NAME@),
        decreases dirs@.len() - i,
    {
        r.push(join_path(dirs[i].as_str(), CONFIG_RC_FILE_NAME));
        r.push(join_path(dirs[i].as_str(), PROJECT_RC_FILE_NAME));
        i = i + 1;
    }
    r
}

/// Loads the global store and, where a project file was found, sets every
/// entry of the project store on it. Returns the anchor path with the store.
pub fn load_cli_config(global_path: String, global: FileRead, project: Option<(String, FileRead)>) -> (r:
    Result<(String, Ini), ConfigError>)
    ensures
        r is Ok == merged_entries(global, project) is Some,
        r is Ok ==> r->Ok_0.0@ == anchor_path(global_path@, project)
            && ini_entries(r->Ok_0.1) == merged_entries(global, project)->Some_0,
{
    let mut rv = match load_store(global_path.as_str(), global) {
        Ok(i) => i,
        Err(e) => return Err(e),
    };
    match project {
        Some((path, read)) => {
            let p = match load_store(path.as_str(), read) {
                Ok(i) => i,
                Err(e) => return Err(e),
            };
            merge_into(&mut rv, &p);
            Ok((path, rv))
        },
        None => Ok((global_path, rv)),
    }
}

/// The credential that a store holds: its token, else its API key.
pub fn get_default_auth(ini: &Ini) -> (r: Option<Auth>)
    ensures
        is_credential_of(ini_entries(*ini), r),
{
    match get_value(ini, Some("auth"), "token") {
        Some(v) => Some(Auth::Token(v)),
        None => match get_value(ini, Some("auth"), "api_key") {
            Some(v) => Some(Auth::Key(v)),
            None => None,
        },
    }
}

/// The default remote of a store: `defaults.vcs_remote`, else `origin`.
pub fn get_default_vcs_remote(ini: &Ini) -> (r: String)
    ensures
        r@ == default_remote_of(ini_entries(*ini)),
{
    match get_value(ini, Some("defaults"), "vcs_remote") {
        Some(v) => v,
        None => String::from_str(DEFAULT_VCS_REMOTE),
    }
}

impl Config {
    pub closed spec fn spec_path(&self) -> Seq<char> {
        self.filename@
    }

    pub closed spec fn spec_store(&self) -> StoreMap {
        ini_entries(self.ini)
    }

    pub closed spec fn spec_auth(&self) -> Option<Auth> {
        self.cached_auth
    }

    pub closed spec fn spec_remote(&self) -> Seq<char> {
        self.cached_vcs_remote@
    }

    pub closed spec fn spec_bound(&self) -> bool {
        self.process_bound
    }

    /// The cached fields agree with the store.
    pub open spec fn wf(&self) -> bool {
        is_credential_of(self.spec_store(), self.spec_auth()) && self.spec_remote() == default_remote_of(
            self.spec_store(),
        )
    }

    /// Loads the configuration from what reading the global and the project
    /// file gave.
    pub fn from_cli_config(global_path: String, global: FileRead, project: Option<(String, FileRead)>) -> (r:
        Result<Self, ConfigError>)
        ensures
            r is Ok == merged_entries(global, project) is Some,
            r is Ok ==> r->Ok_0.wf() && !r->Ok_0.spec_bound() && r->Ok_0.spec_path() == anchor_path(
                global_path@,
                project,
            ) && r->Ok_0.spec_store() == merged_entries(global, project)->Some_0,
    {
        match load_cli_config(global_path, global, project) {
            Ok((filename, ini)) => Config::from_file(filename, ini),
            Err(e) => Err(e),
        }
    }

    /// Builds a configuration from a path and its store, reading the
    /// credential and the default remote from the store.
    pub fn from_file(filename: String, ini: Ini) -> (r: Result<Self, ConfigError>)
        ensures
            r is Ok,
            r->Ok_0.wf(),
            !r->Ok_0.spec_bound(),
            r->Ok_0.spec_path() == filename@,
            r->Ok_0.spec_store() == ini_entries(ini),
    {
        let cached_auth = get_default_auth(&ini);
        let cached_vcs_remote = get_default_vcs_remote(&ini);
        Ok(Config { filename, ini, process_bound: false, cached_auth, cached_vcs_remote })
    }

    /// The path of the file the configuration is anchored to.
    pub fn filename(&self) -> (r: &String)
        ensures
            r@ == self.spec_path(),
    {
        &self.filename
    }

    /// The store.
    pub fn ini(&self) -> (r: &Ini)
        ensures
            ini_entries(*r) == self.spec_store(),
    {
        &self.ini
    }

    /// The cached credential.
    pub fn auth(&self) -> (r: &Option<Auth>)
        ensures
            *r == self.spec_auth(),
    {
        &self.cached_auth
    }

    /// The cached default remote.
    pub fn vcs_remote(&self) -> (r: &String)
        ensures
            r@ == self.spec_remote(),
    {
        &self.cached_vcs_remote
    }

    /// Whether this configuration was bound to the process.
    pub fn is_process_bound(&self) -> (r: bool)
        ensures
            r == self.spec_bound(),
    {
        self.process_bound
    }

    /// A key of a section of the store.
    pub fn get(&self, section: &str, key: &str) -> (r: Option<String>)
        ensures
            r is Some == self.spec_store().contains_key((Some(section@), key@)),
            r is Some ==> r->Some_0@ == self.spec_store()[(Some(section@), key@)],
    {
        get_value(&self.ini, Some(section), key)
    }

    /// An unbound copy with the same path, store and cached fields.
    pub fn copy(&self) -> (r: Config)
        ensures
            r.spec_path() == self.spec_path(),
            r.spec_store() == self.spec_store(),
            r.spec_auth() == self.spec_auth(),
            r.spec_remote() == self.spec_remote(),
            !r.spec_bound(),
    {
        Config {
            filename: self.filename.clone(),
            ini: copy_store(&self.ini),
            cached_auth: copy_auth(&self.cached_auth),
            cached_vcs_remote: self.cached_vcs_remote.clone(),
            process_bound: false,
        }
    }

    /// Sets the credential, clearing the key of the other kind.
    pub fn set_auth(&mut self, auth: Auth)
        ensures
            final(self).spec_store() == with_credential(old(self).spec_store(), auth),
            final(self).spec_auth() == Some(auth),
            final(self).spec_path() == old(self).spec_path(),
            final(self).spec_remote() == old(self).spec_remote(),
            final(self).spec_bound() == old(self).spec_bound(),
            old(self).wf() ==> final(self).wf(),
    {
        delete_value(&mut self.ini, Some("auth"), "api_key");
        delete_value(&mut self.ini, Some("auth"), "token");
        match &auth {
            Auth::Token(v) => set_value(&mut self.ini, Some("auth"), "token", v.as_str()),
            Auth::Key(v) => set_value(&mut self.ini, Some("auth"), "api_key", v.as_str()),
        }
        self.cached_auth = Some(auth);
        proof {
            lemma_credential_update(old(self).spec_store(), auth);
        }
    }

    /// Copies the configuration, hands the copy to `cb` to change, and returns
    /// what `cb` returns: the changed copy, or its error. `self` is left as it
    /// was; the copy is neither bound nor written anywhere.
    pub fn make_copy<E, F: FnOnce(Config) -> Result<Config, E>>(&self, cb: F) -> (r: Result<Config, E>)
        requires
            forall|c: Config| #[trigger] cb.requires((c,)),
        ensures
            exists|c: Config|
                c.spec_store() == self.spec_store() && c.spec_path() == self.spec_path() && c.spec_auth()
                    == self.spec_auth() && c.spec_remote() == self.spec_remote() && !c.spec_bound()
                    && #[trigger] cb.ensures((c,), r),
    {
        let new_config = self.copy();
        cb(new_config)
    }
}

impl Clone for Config {
    fn clone(&self) -> Self {
        self.copy()
    }
}

/// The single slot that holds the current configuration.
pub struct ConfigBinding {
    slot: Option<Arc<Config>>,
}

impl ConfigBinding {
    /// The bound configuration, if any.
    pub closed spec fn spec_current(&self) -> Option<Config> {
        match self.slot {
            Some(a) => Some(*a),
            None => None,
        }
    }

    /// A slot with nothing bound.
    pub fn new() -> (r: ConfigBinding)
        ensures
            r.spec_current() is None,
    {
        ConfigBinding { slot: None }
    }
}

impl Config {
    /// Binds the configuration, marked as bound, in the slot, replacing what
    /// was there, and returns a shared handle to it.
    pub fn bind_to_process(self, binding: &mut ConfigBinding) -> (r: Arc<Config>)
        ensures
            final(binding).spec_current() == Some(*r),
            r.spec_bound(),
            r.spec_path() == self.spec_path(),
            r.spec_store() == self.spec_store(),
            r.spec_auth() == self.spec_auth(),
            r.spec_remote() == self.spec_remote(),
    {
        let mut bound = self;
        bound.process_bound = true;
        let a = Arc::new(bound);
        binding.slot = Some(share(&a));
        a
    }

    /// The bound configuration, or `None` where nothing is bound yet.
    pub fn current_opt(binding: &ConfigBinding) -> (r: Option<Arc<Config>>)
        ensures
            r is Some == binding.spec_current() is Some,
            r is Some ==> *r->Some_0 == binding.spec_current()->Some_0,
    {
        match &binding.slot {
            Some(a) => Some(share(a)),
            None => None,
        }
    }

    /// The bound configuration. Reading a slot that nothing was bound to is a
    /// programming error.
    pub fn current(binding: &ConfigBinding) -> (r: Arc<Config>)
        requires
            binding.spec_current() is Some,
        ensures
            *r == binding.spec_current()->Some_0,
    {
        share(binding.slot.as_ref().unwrap())
    }
}

/// Setting a credential leaves the store holding exactly that credential, and
/// leaves its default remote as it was.
pub proof fn lemma_credential_update(m: StoreMap, a: Auth)
    ensures
        is_credential_of(with_credential(m, a), Some(a)),
        default_remote_of(with_credential(m, a)) == default_remote_of(m),
{
    reveal_strlit("auth");
    reveal_strlit("token");
    reveal_strlit("api_key");
    reveal_strlit("defaults");
    assert("defaults"@[0] != "auth"@[0]);
    assert("token"@[0] != "api_key"@[0]);
}

/// Where both files define a key, the merged store holds the project's value;
/// a key that only the global file defines keeps the global value.
pub proof fn lemma_project_precedence(global: FileRead, path: String, project: FileRead)
    requires
        merged_entries(global, Some((path, project))) is Some,
    ensures
        ({
            let m = merged_entries(global, Some((path, project)))->Some_0;
            let g = loaded_entries(global)->Some_0;
            let p = loaded_entries(project)->Some_0;
            &&& forall|k| #[trigger] p.contains_key(k) ==> m.contains_key(k) && m[k] == p[k]
            &&& forall|k| !p.contains_key(k) && #[trigger] g.contains_key(k) ==> m.contains_key(k) && m[k] == g[k]
            &&& forall|k| #[trigger] m.contains_key(k) ==> p.contains_key(k) || g.contains_key(k)
        }),
{
}

/// A store without `defaults.vcs_remote` has `origin` as its default remote.
pub proof fn lemma_default_remote_fallback(m: StoreMap)
    requires
        !m.contains_key(vcs_remote_key()),
    ensures
        default_remote_of(m) == DEFAULT_VCS_REMOTE@,
{
}

/// After one credential and then another are set on a store, only the second
/// is there: its key holds its secret and the key of the other kind is absent.
pub proof fn lemma_credential_exclusive(m: StoreMap, first: Auth, second: Auth)
    ensures
        ({
            let r = with_credential(with_credential(m, first), second);
            match second {
                Auth::Token(v) => r.contains_key(token_key()) && r[token_key()] == v@ && !r.contains_key(
                    api_key_key(),
                ),
                Auth::Key(v) => r.contains_key(api_key_key()) && r[api_key_key()] == v@ && !r.contains_key(
                    token_key(),
                ),
            }
        }),
{
    reveal_strlit("token");
    reveal_strlit("api_key");
    assert("token"@[0] != "api_key"@[0]);
}

} // verus!
