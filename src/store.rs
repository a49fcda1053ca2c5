//! The key-value section store, kept in an `ini::Ini` and modelled as a map
//! from (section, key) to value.
use crate::config::ConfigError;
use ini::Ini;
use vstd::prelude::*;

verus! {

/// The mathematical model of a store: `(section, key) -> value`, where the
/// section `None` is the general section before any header.
pub type StoreMap = Map<(Option<Seq<char>>, Seq<char>), Seq<char>>;

#[verifier::external_type_specification]
#[verifier::external_body]
pub struct ExIni(Ini);

/// The entries of an `Ini`: for each section and key, the value that
/// `Ini::get_from` returns for them.
pub uninterp spec fn ini_entries(i: Ini) -> StoreMap;

/// What `Ini::load_from_str` yields for a text: `None` where it refuses the
/// text, else the entries of the parsed store.
pub uninterp spec fn ini_parsed(text: Seq<char>) -> Option<StoreMap>;

pub open spec fn section_view(section: Option<&str>) -> Option<Seq<char>> {
    match section {
        Some(s) => Some(s@),
        None => None,
    }
}

pub open spec fn owned_section_view(section: Option<String>) -> Option<Seq<char>> {
    match section {
        Some(s) => Some(s@),
        None => None,
    }
}

/// Relies on `Ini::new`: a store that holds no key (only an empty general section).
#[verifier::external_body]
fn ini_new() -> (r: Ini)
    ensures
        ini_entries(r) == StoreMap::empty(),
{
    Ini::new()
}

/// Relies on `Ini::clone` (derived): the copy holds the same sections and keys.
#[verifier::external_body]
fn ini_clone(i: &Ini) -> (r: Ini)
    ensures
        ini_entries(r) == ini_entries(*i),
{
    i.clone()
}

/// Relies on `Ini::get_from`: the value of the key in the section, if it is there.
#[verifier::external_body]
fn ini_get(i: &Ini, section: Option<&str>, key: &str) -> (r: Option<String>)
    ensures
        r is Some == ini_entries(*i).contains_key((section_view(section), key@)),
        r is Some ==> r->Some_0@ == ini_entries(*i)[(section_view(section), key@)],
{
    i.get_from(section, key).map(|v| v.to_string())
}

/// Relies on `Ini::set_to`: replaces every value of the key in the section (made
/// if absent) by the one given.
#[verifier::external_body]
fn ini_set(i: &mut Ini, section: Option<&str>, key: &str, value: &str)
    ensures
        ini_entries(*final(i)) == ini_entries(*old(i)).insert((section_view(section), key@), value@),
{
    i.set_to(section, key.to_string(), value.to_string())
}

/// Relies on `Ini::delete_from`: removes every value of the key from the section.
#[verifier::external_body]
fn ini_delete(i: &mut Ini, section: Option<&str>, key: &str)
    ensures
        ini_entries(*final(i)) == ini_entries(*old(i)).remove((section_view(section), key@)),
{
    i.delete_from(section, key);
}

/// Relies on `Ini::iter` and `Properties::iter`: every section and key of the
/// store is listed.
#[verifier::external_body]
fn ini_keys(i: &Ini) -> (r: Vec<(Option<String>, String)>)
    ensures
        forall|s: Option<Seq<char>>, k: Seq<char>|
            #[trigger] ini_entries(*i).contains_key((s, k)) ==> exists|j: int|
                0 <= j < r@.len() && owned_section_view(r@[j].0) == s && r@[j].1@ == k,
{
    i.iter().flat_map(|(s, p)| p.iter().map(move |(k, _)| (s.map(|x| x.to_string()), k.to_string()))).collect()
}

/// Relies on `Ini::load_from_str`: parses INI text; the error is rendered as text.
#[verifier::external_body]
fn ini_parse(text: &str) -> (r: Result<Ini, String>)
    ensures
        r is Ok == ini_parsed(text@) is Some,
        r is Ok ==> ini_entries(r->Ok_0) == ini_parsed(text@)->Some_0,
{
    Ini::load_from_str(text).map_err(|e| e.to_string())
}

/// What reading a configuration file from disk gave.
pub enum FileRead {
    /// No file stands at the path.
    Missing,
    /// The file's text.
    Text(String),
    /// The file exists but could not be read; the text says why.
    Failed(String),
}

/// The entries that a read file yields, or `None` where it cannot be loaded.
pub open spec fn loaded_entries(read: FileRead) -> Option<StoreMap> {
    match read {
        FileRead::Missing => Some(StoreMap::empty()),
        FileRead::Text(t) => ini_parsed(t@),
        FileRead::Failed(_) => None,
    }
}

pub open spec fn key_of(e: (Option<String>, String)) -> (Option<Seq<char>>, Seq<char>) {
    (owned_section_view(e.0), e.1@)
}

/// A store with no keys.
pub fn empty_store() -> (r: Ini)
    ensures
        ini_entries(r) == StoreMap::empty(),
{
    ini_new()
}

/// Parses INI text into a store.
pub fn parse_store(text: &str) -> (r: Result<Ini, String>)
    ensures
        r is Ok == ini_parsed(text@) is Some,
        r is Ok ==> ini_entries(r->Ok_0) == ini_parsed(text@)->Some_0,
{
    ini_parse(text)
}

/// Loads the store of the file at `path` from what reading it gave: a missing
/// file is an empty store; a read or parse failure is a load error that names
/// the path.
pub fn load_store(path: &str, read: FileRead) -> (r: Result<Ini, ConfigError>)
    ensures
        r is Ok == loaded_entries(read) is Some,
        r is Ok ==> ini_entries(r->Ok_0) == loaded_entries(read)->Some_0,
        read is Missing ==> r is Ok && ini_entries(r->Ok_0) == StoreMap::empty(),
        r is Err ==> (r->Err_0 matches ConfigError::Load { path: p, .. } && p@ == path@),
{
    match read {
        FileRead::Missing => Ok(ini_new()),
        FileRead::Text(t) => match ini_parse(t.as_str()) {
            Ok(i) => Ok(i),
            Err(message) => Err(ConfigError::Load { path: path.to_owned(), message }),
        },
        FileRead::Failed(message) => Err(ConfigError::Load { path: path.to_owned(), message }),
    }
}

/// Reads a key of a section; `None` is the general section.
pub fn get_value(i: &Ini, section: Option<&str>, key: &str) -> (r: Option<String>)
    ensures
        r is Some == ini_entries(*i).contains_key((section_view(section), key@)),
        r is Some ==> r->Some_0@ == ini_entries(*i)[(section_view(section), key@)],
{
    ini_get(i, section, key)
}

/// Sets a key of a section, replacing its value.
pub fn set_value(i: &mut Ini, section: Option<&str>, key: &str, value: &str)
    ensures
        ini_entries(*final(i)) == ini_entries(*old(i)).insert((section_view(section), key@), value@),
{
    ini_set(i, section, key, value)
}

/// Deletes a key of a section; nothing happens where it is absent.
pub fn delete_value(i: &mut Ini, section: Option<&str>, key: &str)
    ensures
        ini_entries(*final(i)) == ini_entries(*old(i)).remove((section_view(section), key@)),
{
    ini_delete(i, section, key)
}

/// Copies a store.
pub fn copy_store(i: &Ini) -> (r: Ini)
    ensures
        ini_entries(r) == ini_entries(*i),
{
    ini_clone(i)
}

/// Sets every key of `project` on `global`: the project's values win, and the
/// global keys that the project does not mention stay.
pub fn merge_into(global: &mut Ini, project: &Ini)
    ensures
        ini_entries(*final(global)) == ini_entries(*old(global)).union_prefer_right(ini_entries(*project)),
{
    let keys = ini_keys(project);
    let ghost base = ini_entries(*global);
    let ghost proj = ini_entries(*project);
    let ghost mut done: Set<(Option<Seq<char>>, Seq<char>)> = Set::empty();
    let mut j: usize = 0;
    while j < keys.len()
        invariant
            0 <= j <= keys@.len(),
            proj == ini_entries(*project),
            done.subset_of(proj.dom()),
            ini_entries(*global) == base.union_prefer_right(proj.restrict(done)),
            forall|i: int| 0 <= i < j && proj.contains_key(#[trigger] key_of(keys@[i])) ==> done.contains(key_of(keys@[i])),
            forall|s: Option<Seq<char>>, k: Seq<char>|
                #[trigger] proj.contains_key((s, k)) ==> exists|i: int|
                    0 <= i < keys@.len() && owned_section_view(keys@[i].0) == s && keys@[i].1@ == k,
        decreases keys.len() - j,
    {
        let entry = &keys[j];
        let section: Option<&str> = match &entry.0 {
            Some(s) => Some(s.as_str()),
            None => None,
        };
        assert(section_view(section) == owned_section_view(entry.0));
        match ini_get(project, section, entry.1.as_str()) {
            Some(v) => {
                ini_set(global, section, entry.1.as_str(), v.as_str());
                proof {
                    let k = key_of(keys@[j as int]);
                    done = done.insert(k);
                    assert(ini_entries(*global) =~= base.union_prefer_right(proj.restrict(done)));
                }
            },
            None => {},
        }
        j = j + 1;
    }
    proof {
        assert forall|k: (Option<Seq<char>>, Seq<char>)| proj.contains_key(k) implies done.contains(k) by {
            let (s, kk) = k;
            assert(proj.contains_key((s, kk)));
            let i = choose|i: int| 0 <= i < keys@.len() && owned_section_view(keys@[i].0) == s && keys@[i].1@ == kk;
            assert(key_of(keys@[i]) == k);
        }
        assert(proj.restrict(done) =~= proj);
    }
}

} // verus!
