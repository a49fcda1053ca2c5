use glab_cli::config::{
    get_default_auth, get_default_vcs_remote, global_config_path, join_path, load_cli_config,
    project_config_candidates, Auth, Config, ConfigBinding, ConfigError,
};
use glab_cli::store::{
    delete_value, empty_store, get_value, load_store, merge_into, parse_store, set_value, FileRead,
};
use ini::Ini;
use std::collections::BTreeMap;

fn entries(i: &Ini) -> BTreeMap<(Option<String>, String), String> {
    let mut m = BTreeMap::new();
    for (s, p) in i.iter() {
        for (k, v) in p.iter() {
            m.insert((s.map(|x| x.to_string()), k.to_string()), v.to_string());
        }
    }
    m
}

fn text(s: &str) -> FileRead {
    FileRead::Text(s.to_string())
}

fn serialize(i: &Ini) -> String {
    let mut buf: Vec<u8> = Vec::new();
    i.write_to(&mut buf).unwrap();
    String::from_utf8(buf).unwrap()
}

#[test]
fn round_trip_of_set_and_delete() {
    let mut s = empty_store();
    set_value(&mut s, Some("auth"), "token", "abc");
    set_value(&mut s, Some("auth"), "api_key", "k1");
    set_value(&mut s, Some("defaults"), "vcs_remote", "upstream");
    set_value(&mut s, Some("auth"), "token", "def");
    delete_value(&mut s, Some("auth"), "api_key");
    delete_value(&mut s, Some("other"), "missing");
    let back = parse_store(&serialize(&s)).unwrap();
    assert_eq!(entries(&back), entries(&s));
    assert_eq!(get_value(&back, Some("auth"), "token"), Some("def".to_string()));
    assert_eq!(get_value(&back, Some("auth"), "api_key"), None);
}

#[test]
fn round_trip_of_empty_store() {
    let s = empty_store();
    let back = parse_store(&serialize(&s)).unwrap();
    assert!(entries(&back).is_empty());
}

#[test]
fn project_value_wins_over_global() {
    let c = Config::from_cli_config(
        "/home/u/.glabclirc".to_string(),
        text("[auth]\ntoken = g\n[defaults]\nvcs_remote = up\n"),
        Some(("/w/p/.glabclirc".to_string(), text("[auth]\ntoken = p\n"))),
    )
    .unwrap();
    assert_eq!(c.get("auth", "token"), Some("p".to_string()));
    assert_eq!(c.get("defaults", "vcs_remote"), Some("up".to_string()));
    assert_eq!(c.filename(), "/w/p/.glabclirc");
    assert_eq!(c.auth(), &Some(Auth::Token("p".to_string())));
    assert_eq!(c.vcs_remote(), "up");
}

#[test]
fn merge_keeps_global_only_keys() {
    let mut g = parse_store("[a]\nx = 1\ny = 2\n").unwrap();
    let p = parse_store("[a]\ny = 3\n[b]\nz = 4\n").unwrap();
    merge_into(&mut g, &p);
    assert_eq!(get_value(&g, Some("a"), "x"), Some("1".to_string()));
    assert_eq!(get_value(&g, Some("a"), "y"), Some("3".to_string()));
    assert_eq!(get_value(&g, Some("b"), "z"), Some("4".to_string()));
}

#[test]
fn without_project_file_the_global_path_is_kept() {
    let (path, ini) =
        load_cli_config("/home/u/.glabclirc".to_string(), text("[auth]\ntoken = g\n"), None).unwrap();
    assert_eq!(path, "/home/u/.glabclirc");
    assert_eq!(get_value(&ini, Some("auth"), "token"), Some("g".to_string()));
}

#[test]
fn missing_file_yields_empty_store() {
    let s = load_store("/nowhere/.glabclirc", FileRead::Missing).unwrap();
    assert!(entries(&s).is_empty());
}

#[test]
fn unreadable_file_is_a_load_error() {
    let r = load_store("/home/u/.glabclirc", FileRead::Failed("permission denied".to_string()));
    assert_eq!(
        r.err(),
        Some(ConfigError::Load {
            path: "/home/u/.glabclirc".to_string(),
            message: "permission denied".to_string()
        })
    );
}

#[test]
fn malformed_file_is_a_load_error() {
    let r = load_store("/home/u/.glabclirc", text("[auth\ntoken = x\n"));
    match r {
        Err(ConfigError::Load { path, .. }) => assert_eq!(path, "/home/u/.glabclirc"),
        _ => panic!("expected a load error"),
    }
    let c = Config::from_cli_config(
        "/home/u/.glabclirc".to_string(),
        FileRead::Missing,
        Some(("/w/.glabclirc".to_string(), text("[auth\n"))),
    );
    assert!(matches!(c, Err(ConfigError::Load { .. })));
}

#[test]
fn missing_home_directory_is_an_error() {
    assert_eq!(global_config_path(None), Err(ConfigError::HomeDirectoryNotFound));
}

#[test]
fn global_path_is_in_home_directory() {
    assert_eq!(global_config_path(Some("/home/u".to_string())), Ok("/home/u/.glabclirc".to_string()));
    assert_eq!(join_path("/", ".glabclirc"), "/.glabclirc");
    assert_eq!(join_path("/home/u/", "x"), "/home/u/x");
}

#[test]
fn project_candidates_walk_upward_two_names_each() {
    let dirs = vec!["/w/p".to_string(), "/w".to_string(), "/".to_string()];
    let c = project_config_candidates(&dirs);
    assert_eq!(
        c,
        vec![
            "/w/p/.glabclirc".to_string(),
            "/w/p/glabcli.ini".to_string(),
            "/w/.glabclirc".to_string(),
            "/w/glabcli.ini".to_string(),
            "/.glabclirc".to_string(),
            "/glabcli.ini".to_string(),
        ]
    );
}

#[test]
fn key_after_token_leaves_only_key() {
    let mut c = Config::from_file("/h/.glabclirc".to_string(), empty_store()).unwrap();
    c.set_auth(Auth::Token("x".to_string()));
    c.set_auth(Auth::Key("y".to_string()));
    assert_eq!(c.get("auth", "api_key"), Some("y".to_string()));
    assert_eq!(c.get("auth", "token"), None);
    assert_eq!(c.auth(), &Some(Auth::Key("y".to_string())));
}

#[test]
fn token_after_key_leaves_only_token() {
    let mut c = Config::from_file("/h/.glabclirc".to_string(), empty_store()).unwrap();
    c.set_auth(Auth::Key("y".to_string()));
    c.set_auth(Auth::Token("x".to_string()));
    assert_eq!(c.get("auth", "token"), Some("x".to_string()));
    assert_eq!(c.get("auth", "api_key"), None);
}

#[test]
fn token_takes_precedence_over_key() {
    let both = parse_store("[auth]\napi_key = k\ntoken = t\n").unwrap();
    assert_eq!(get_default_auth(&both), Some(Auth::Token("t".to_string())));
    let key = parse_store("[auth]\napi_key = k\n").unwrap();
    assert_eq!(get_default_auth(&key), Some(Auth::Key("k".to_string())));
    assert_eq!(get_default_auth(&empty_store()), None);
}

#[test]
fn default_remote_falls_back_to_origin() {
    assert_eq!(get_default_vcs_remote(&empty_store()), "origin");
    let c = Config::from_file("/h/.glabclirc".to_string(), parse_store("[auth]\ntoken = t\n").unwrap())
        .unwrap();
    assert_eq!(c.vcs_remote(), "origin");
    let named = parse_store("[defaults]\nvcs_remote = upstream\n").unwrap();
    assert_eq!(get_default_vcs_remote(&named), "upstream");
}

#[test]
fn copy_on_write_leaves_bound_config() {
    let mut binding = ConfigBinding::new();
    let c = Config::from_file("/h/.glabclirc".to_string(), parse_store("[auth]\ntoken = old\n").unwrap())
        .unwrap();
    let bound = c.bind_to_process(&mut binding);
    let before = entries(bound.ini());
    let changed = bound
        .make_copy(|mut cfg: Config| -> Result<Config, ConfigError> {
            cfg.set_auth(Auth::Token("new".to_string()));
            Ok(cfg)
        })
        .unwrap();
    assert_eq!(changed.get("auth", "token"), Some("new".to_string()));
    assert!(!changed.is_process_bound());
    let now = Config::current(&binding);
    assert_eq!(entries(now.ini()), before);
    assert_eq!(now.get("auth", "token"), Some("old".to_string()));
}

#[test]
fn failed_mutation_is_propagated() {
    let c = Config::from_file("/h/.glabclirc".to_string(), empty_store()).unwrap();
    let r = c.make_copy(|_cfg: Config| -> Result<Config, String> { Err("no".to_string()) });
    assert_eq!(r.err(), Some("no".to_string()));
    assert_eq!(c.get("auth", "token"), None);
}

#[test]
fn fresh_binding_has_no_config() {
    let binding = ConfigBinding::new();
    assert!(Config::current_opt(&binding).is_none());
}

#[test]
fn binding_replaces_previous_config() {
    let mut binding = ConfigBinding::new();
    let first = Config::from_file("/a".to_string(), empty_store()).unwrap().bind_to_process(&mut binding);
    assert!(first.is_process_bound());
    let _second = Config::from_file("/b".to_string(), empty_store()).unwrap().bind_to_process(&mut binding);
    assert_eq!(Config::current(&binding).filename(), "/b");
    assert_eq!(first.filename(), "/a");
}
