use glmy::memfs::MemFs;
use glmy::resolver::{Env, RFlow, RState, RQuery, home_dir, resolve_query, resolve_step};
use glmy::session::{
    initialize, initialize_step, initialize_step_read, IFlow, IState,
    read_dir, read_dir_step, read_dir_step_list, read_dir_query, DFlow, DState, DQuery,
};
use glmy::text::dec_of;
use glmy::responses::{home_error_response, config_error_response, default_config};

const DEFAULT_TEXT: &str = "{\"paths\":{\"bookmarks\":\"<home>/bookmarks\",\"databases\":\"<home>/databases\",\"home\":\"C:\\\\Users\\\\ziegler\\\\Desktop\\\\GLMY\",\"notes\":\"<home>/notes\",\"todos\":\"<home>/todos\"},\"version\":\"0.1.0\"}";
const HOME_ERR: &str = "{\"message\":\"The GLMY home directory does not exist and could not be created.\",\"status\":\"error\"}";
const CONFIG_ERR: &str = "{\"message\":\"The GLMY configuration file does not exist and could not be created.\",\"status\":\"error\"}";

fn env_with(user_home: Option<&str>, cwd: Option<&str>, documents: bool) -> Env {
    Env {
        user_home: user_home.map(|s| s.to_string()),
        cwd: cwd.map(|s| s.to_string()),
        documents,
    }
}

fn fs_with(dirs: &[&str], files: &[(&str, &str)]) -> MemFs {
    MemFs {
        dirs: dirs.iter().map(|s| s.to_string()).collect(),
        files: files.iter().map(|(p, t)| (p.to_string(), t.to_string())).collect(),
    }
}

#[test]
fn missing_candidate_fails() {
    let mut fs = MemFs::new();
    let env = env_with(Some("/home/u"), None, false);
    assert_eq!(fs.resolve_home("/elsewhere", &env), None);
    assert_eq!(fs.dirs.len(), 0);
}

#[test]
fn existing_candidate_resolves_unchanged() {
    let mut fs = fs_with(&["/data"], &[]);
    let env = env_with(Some("/home/u"), None, false);
    assert_eq!(fs.resolve_home("/data", &env), Some("/data".to_string()));
    assert_eq!(fs.dirs.len(), 1);
}

#[test]
fn candidate_that_is_a_file_resolves() {
    let mut fs = fs_with(&[], &[("/data.txt", "x")]);
    let env = env_with(None, None, false);
    assert_eq!(fs.resolve_home("/data.txt", &env), Some("/data.txt".to_string()));
}

#[test]
fn empty_candidate_uses_user_home() {
    let mut fs = fs_with(&["/home/u"], &[]);
    let env = env_with(Some("/home/u"), Some("/cwd"), false);
    assert_eq!(fs.resolve_home("", &env), Some("/home/u/GLMY".to_string()));
}

#[test]
fn known_user_home_never_falls_back_to_cwd() {
    let env_a = env_with(Some("/home/u"), Some("/cwd1"), false);
    let env_b = env_with(Some("/home/u"), Some("/cwd2"), false);
    let env_c = env_with(Some("/home/u"), None, false);
    let mut fs_a = fs_with(&["/home/u", "/cwd1", "/cwd2"], &[]);
    let mut fs_b = fs_with(&["/home/u", "/cwd1", "/cwd2"], &[]);
    let mut fs_c = fs_with(&["/home/u", "/cwd1", "/cwd2"], &[]);
    let r_a = fs_a.resolve_home("", &env_a);
    let r_b = fs_b.resolve_home("", &env_b);
    let r_c = fs_c.resolve_home("", &env_c);
    assert_eq!(r_a, Some("/home/u/GLMY".to_string()));
    assert_eq!(r_a, r_b);
    assert_eq!(r_a, r_c);
}

#[test]
fn unknown_user_home_falls_back_to_cwd() {
    let mut fs = fs_with(&["/cwd"], &[]);
    let env = env_with(None, Some("/cwd"), false);
    assert_eq!(fs.resolve_home("", &env), Some("/cwd/GLMY".to_string()));
}

#[test]
fn no_base_directory_fails() {
    let mut fs = MemFs::new();
    let env = env_with(None, None, false);
    assert_eq!(fs.resolve_home("", &env), None);
}

#[test]
fn absent_base_directory_fails() {
    let mut fs = MemFs::new();
    let env = env_with(Some("/home/u"), None, false);
    assert_eq!(fs.resolve_home("", &env), None);
}

#[test]
fn documents_folder_is_entered_when_present() {
    let mut fs = fs_with(&["/home/u", "/home/u/Documents"], &[]);
    let env = env_with(Some("/home/u"), None, true);
    assert_eq!(fs.resolve_home("", &env), Some("/home/u/Documents/GLMY".to_string()));
}

#[test]
fn documents_folder_is_skipped_when_absent() {
    let mut fs = fs_with(&["/home/u"], &[]);
    let env = env_with(Some("/home/u"), None, true);
    assert_eq!(fs.resolve_home("", &env), Some("/home/u/GLMY".to_string()));
}

#[test]
fn resolving_twice_is_idempotent() {
    let mut fs = fs_with(&["/home/u"], &[]);
    let env = env_with(Some("/home/u"), None, false);
    let first = fs.resolve_home("", &env);
    assert_eq!(first, Some("/home/u/GLMY".to_string()));
    let dirs_after_first = fs.dirs.len();
    let second = fs.resolve_home("", &env);
    assert_eq!(second, first);
    assert_eq!(fs.dirs.len(), dirs_after_first);
}

#[test]
fn existing_glmy_folder_is_reused() {
    let mut fs = fs_with(&["/home/u", "/home/u/GLMY"], &[]);
    let env = env_with(Some("/home/u"), None, false);
    assert_eq!(fs.resolve_home("", &env), Some("/home/u/GLMY".to_string()));
    assert_eq!(fs.dirs.len(), 2);
}

#[test]
fn first_initialize_writes_the_defaults() {
    let mut fs = fs_with(&["/h"], &[]);
    let env = env_with(Some("/h"), None, false);
    let response = fs.initialize_session("", &env);
    let expected = format!("{{\"result\":{},\"status\":\"success\"}}", DEFAULT_TEXT);
    assert_eq!(response, expected);
    assert_eq!(fs.read_file("/h/GLMY/config.json"), Some(DEFAULT_TEXT.to_string()));
}

#[test]
fn initialize_keeps_an_existing_valid_config() {
    let mut fs = fs_with(
        &["/h", "/h/GLMY"],
        &[("/h/GLMY/config.json", "{ \"version\" : \"9.9.9\" }")],
    );
    let env = env_with(Some("/h"), None, false);
    let response = fs.initialize_session("", &env);
    assert_eq!(response, "{\"result\":{\"version\":\"9.9.9\"},\"status\":\"success\"}");
    assert_eq!(
        fs.read_file("/h/GLMY/config.json"),
        Some("{ \"version\" : \"9.9.9\" }".to_string()),
    );
}

#[test]
fn initialize_rejects_an_invalid_config() {
    let mut fs = fs_with(&["/h", "/h/GLMY"], &[("/h/GLMY/config.json", "not json")]);
    let env = env_with(Some("/h"), None, false);
    let response = fs.initialize_session("", &env);
    assert_eq!(response, CONFIG_ERR);
    assert_eq!(fs.read_file("/h/GLMY/config.json"), Some("not json".to_string()));
}

#[test]
fn initialize_without_a_home_reports_the_home_error() {
    let mut fs = MemFs::new();
    let env = env_with(None, None, false);
    assert_eq!(fs.initialize_session("", &env), HOME_ERR);
}

#[test]
fn initialize_with_a_missing_candidate_reports_the_home_error() {
    let mut fs = MemFs::new();
    let env = env_with(Some("/h"), None, false);
    assert_eq!(fs.initialize_session("/nowhere", &env), HOME_ERR);
}

#[test]
fn initialize_accepts_an_existing_candidate() {
    let mut fs = fs_with(&["/chosen"], &[]);
    let env = env_with(Some("/other"), None, false);
    let response = fs.initialize_session("/chosen", &env);
    let expected = format!("{{\"result\":{},\"status\":\"success\"}}", DEFAULT_TEXT);
    assert_eq!(response, expected);
    assert_eq!(fs.read_file("/chosen/config.json"), Some(DEFAULT_TEXT.to_string()));
}

fn drive_initialize_to_config_check(env: &Env) -> IState {
    let mut flow = initialize("", env);
    loop {
        match flow {
            IFlow::Pending { state } => match state {
                IState::Resolving { .. } => {
                    flow = initialize_step(state, true);
                },
                IState::ConfigCheck { .. } => {
                    return state;
                },
                _ => panic!("unexpected state"),
            },
            IFlow::Done { .. } => panic!("finished too early"),
        }
    }
}

#[test]
fn failed_default_write_reports_the_config_error() {
    let env = env_with(Some("/h"), None, false);
    let state = drive_initialize_to_config_check(&env);
    // The file does not exist, so a write is attempted; it fails.
    let flow = initialize_step(state, false);
    match flow {
        IFlow::Pending { state } => match state {
            IState::WriteDefault { ref config } => {
                assert_eq!(config, "/h/GLMY/config.json");
                match initialize_step(state, false) {
                    IFlow::Done { response } => assert_eq!(response, CONFIG_ERR),
                    _ => panic!("expected a response"),
                }
            },
            _ => panic!("expected the default write"),
        },
        _ => panic!("expected a pending write"),
    }
}

#[test]
fn unreadable_config_reports_the_config_error() {
    let env = env_with(Some("/h"), None, false);
    let state = drive_initialize_to_config_check(&env);
    // The file exists but cannot be read.
    match initialize_step(state, true) {
        IFlow::Pending { state } => match initialize_step_read(state, None) {
            IFlow::Done { response } => assert_eq!(response, CONFIG_ERR),
            _ => panic!("expected a response"),
        },
        _ => panic!("expected a pending read"),
    }
}

#[test]
fn reparse_normalises_the_config_text() {
    let env = env_with(Some("/h"), None, false);
    let state = drive_initialize_to_config_check(&env);
    match initialize_step(state, true) {
        IFlow::Pending { state } => {
            let text = "{ \"b\" : [ 1 , 2 ] , \"a\" : null }".to_string();
            match initialize_step_read(state, Some(text)) {
                IFlow::Done { response } => assert_eq!(
                    response,
                    "{\"result\":{\"a\":null,\"b\":[1,2]},\"status\":\"success\"}",
                ),
                _ => panic!("expected a response"),
            }
        },
        _ => panic!("expected a pending read"),
    }
}

#[test]
fn the_default_text_is_already_canonical() {
    // Reading a config file holding exactly the default text returns it
    // unchanged: the default literal is its own canonical rendering.
    let env = env_with(Some("/h"), None, false);
    let state = drive_initialize_to_config_check(&env);
    match initialize_step(state, true) {
        IFlow::Pending { state } => match initialize_step_read(state, Some(DEFAULT_TEXT.to_string())) {
            IFlow::Done { response } => assert_eq!(
                response,
                format!("{{\"result\":{},\"status\":\"success\"}}", DEFAULT_TEXT),
            ),
            _ => panic!("expected a response"),
        },
        _ => panic!("expected a pending read"),
    }
}

fn drive_read_dir_to_listing(subpath: &str, env: &Env) -> DState {
    let mut flow = read_dir(subpath, env);
    loop {
        match flow {
            DFlow::Pending { state } => match state {
                DState::Resolving { .. } => {
                    flow = read_dir_step(state, true);
                },
                DState::Listing { .. } => {
                    return state;
                },
            },
            DFlow::Done { .. } => panic!("finished too early"),
        }
    }
}

fn listing_target(state: &DState) -> String {
    match read_dir_query(state) {
        DQuery::ListDir { path } => path,
        _ => panic!("expected the listing question"),
    }
}

#[test]
fn empty_subpath_lists_the_home_itself() {
    let env = env_with(Some("/h"), None, false);
    let state = drive_read_dir_to_listing("", &env);
    assert_eq!(listing_target(&state), "/h/GLMY");
}

#[test]
fn root_subpath_lists_the_home_itself() {
    let env = env_with(Some("/h"), None, false);
    let state = drive_read_dir_to_listing("/", &env);
    assert_eq!(listing_target(&state), "/h/GLMY");
}

#[test]
fn other_subpath_lists_beneath_the_home() {
    let env = env_with(Some("/h"), None, false);
    let state = drive_read_dir_to_listing("notes", &env);
    assert_eq!(listing_target(&state), "/h/GLMY/notes");
}

#[test]
fn read_dir_without_a_home_reports_the_home_error() {
    let env = env_with(None, None, false);
    match read_dir("", &env) {
        DFlow::Done { response } => assert_eq!(response, HOME_ERR),
        _ => panic!("expected a response"),
    }
}

#[test]
fn failed_enumeration_reports_message_and_path() {
    let env = env_with(Some("/h"), None, false);
    let state = drive_read_dir_to_listing("gone", &env);
    match read_dir_step_list(state, Err("No such file or directory (os error 2)".to_string())) {
        DFlow::Done { response } => assert_eq!(
            response,
            "{\"details\":{\"path\":\"/h/GLMY/gone\"},\"message\":\"No such file or directory (os error 2)\",\"status\":\"error\"}",
        ),
        _ => panic!("expected a response"),
    }
}

#[test]
fn listing_counts_every_entry_but_lists_only_usable_ones() {
    let env = env_with(Some("/h"), None, false);
    let state = drive_read_dir_to_listing("", &env);
    let raw = vec![
        Some("/h/GLMY/a".to_string()),
        None,
        Some("/h/GLMY/b".to_string()),
    ];
    match read_dir_step_list(state, Ok(raw)) {
        DFlow::Done { response } => assert_eq!(
            response,
            "{\"result\":{\"count\":3,\"entries\":[\"/h/GLMY/a\",\"/h/GLMY/b\"],\"total\":2},\"status\":\"success\"}",
        ),
        _ => panic!("expected a response"),
    }
}

#[test]
fn empty_listing_has_zero_counts() {
    let env = env_with(Some("/h"), None, false);
    let state = drive_read_dir_to_listing("", &env);
    match read_dir_step_list(state, Ok(vec![])) {
        DFlow::Done { response } => assert_eq!(
            response,
            "{\"result\":{\"count\":0,\"entries\":[],\"total\":0},\"status\":\"success\"}",
        ),
        _ => panic!("expected a response"),
    }
}

#[test]
fn listing_escapes_entry_paths() {
    let env = env_with(Some("/h"), None, false);
    let state = drive_read_dir_to_listing("", &env);
    let raw = vec![Some("a\"b\\c\nd\te\u{1}f".to_string())];
    match read_dir_step_list(state, Ok(raw)) {
        DFlow::Done { response } => assert_eq!(
            response,
            "{\"result\":{\"count\":1,\"entries\":[\"a\\\"b\\\\c\\nd\\te\\u0001f\"],\"total\":1},\"status\":\"success\"}",
        ),
        _ => panic!("expected a response"),
    }
}

#[test]
fn listing_renders_larger_counts_in_decimal() {
    let env = env_with(Some("/h"), None, false);
    let state = drive_read_dir_to_listing("", &env);
    let raw: Vec<Option<String>> = (0..12).map(|_| None).collect();
    match read_dir_step_list(state, Ok(raw)) {
        DFlow::Done { response } => assert_eq!(
            response,
            "{\"result\":{\"count\":12,\"entries\":[],\"total\":0},\"status\":\"success\"}",
        ),
        _ => panic!("expected a response"),
    }
}

#[test]
fn resolver_machine_asks_the_expected_questions() {
    let env = env_with(Some("/home/u"), None, true);
    let flow = home_dir("", &env);
    let state = match flow {
        RFlow::Pending { state } => state,
        _ => panic!("expected a question"),
    };
    match resolve_query(&state) {
        RQuery::Exists { ref path } => assert_eq!(path, "/home/u"),
        _ => panic!("expected an existence question"),
    }
    let state = match resolve_step(state, true) {
        RFlow::Pending { state } => state,
        _ => panic!("expected a question"),
    };
    match resolve_query(&state) {
        RQuery::Exists { ref path } => assert_eq!(path, "/home/u/Documents"),
        _ => panic!("expected an existence question"),
    }
    let state = match resolve_step(state, false) {
        RFlow::Pending { state } => state,
        _ => panic!("expected a question"),
    };
    match resolve_query(&state) {
        RQuery::Exists { ref path } => assert_eq!(path, "/home/u/GLMY"),
        _ => panic!("expected an existence question"),
    }
    let state = match resolve_step(state, false) {
        RFlow::Pending { state } => state,
        _ => panic!("expected a question"),
    };
    match resolve_query(&state) {
        RQuery::CreateDir { ref path } => assert_eq!(path, "/home/u/GLMY"),
        _ => panic!("expected a creation"),
    }
    match resolve_step(state, false) {
        RFlow::Done { home } => assert_eq!(home, None),
        _ => panic!("expected failure after a failed creation"),
    }
}

#[test]
fn fixed_texts_match_their_builders() {
    assert_eq!(home_error_response(), HOME_ERR);
    assert_eq!(config_error_response(), CONFIG_ERR);
    assert_eq!(default_config(), DEFAULT_TEXT);
}

#[test]
fn decimal_rendering_is_exact() {
    assert_eq!(dec_of(0), "0");
    assert_eq!(dec_of(7), "7");
    assert_eq!(dec_of(10), "10");
    assert_eq!(dec_of(1234567890), "1234567890");
    assert_eq!(dec_of(u64::MAX), "18446744073709551615");
}

#[test]
fn memfs_reads_back_the_latest_write() {
    let mut fs = MemFs::new();
    assert_eq!(fs.read_file("/f"), None);
    assert!(!fs.exists_path("/f"));
    fs.write_file("/f", "one".to_string());
    assert_eq!(fs.read_file("/f"), Some("one".to_string()));
    fs.write_file("/f", "two".to_string());
    assert_eq!(fs.read_file("/f"), Some("two".to_string()));
    assert!(fs.exists_path("/f"));
    fs.create_dir("/d");
    assert!(fs.exists_path("/d"));
    assert_eq!(fs.read_file("/d"), None);
}
