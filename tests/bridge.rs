use git_server::admin::{
    branches_command, collect_repos, commit_count_command, creation_gate, deletion_gate,
    init_command, inspection_gate, last_commit_command, EntryFacts,
};
use git_server::detail::{count_from_output, count_lines, created_at_text, day_or_placeholder, parse_i32, repo_detail, trim_text, trimmed_text};
use git_server::exchange::{Action, Event, Exchange, Phase};
use git_server::locator::{is_safe_name, marker_path, AppState};
use git_server::pktline::encode_text_frame;
use git_server::reply::{advertisement_body, created_reply, deleted_reply, failure, Reply};
use git_server::service::{
    advertisement_content_type, is_receive_service, resolve_service, result_content_type,
    strip_git_prefix, ErrorKind, Mode,
};

fn state() -> AppState {
    AppState { git_root: "/srv/git".to_string() }
}

fn plain(a: Action) -> (u16, String) {
    match a {
        Action::Respond(Reply::Plain { status, message }) => (status, message),
        _ => panic!("expected a plain reply"),
    }
}

fn content(a: Action) -> (String, Vec<u8>) {
    match a {
        Action::Respond(Reply::Content { content_type, body }) => (content_type, body),
        _ => panic!("expected content"),
    }
}

fn args(a: &Action) -> Vec<String> {
    match a {
        Action::Run(c) | Action::Spawn(c) | Action::Refresh(c) => c.args.clone(),
        _ => panic!("expected a command"),
    }
}

#[test]
fn frame_header_of_service_line() {
    let f = encode_text_frame("# service=git-upload-pack\n").unwrap();
    assert_eq!(&f[..4], b"001e");
    assert_eq!(f, b"001e# service=git-upload-pack\n".to_vec());
}

#[test]
fn frame_round_trip_with_flush() {
    let mut f = encode_text_frame("hello").unwrap();
    f.extend_from_slice(b"0000");
    let len = usize::from_str_radix(std::str::from_utf8(&f[..4]).unwrap(), 16).unwrap();
    assert_eq!(len, 9);
    assert_eq!(&f[4..len], b"hello");
    assert_eq!(&f[len..], b"0000");
}

#[test]
fn frame_of_empty_payload() {
    assert_eq!(encode_text_frame("").unwrap(), b"0004".to_vec());
}

#[test]
fn frame_counts_bytes_not_chars() {
    let f = encode_text_frame("é").unwrap();
    assert_eq!(f, "0006é".as_bytes().to_vec());
}

#[test]
fn frame_length_limit() {
    let max = "a".repeat(65519);
    let f = encode_text_frame(&max).unwrap();
    assert_eq!(&f[..4], b"fff3");
    assert_eq!(f.len(), 65523);
    assert!(encode_text_frame(&"a".repeat(65520)).is_none());
}

#[test]
fn strips_git_prefix() {
    assert_eq!(strip_git_prefix("git-upload-pack"), "upload-pack");
    assert_eq!(strip_git_prefix("receive-pack"), "receive-pack");
    assert_eq!(strip_git_prefix("git-"), "");
    assert_eq!(strip_git_prefix("gi"), "gi");
}

#[test]
fn resolves_known_services() {
    let r = resolve_service("git-upload-pack", Mode::Advertisement).unwrap();
    assert_eq!(r.requested, "git-upload-pack");
    assert_eq!(r.command, "upload-pack");
    assert_eq!(r.mode, Mode::Advertisement);
    let r = resolve_service("receive-pack", Mode::Rpc).unwrap();
    assert_eq!(r.command, "receive-pack");
    assert!(is_receive_service("receive-pack"));
    assert!(!is_receive_service("upload-pack"));
}

#[test]
fn refuses_empty_or_unknown_service() {
    for s in ["", "git-", "git-config", "upload", "git-upload-pack "] {
        assert!(matches!(resolve_service(s, Mode::Rpc), Err(ErrorKind::Client)));
    }
}

#[test]
fn error_kinds_map_to_statuses() {
    assert_eq!(ErrorKind::Client.status(), 400);
    assert_eq!(ErrorKind::NotFound.status(), 404);
    assert_eq!(ErrorKind::Conflict.status(), 409);
    assert_eq!(ErrorKind::Subprocess.status(), 500);
    match failure(ErrorKind::NotFound) {
        Reply::Plain { status, message } => {
            assert_eq!(status, 404);
            assert_eq!(message, "Repository not found");
        }
        _ => panic!("expected a plain reply"),
    }
}

#[test]
fn content_types_echo_the_service() {
    assert_eq!(
        advertisement_content_type("git-upload-pack"),
        "application/x-git-upload-pack-advertisement"
    );
    assert_eq!(
        advertisement_content_type("upload-pack"),
        "application/x-upload-pack-advertisement"
    );
    assert_eq!(result_content_type("receive-pack"), "application/x-git-receive-pack-result");
}

#[test]
fn repository_names() {
    let s = state();
    assert_eq!(s.repo_path("demo").unwrap(), "/srv/git/demo");
    assert_eq!(s.repo_path("demo.git").unwrap(), "/srv/git/demo.git");
    for bad in ["", ".", "..", "a/b", "..\\x", "a\0b"] {
        assert!(s.repo_path(bad).is_none());
        assert!(!is_safe_name(bad));
    }
    assert!(is_safe_name("..."));
    assert_eq!(marker_path("/srv/git/demo"), "/srv/git/demo/HEAD");
}

#[test]
fn advertisement_body_frames_the_service_line() {
    let body = advertisement_body("git-upload-pack", b"0041abc0000").unwrap();
    assert_eq!(body, b"001e# service=git-upload-pack\n00000041abc0000".to_vec());
}

#[test]
fn test_info_refs() {
    let mut ex = Exchange::new(&state(), "test-repo", "git-upload-pack", Mode::Advertisement).unwrap();
    assert_eq!(ex.probe_path(), "/srv/git/test-repo/HEAD");
    let run = ex.step(Event::Located(true));
    assert_eq!(
        args(&run),
        vec!["upload-pack", "--stateless-rpc", "--advertise-refs", "/srv/git/test-repo"]
    );
    assert!(matches!(run, Action::Run(_)));
    let (ct, body) = content(ex.step(Event::Exited { success: true, output: b"0000".to_vec() }));
    assert_eq!(ct, "application/x-git-upload-pack-advertisement");
    assert_eq!(body, b"001e# service=git-upload-pack\n00000000".to_vec());
    assert_eq!(ex.phase, Phase::Done);
}

#[test]
fn advertisement_of_missing_repository_is_not_found() {
    let mut ex = Exchange::new(&state(), "absent", "git-upload-pack", Mode::Advertisement).unwrap();
    let (status, message) = plain(ex.step(Event::Located(false)));
    assert_eq!(status, 404);
    assert!(!message.contains("service="));
}

#[test]
fn advertisement_failure_hides_diagnostics() {
    let mut ex = Exchange::new(&state(), "demo", "git-upload-pack", Mode::Advertisement).unwrap();
    ex.step(Event::Located(true));
    let (status, message) = plain(ex.step(Event::Exited { success: false, output: Vec::new() }));
    assert_eq!(status, 500);
    assert_eq!(message, "Internal Server Error");
}

#[test]
fn request_with_bad_service_or_name_is_client_error() {
    match Exchange::new(&state(), "demo", "", Mode::Advertisement) {
        Err(Reply::Plain { status, .. }) => assert_eq!(status, 400),
        _ => panic!("expected a client error"),
    }
    match Exchange::new(&state(), "../etc", "git-upload-pack", Mode::Rpc) {
        Err(Reply::Plain { status, .. }) => assert_eq!(status, 400),
        _ => panic!("expected a client error"),
    }
}

#[test]
fn rpc_of_missing_repository_spawns_nothing() {
    let mut ex = Exchange::new(&state(), "absent", "git-upload-pack", Mode::Rpc).unwrap();
    let a = ex.step(Event::Located(false));
    assert!(matches!(a, Action::Respond(_)));
    assert_eq!(plain(a).0, 404);
    assert_eq!(ex.phase, Phase::Done);
}

#[test]
fn upload_rpc_runs_in_order_without_refresh() {
    let mut ex = Exchange::new(&state(), "demo", "git-upload-pack", Mode::Rpc).unwrap();
    let spawn = ex.step(Event::Located(true));
    assert!(matches!(spawn, Action::Spawn(_)));
    assert_eq!(args(&spawn), vec!["upload-pack", "--stateless-rpc", "/srv/git/demo"]);
    assert!(matches!(ex.step(Event::Spawned(true)), Action::FeedAndClose));
    assert!(matches!(ex.step(Event::InputClosed(true)), Action::Drain));
    let out = vec![0u8, 1, 2, 255, b'0'];
    let (ct, body) = content(ex.step(Event::Exited { success: true, output: out.clone() }));
    assert_eq!(ct, "application/x-git-upload-pack-result");
    assert_eq!(body, out);
}

#[test]
fn receive_rpc_refreshes_once_and_keeps_its_reply() {
    for refreshed in [true, false] {
        let mut ex = Exchange::new(&state(), "demo", "git-receive-pack", Mode::Rpc).unwrap();
        ex.step(Event::Located(true));
        ex.step(Event::Spawned(true));
        ex.step(Event::InputClosed(true));
        let refresh = ex.step(Event::Exited { success: true, output: b"ok".to_vec() });
        assert!(matches!(refresh, Action::Refresh(_)));
        assert_eq!(args(&refresh), vec!["--git-dir", "/srv/git/demo", "update-server-info"]);
        let (ct, body) = content(ex.step(Event::Refreshed(refreshed)));
        assert_eq!(ct, "application/x-git-receive-pack-result");
        assert_eq!(body, b"ok".to_vec());
        assert_eq!(plain(ex.step(Event::Refreshed(true))).0, 500);
    }
}

#[test]
fn failed_receive_rpc_does_not_refresh() {
    let mut ex = Exchange::new(&state(), "demo", "receive-pack", Mode::Rpc).unwrap();
    ex.step(Event::Located(true));
    ex.step(Event::Spawned(true));
    ex.step(Event::InputClosed(true));
    assert_eq!(plain(ex.step(Event::Exited { success: false, output: Vec::new() })).0, 500);
}

#[test]
fn rpc_subprocess_failures_are_internal_errors() {
    let mut ex = Exchange::new(&state(), "demo", "upload-pack", Mode::Rpc).unwrap();
    ex.step(Event::Located(true));
    assert_eq!(plain(ex.step(Event::Spawned(false))).0, 500);

    let mut ex = Exchange::new(&state(), "demo", "upload-pack", Mode::Rpc).unwrap();
    ex.step(Event::Located(true));
    ex.step(Event::Spawned(true));
    assert_eq!(plain(ex.step(Event::InputClosed(false))).0, 500);

    let mut ex = Exchange::new(&state(), "demo", "upload-pack", Mode::Rpc).unwrap();
    ex.step(Event::Located(true));
    ex.step(Event::Spawned(true));
    ex.step(Event::InputClosed(true));
    assert_eq!(plain(ex.step(Event::Failed)).0, 500);
}

#[test]
fn unexpected_event_ends_the_request() {
    let mut ex = Exchange::new(&state(), "demo", "upload-pack", Mode::Rpc).unwrap();
    ex.step(Event::Located(true));
    let (status, _) = plain(ex.step(Event::InputClosed(true)));
    assert_eq!(status, 500);
    assert_eq!(ex.phase, Phase::Done);
}

#[test]
fn line_counts() {
    assert_eq!(count_lines(b""), 0);
    assert_eq!(count_lines(b"* main\n  dev\n"), 2);
    assert_eq!(count_lines(b"* main\n  dev"), 2);
    assert_eq!(count_lines(b"\n\n"), 2);
}

#[test]
fn printed_counts() {
    assert_eq!(count_from_output(b"42\n"), 42);
    assert_eq!(count_from_output(b"  \t7 \r\n"), 7);
    assert_eq!(count_from_output(b""), 0);
    assert_eq!(count_from_output(b"abc"), 0);
    assert_eq!(count_from_output(b"2147483647"), 2147483647);
    assert_eq!(count_from_output(b"2147483648"), 0);
    assert_eq!(parse_i32("-2147483648"), Some(-2147483648));
    assert_eq!(parse_i32("+12"), Some(12));
    assert_eq!(parse_i32("-"), None);
    assert_eq!(parse_i32("1 2"), None);
    assert_eq!(parse_i32("\u{661}"), None);
}

#[test]
fn counts_trim_unicode_whitespace() {
    assert_eq!(count_from_output(&[0xc2, 0xa0, b'5']), 5);
    assert_eq!(count_from_output("\u{3000}12\u{2029}".as_bytes()), 12);
    assert_eq!(trim_text("\u{a0} a b\u{85}"), "a b");
    assert_eq!(trim_text(" \t"), "");
}

#[test]
fn creation_days() {
    assert_eq!(created_at_text(Some(0)), "1970-01-01");
    assert_eq!(created_at_text(Some(1_700_000_000)), "2023-11-14");
    assert_eq!(created_at_text(None), "未知");
    assert_eq!(created_at_text(Some(u64::MAX)), "未知");
    assert_eq!(day_or_placeholder(Some("2020-02-29".to_string())), "2020-02-29");
    assert_eq!(day_or_placeholder(None), "未知");
}

#[test]
fn trimmed_output_text() {
    assert_eq!(trimmed_text(Some(b"  2024-01-02\n")), "2024-01-02");
    assert_eq!(trimmed_text(Some(b"a\xffb")), "a\u{fffd}b");
    assert_eq!(trimmed_text(None), "未知");
    assert_eq!(trimmed_text(Some("\u{a0}2024-01-02\u{a0}".as_bytes())), "2024-01-02");
}

#[test]
fn detail_from_outputs() {
    let d = repo_detail(
        "demo".to_string(),
        Some(0),
        Some(b"2024-05-06\n".to_vec()),
        Some(b"* main\n  topic\n".to_vec()),
        Some(b"17\n".to_vec()),
    );
    assert_eq!(d.name, "demo");
    assert_eq!(d.created_at, "1970-01-01");
    assert_eq!(d.last_commit, "2024-05-06");
    assert_eq!(d.branch_count, 2);
    assert_eq!(d.commit_count, 17);
    let d = repo_detail("x".to_string(), None, None, None, None);
    assert_eq!(d.last_commit, "未知");
    assert_eq!(d.branch_count, 0);
    assert_eq!(d.commit_count, 0);
}

#[test]
fn listing_keeps_repositories_in_order() {
    let entries = vec![
        EntryFacts { name: Some("b".to_string()), is_dir: true, has_marker: true },
        EntryFacts { name: Some("file".to_string()), is_dir: false, has_marker: false },
        EntryFacts { name: Some("plain".to_string()), is_dir: true, has_marker: false },
        EntryFacts { name: None, is_dir: true, has_marker: true },
        EntryFacts { name: Some("a".to_string()), is_dir: true, has_marker: true },
    ];
    let names: Vec<String> = collect_repos(entries).into_iter().map(|r| r.name).collect();
    assert_eq!(names, vec!["b", "a"]);
    assert!(collect_repos(Vec::new()).is_empty());
}

#[test]
fn creation_and_deletion() {
    let s = state();
    let p = s.creation_target(Some("new")).ok().unwrap();
    assert_eq!(p, "/srv/git/new");
    match s.creation_target(None) {
        Err(Reply::Plain { status, message }) => {
            assert_eq!(status, 400);
            assert_eq!(message, "Repository name is required");
        }
        _ => panic!("expected a client error"),
    }
    match s.creation_target(Some("a/b")) {
        Err(Reply::Plain { status, message }) => {
            assert_eq!(status, 400);
            assert_eq!(message, "Invalid request");
        }
        _ => panic!("expected a client error"),
    }
    assert_eq!(init_command(&p).args, vec!["init", "--bare", "/srv/git/new"]);
    assert!(matches!(created_reply(true), Reply::Plain { status: 201, .. }));
    match created_reply(false) {
        Reply::Plain { status, message } => {
            assert_eq!(status, 500);
            assert_eq!(message, "Failed to create repository");
        }
        _ => panic!("expected a plain reply"),
    }
    assert!(matches!(deleted_reply(true), Reply::Plain { status: 200, .. }));
    match deleted_reply(false) {
        Reply::Plain { status, message } => {
            assert_eq!(status, 500);
            assert_eq!(message, "Failed to delete repository");
        }
        _ => panic!("expected a plain reply"),
    }
    match creation_gate(true) {
        Err(Reply::Plain { status, message }) => {
            assert_eq!(status, 409);
            assert_eq!(message, "Repository already exists");
        }
        _ => panic!("expected a conflict"),
    }
    assert!(creation_gate(false).is_ok());
    match deletion_gate(false) {
        Err(Reply::Plain { status, message }) => {
            assert_eq!(status, 404);
            assert_eq!(message, "Repository not found");
        }
        _ => panic!("expected not found"),
    }
    assert!(deletion_gate(true).is_ok());
    match inspection_gate(false, false) {
        Err(Reply::Plain { status, message }) => {
            assert_eq!(status, 404);
            assert_eq!(message, "Repository not found");
        }
        _ => panic!("expected not found"),
    }
    match inspection_gate(true, false) {
        Err(Reply::Plain { status, message }) => {
            assert_eq!(status, 400);
            assert_eq!(message, "Not a valid Git repository");
        }
        _ => panic!("expected a client error"),
    }
    assert!(inspection_gate(true, true).is_ok());
}

#[test]
fn inspection_commands() {
    let p = "/srv/git/demo".to_string();
    assert_eq!(
        last_commit_command(&p).args,
        vec!["--git-dir", "/srv/git/demo", "log", "-1", "--format=%cd", "--date=format:%Y-%m-%d"]
    );
    assert_eq!(branches_command(&p).args, vec!["--git-dir", "/srv/git/demo", "branch", "--list"]);
    assert_eq!(
        commit_count_command(&p).args,
        vec!["--git-dir", "/srv/git/demo", "rev-list", "--count", "--all"]
    );
}
