use forest_server::app_loop::{next_step, stop_after_delivery, LoopStep};
use forest_server::cli::{
    root_probe_path, root_tree_file, serve_command, serve_forester_args, watch_forester_args, Args,
    CliError, DEFAULT_PORT,
};
use forest_server::events::{Event, KeyCode, KeyPress, Outcome, TermEvent, NO_MODIFIERS};
use forest_server::forest::{
    forester_build_arg, new_tree_args, validate_dirs, BuildError, Forest, HomeTemplate, Tree,
    TreeTemplate, BROADCAST_REPLY,
};
use forest_server::home::Home;
use forest_server::reload::{
    heartbeat_step, keepalive_step, react_in_session, react_to_read, KeepAliveStep, react_to_frame, reply_text, Connect, Disconnect,
    FrameError, HeartbeatStep, Message, RelayReaction, Reload, ReloadServer, ReloaderSession, WsFrame, CLIENT_TIMEOUT_SECS,
    HEARTBEAT_INTERVAL_SECS, JOIN_NOTICE, LEAVE_NOTICE, MESSAGE_REPLY,
};
use forest_server::server::{
    bind_address, import_entry, is_template_file, leak_alloc, no_sse_support_script, ApiError, RELOAD_SCRIPT,
    SCRIPT_CONTENT_TYPE,
};
use forest_server::text::{decimal_string, str_contains, str_equal};
use forest_server::tui::{default_help_items, draw_help_item, handle_key, App, CurrentScreen, HelpItem, KeyKind};
use forest_server::watch::{
    build_output_text, check_event, dev_pathset, decide_action, dev_build_args, dev_build_outcome, dev_plan, forester_command,
    forester_command_for, is_tree_extension, is_watched_name, report_build, report_build_output,
    watchable_entries, ActionStep, DevOutcome, DevPlan, EventTag, SignalKind, WatchError, WatchEvent,
    BUILD_SUCCEEDED_NOTICE,
};

fn key(c: char) -> Event {
    Event::Crossterm(TermEvent::Key(KeyPress { code: KeyCode::Char(c), modifiers: NO_MODIFIERS }))
}

fn key_with(c: char, modifiers: u8) -> Event {
    Event::Crossterm(TermEvent::Key(KeyPress { code: KeyCode::Char(c), modifiers }))
}

fn strings(v: &[&str]) -> Vec<String> {
    v.iter().map(|s| s.to_string()).collect()
}

fn path_event(p: &str) -> WatchEvent {
    WatchEvent { tags: vec![EventTag::Path { path: p.to_string() }] }
}

// ---- text ----

#[test]
fn decimal_rendering_matches_std() {
    for n in [0u64, 7, 10, 99, 8080, 65535, u64::MAX] {
        assert_eq!(decimal_string(n), n.to_string());
    }
}

#[test]
fn decimal_roundtrips_through_parse() {
    for n in [0u64, 1, 42, 1000, 123456789] {
        assert_eq!(decimal_string(n).parse::<u64>().unwrap(), n);
    }
}

#[test]
fn substring_and_equality() {
    assert!(str_contains("my.git.dir", ".git"));
    assert!(!str_contains("gitlab", ".git"));
    assert!(str_contains("anything", ""));
    assert!(!str_contains("", "a"));
    assert!(str_equal("output", "output"));
    assert!(!str_equal("output", "outputs"));
    assert!(str_contains("ünïcode", "nï"));
}

// ---- home screen ----

#[test]
fn home_starts_empty_and_titles_on_start() {
    let mut home = Home::new();
    assert_eq!(home.title(), "");
    assert_eq!(home.status(), "");
    assert_eq!(home.selected(), None);
    assert!(home.start().is_ok());
    assert_eq!(home.title(), "Not logged in");
}

#[test]
fn home_j_moves_down() {
    let mut home = Home::new();
    assert_eq!(home.handle_event(&key('j')), Outcome::Handled);
    assert_eq!(home.selected(), Some(0));
    assert_eq!(home.handle_event(&key('j')), Outcome::Handled);
    assert_eq!(home.selected(), Some(1));
}

#[test]
fn home_k_keeps_selection() {
    let mut home = Home::new();
    assert_eq!(home.handle_event(&key('k')), Outcome::Handled);
    assert_eq!(home.selected(), Some(0));
    home.handle_event(&key('j'));
    home.handle_event(&key('j'));
    assert_eq!(home.selected(), Some(2));
    home.handle_event(&key('k'));
    assert_eq!(home.selected(), Some(2));
    home.handle_event(&key('k'));
    assert_eq!(home.selected(), Some(2));
}

#[test]
fn home_ignores_other_keys_and_events() {
    let mut home = Home::new();
    assert_eq!(home.handle_event(&key('x')), Outcome::Ignored);
    assert_eq!(home.handle_event(&key_with('j', 2)), Outcome::Ignored);
    assert_eq!(home.handle_event(&Event::Tick), Outcome::Ignored);
    assert_eq!(home.handle_event(&Event::Quit), Outcome::Ignored);
    assert_eq!(home.selected(), None);
    assert_eq!(home.handle_event(&Event::Crossterm(TermEvent::Other)), Outcome::Handled);
    assert_eq!(home.selected(), None);
}

// ---- main loop ----

#[test]
fn loop_stops_on_quit_close_and_exit_keys() {
    assert_eq!(next_step(&None), LoopStep::Stop);
    assert_eq!(next_step(&Some(Event::Quit)), LoopStep::Stop);
    assert_eq!(next_step(&Some(key('q'))), LoopStep::Stop);
    assert_eq!(next_step(&Some(key('?'))), LoopStep::Stop);
    assert_eq!(next_step(&Some(key_with('q', 2))), LoopStep::Stop);
    let esc = Event::Crossterm(TermEvent::Key(KeyPress { code: KeyCode::Esc, modifiers: 0 }));
    assert_eq!(next_step(&Some(esc)), LoopStep::Stop);
}

#[test]
fn loop_delivers_other_events() {
    assert_eq!(next_step(&Some(Event::Tick)), LoopStep::DeliverTick);
    assert_eq!(next_step(&Some(key('j'))), LoopStep::Deliver);
    assert_eq!(next_step(&Some(Event::Crossterm(TermEvent::Other))), LoopStep::Deliver);
    assert!(!stop_after_delivery(&key('j'), Outcome::Ignored));
    assert!(!stop_after_delivery(&key('j'), Outcome::Handled));
    assert!(stop_after_delivery(&key('q'), Outcome::Ignored));
    assert!(!stop_after_delivery(&key('q'), Outcome::Handled));
}

// ---- watcher ----

#[test]
fn watched_entries_skip_vcs_and_build_dirs() {
    let names = strings(&["trees", ".git", "my.gitignore", ".hg", "node_modules", "output", "assets", "theme", "themes", "forest.toml"]);
    assert_eq!(watchable_entries(&names), strings(&["trees", "themes", "forest.toml"]));
    assert!(is_watched_name("outputs"));
    assert!(!is_watched_name("x.hgrc"));
    assert_eq!(watchable_entries(&vec![]), Vec::<String>::new());
}

#[test]
fn watchable_entries_is_idempotent() {
    let names = strings(&["a", ".git", "b", "theme"]);
    let once = watchable_entries(&names);
    assert_eq!(watchable_entries(&once), once);
}

#[test]
fn filter_accepts_tree_files_only() {
    assert!(check_event(&vec![EventTag::Path { path: "trees/index.tree".into() }]));
    assert!(check_event(&vec![EventTag::Other, EventTag::Path { path: "a/b.tree".into() }]));
    assert!(!check_event(&vec![EventTag::Path { path: "trees/index.tree.bak".into() }]));
    assert!(!check_event(&vec![EventTag::Path { path: "trees/.tree".into() }]));
    assert!(!check_event(&vec![EventTag::Path { path: "tree".into() }]));
    assert!(!check_event(&vec![EventTag::Signal(SignalKind::Interrupt)]));
    assert!(!check_event(&vec![]));
    assert!(is_tree_extension(&Some("tree".to_string())));
    assert!(!is_tree_extension(&Some("trees".to_string())));
    assert!(!is_tree_extension(&None));
}

#[test]
fn action_decisions() {
    let interrupt = WatchEvent { tags: vec![EventTag::Signal(SignalKind::Interrupt)] };
    let other_signal = WatchEvent { tags: vec![EventTag::Signal(SignalKind::Other)] };
    let untagged = WatchEvent { tags: vec![] };
    assert_eq!(decide_action(&vec![path_event("a.tree"), interrupt.clone()]), ActionStep::Exit);
    assert_eq!(decide_action(&vec![path_event("a.tree")]), ActionStep::Rebuild);
    assert_eq!(decide_action(&vec![untagged.clone()]), ActionStep::Rebuild);
    assert_eq!(decide_action(&vec![other_signal.clone()]), ActionStep::Idle);
    assert_eq!(decide_action(&vec![]), ActionStep::Idle);
    assert_eq!(dev_plan(&vec![other_signal, interrupt]), DevPlan { exit: true, builds: 2 });
    assert_eq!(dev_plan(&vec![untagged]), DevPlan { exit: false, builds: 1 });
    assert_eq!(dev_plan(&vec![]), DevPlan { exit: false, builds: 0 });
}

#[test]
fn build_reports() {
    let ok = report_build(true, "ignored".to_string());
    assert!(ok.succeeded);
    assert_eq!(ok.message, "reload");
    let failed = report_build(false, "error at line 3".to_string());
    assert!(!failed.succeeded);
    assert_eq!(failed.message, "error at line 3");
    let r = report_build_output(false, "résumé".as_bytes().to_vec()).unwrap();
    assert_eq!(r.message, "résumé");
    let r = report_build_output(true, b"done".to_vec()).unwrap();
    assert_eq!(r.message, "reload");
    assert_eq!(report_build_output(true, vec![0xff, 0xfe]).unwrap_err(), WatchError::OutputNotUtf8);
}

#[test]
fn forester_command_lines() {
    let c = forester_command_for("build --dev --root index trees").unwrap();
    assert_eq!(c.program, "forester");
    assert_eq!(c.args, strings(&["build", "--dev", "--root", "index", "trees"]));
    let c = forester_command_for("build 'my trees'").unwrap();
    assert_eq!(c.args, strings(&["build", "my trees"]));
    assert_eq!(forester_command_for("build \"open").unwrap_err(), WatchError::UnparsableArguments);
    assert_eq!(forester_command_for("").unwrap().args, Vec::<String>::new());
    assert_eq!(forester_command(None).unwrap_err(), WatchError::UnparsableArguments);
    assert_eq!(forester_command(Some(strings(&["x"]))).unwrap().args, strings(&["x"]));
}

#[test]
fn stand_alone_build_outcomes() {
    assert!(matches!(dev_build_outcome(true, vec![0xff]), Ok(DevOutcome::Broadcast(m)) if m == "Build Succeeded;"));
    assert!(matches!(dev_build_outcome(false, b"bad tree".to_vec()), Ok(DevOutcome::ReportFailure(t)) if t == "bad tree"));
    assert_eq!(dev_build_outcome(false, vec![0xc0, 0x80]).err(), Some(WatchError::OutputNotUtf8));
    assert_eq!(build_output_text("ok ✓".as_bytes().to_vec()).unwrap(), "ok ✓");
    assert_eq!(build_output_text(vec![0xed, 0xa0, 0x80]).unwrap_err(), WatchError::OutputNotUtf8);
}

#[test]
fn stand_alone_build_arguments() {
    assert_eq!(dev_build_args("trees"), strings(&["build", "--dev", "--root", "index", "trees"]));
    assert_eq!(BUILD_SUCCEEDED_NOTICE, "Build Succeeded;");
}

// ---- command line ----

#[test]
fn default_args() {
    let a = Args::default();
    assert_eq!(a.port, 8080);
    assert_eq!(DEFAULT_PORT, 8080);
    assert_eq!(a.dir, "./trees");
    assert_eq!(a.root, "index");
    assert!(!a.verbose);
}

#[test]
fn root_paths() {
    assert_eq!(root_probe_path("./trees", "index"), "./trees/index");
    assert_eq!(root_tree_file("trees", "index"), "trees/index.tree");
}

#[test]
fn subcommand_arguments() {
    assert_eq!(watch_forester_args(None), Err(CliError::MissingForesterArgs));
    assert_eq!(watch_forester_args(Some("build x".into())).unwrap(), "build x");
    assert_eq!(serve_forester_args(None), "build");
    assert_eq!(serve_forester_args(Some("build --dev".into())), "build --dev");
    assert_eq!(serve_command(None).unwrap().args, strings(&["build"]));
    assert_eq!(serve_command(Some("build --dev out".into())).unwrap().args, strings(&["build", "--dev", "out"]));
    assert_eq!(serve_command(Some("'oops".into())).unwrap_err(), CliError::UnparsableForesterArgs);
}

// ---- http server ----

#[test]
fn leaked_values_stay() {
    let r: &'static Vec<u8> = leak_alloc(vec![1, 2, 3]);
    assert_eq!(r, &vec![1, 2, 3]);
    let s: &'static String = leak_alloc("forest".to_string());
    assert_eq!(s, "forest");
}

#[test]
fn api_error_responses() {
    let (code, body) = ApiError::TemplateNotFound("index.html".into()).response_parts();
    assert_eq!(code, 404);
    assert_eq!(body, "template \"index.html\" does not exist");
    let (code, body) = ApiError::TemplateRender("tree.html".into()).response_parts();
    assert_eq!(code, 500);
    assert_eq!(body, "failed to render template \"tree.html\"");
}

#[test]
fn addresses_and_scripts() {
    assert_eq!(bind_address(8080), "0.0.0.0:8080");
    assert_eq!(bind_address(0), "0.0.0.0:0");
    assert_eq!(bind_address(65535), "0.0.0.0:65535");
    assert_eq!(no_sse_support_script(), "console.log(\"Hot-Reload feature not enabled\")");
    assert_eq!(SCRIPT_CONTENT_TYPE, "text/javascript");
    assert!(RELOAD_SCRIPT.contains("new EventSource(\"reload\")"));
    assert!(RELOAD_SCRIPT.contains("location.reload();"));
}

#[test]
fn template_files() {
    assert!(is_template_file("templates/index.html", true));
    assert!(!is_template_file("templates/index.html", false));
    assert!(!is_template_file("templates/index.htm", true));
    assert!(!is_template_file("templates/html", true));
}

// ---- live reload ----

#[test]
fn sessions_keep_only_those_that_answered() {
    let mut s: Reload<u32> = Reload::new();
    s.insert(1);
    s.insert(2);
    s.insert(3);
    assert_eq!(s.len(), 3);
    let taken = s.take_all();
    assert_eq!(taken, vec![1, 2, 3]);
    assert_eq!(s.len(), 0);
    s.readmit(Some(3));
    s.readmit(None);
    s.readmit(Some(1));
    assert_eq!(s.take_all(), vec![3, 1]);
    s.insert(9);
    let sent = s.take_all();
    assert_eq!(sent, vec![9]);
    s.readmit_all(vec![None]);
    assert_eq!(s.len(), 0);
    s.insert(1);
    s.readmit_all(vec![Some(4), None, Some(2)]);
    assert_eq!(s.take_all(), vec![1, 4, 2]);
}

#[test]
fn relay_reactions() {
    assert!(matches!(react_to_frame(WsFrame::Ping(vec![7])), RelayReaction::Pong(b) if b == vec![7]));
    assert!(matches!(react_to_frame(WsFrame::Text("hi".into())), RelayReaction::Relay(s) if s == "hi"));
    assert!(matches!(react_to_frame(WsFrame::Close), RelayReaction::Close { with_reason: true }));
    assert!(matches!(react_to_frame(WsFrame::Continuation), RelayReaction::Close { with_reason: false }));
    assert!(matches!(react_to_frame(WsFrame::Pong), RelayReaction::MarkAlive));
    assert!(matches!(react_to_frame(WsFrame::Binary), RelayReaction::Nothing));
    assert!(matches!(react_to_frame(WsFrame::Nop), RelayReaction::Nothing));
}

#[test]
fn heartbeat_timeout() {
    assert_eq!(HEARTBEAT_INTERVAL_SECS, 5);
    assert_eq!(CLIENT_TIMEOUT_SECS, 10);
    let s = 1_000_000_000u64;
    assert_eq!(heartbeat_step(0, 0), HeartbeatStep::Ping);
    assert_eq!(heartbeat_step(5 * s, 15 * s), HeartbeatStep::Ping);
    assert_eq!(heartbeat_step(5 * s, 15 * s + 1), HeartbeatStep::Disconnect);
    assert_eq!(heartbeat_step(0, 11 * s), HeartbeatStep::Disconnect);
    assert_eq!(heartbeat_step(20 * s, 3 * s), HeartbeatStep::Ping);
    assert_eq!(heartbeat_step(0, u64::MAX), HeartbeatStep::Disconnect);
}

#[test]
fn session_replies_and_reactions() {
    assert_eq!(reply_text(Message::Reload), "reload");
    assert_eq!(reply_text(Message::Msg("hello".into())), "hello");
    let r = react_in_session(Err(FrameError::Protocol));
    assert!(r.stop && !r.refresh_heartbeat && !r.close);
    let r = react_in_session(Ok(WsFrame::Ping(vec![1, 2])));
    assert!(r.refresh_heartbeat && r.pong == Some(vec![1, 2]) && !r.stop);
    let r = react_in_session(Ok(WsFrame::Text(" hi ".into())));
    assert!(r.refresh_heartbeat && r.pong.is_none() && !r.stop);
    let r = react_in_session(Ok(WsFrame::Pong));
    assert!(r.refresh_heartbeat && !r.stop);
    let r = react_in_session(Ok(WsFrame::Binary));
    assert!(r.unexpected_binary && !r.stop);
    let r = react_in_session(Ok(WsFrame::Close));
    assert!(r.close && r.stop);
    let r = react_in_session(Ok(WsFrame::Continuation));
    assert!(!r.close && r.stop);
    let r = react_in_session(Ok(WsFrame::Nop));
    assert!(!r.close && !r.stop && !r.refresh_heartbeat && !r.unexpected_binary);
}

#[test]
fn session_server_registers_under_returned_id() {
    let mut server: ReloadServer<&str> = ReloadServer::new();
    assert!(server.sessions().is_empty());
    let a = server.handle_connect(Connect { addr: "a" });
    assert_eq!(server.sessions().get(&a), Some(&"a"));
    let b = server.handle_connect(Connect { addr: "b" });
    assert_eq!(server.sessions().get(&b), Some(&"b"));
    if a != b {
        assert_eq!(server.sessions().len(), 2);
        assert_eq!(server.sessions().get(&a), Some(&"a"));
    }
    let before = server.sessions().len();
    server.handle_disconnect(Disconnect { id: a });
    assert_eq!(server.sessions().len(), before - 1);
    assert_eq!(server.sessions().get(&a), None);
    if a != b {
        assert_eq!(server.sessions().get(&b), Some(&"b"));
    }
    server.handle_disconnect(Disconnect { id: a });
    assert_eq!(server.sessions().len(), before - 1);
    assert_eq!(JOIN_NOTICE, "main");
    assert_eq!(LEAVE_NOTICE, "Someone disconnected.");
    assert_eq!(MESSAGE_REPLY, "message");
}

// ---- terminal front end ----

#[test]
fn front_end_state() {
    let app = App::new(8080, "trees/index.tree".into(), "trees".into());
    assert_eq!(app.port(), 8080);
    assert_eq!(app.tree_dir(), "trees");
    assert_eq!(app.status_line(), "Server running at localhost:8080");
    let _ = CurrentScreen::Init;
}

#[test]
fn front_end_keys() {
    let s = handle_key(0, KeyCode::Char('j'), KeyKind::Press);
    assert_eq!((s.counter, s.quit), (1, false));
    let s = handle_key(s.counter, KeyCode::Char('k'), KeyKind::Press);
    assert_eq!((s.counter, s.quit), (0, false));
    let s = handle_key(0, KeyCode::Char('k'), KeyKind::Press);
    assert_eq!(s.counter, -1);
    assert!(handle_key(5, KeyCode::Char('q'), KeyKind::Press).quit);
    assert!(handle_key(5, KeyCode::Char('n'), KeyKind::Press).quit);
    assert!(!handle_key(5, KeyCode::Char('q'), KeyKind::Release).quit);
    assert_eq!(handle_key(5, KeyCode::Char('j'), KeyKind::Repeat).counter, 5);
    assert!(!handle_key(5, KeyCode::Esc, KeyKind::Press).quit);
}

#[test]
fn help_items() {
    let items = default_help_items();
    let texts: Vec<String> = items.iter().map(|i| i.entry_text()).collect();
    assert_eq!(texts, strings(&["q to quit", "n to create a new tree", "h for help"]));
    let item = HelpItem::new('x', "exit".into());
    assert_eq!(draw_help_item(&item), "x");
    assert_eq!(item.key_text(), "x");
    assert_eq!(item.render_parts(), ("x".to_string(), "to exit".to_string()));
    assert_eq!(HelpItem::new('é', "e".into()).key_text(), "é");
}

#[test]
fn tree_directories() {
    let found = strings(&["forests/a", "forests/b"]);
    assert_eq!(validate_dirs("forests/*", true, found.clone()).ok(), Some(found));
    assert_eq!(validate_dirs("trees", false, vec![]).err(), Some(BuildError::DefaultNotPresent));
    assert_eq!(validate_dirs("forests/*", false, vec![]).err(), Some(BuildError::NoGlobsMatched));
}

#[test]
fn forester_arguments() {
    assert_eq!(forester_build_arg("trees", "index"), "build --dev --root index trees");
    assert_eq!(new_tree_args("jms"), strings(&["new", "--dir", "trees", "--prefix", "jms"]));
    assert_eq!(BROADCAST_REPLY, "msg sent");
    let trees = vec![Tree {}];
    let page = TreeTemplate { trees: &trees };
    assert_eq!(page.trees.len(), 1);
    let _ = Forest { trees: vec![] };
    let _ = HomeTemplate {};
}

#[test]
fn reloader_session_heartbeat_and_frames() {
    let sec = 1_000_000_000u64;
    let mut s = ReloaderSession::new(7, "server", 100 * sec);
    assert_eq!(s.hb, 100 * sec);
    assert_eq!(s.heartbeat(105 * sec), HeartbeatStep::Ping);
    assert_eq!(s.heartbeat(111 * sec), HeartbeatStep::Disconnect);
    let r = s.handle_frame(Ok(WsFrame::Binary), 104 * sec);
    assert!(r.unexpected_binary);
    assert_eq!(s.hb, 100 * sec);
    let r = s.handle_frame(Ok(WsFrame::Pong), 108 * sec);
    assert!(r.refresh_heartbeat);
    assert_eq!(s.hb, 108 * sec);
    assert_eq!(s.heartbeat(111 * sec), HeartbeatStep::Ping);
    let r = s.handle_frame(Ok(WsFrame::Ping(vec![1])), 109 * sec);
    assert_eq!(r.pong, Some(vec![1]));
    assert_eq!(s.hb, 109 * sec);
    s.handle_frame(Ok(WsFrame::Text("hi".into())), 110 * sec);
    assert_eq!(s.hb, 110 * sec);
    s.handle_frame(Err(FrameError::Protocol), 130 * sec);
    assert_eq!(s.hb, 110 * sec);
    assert_eq!(s.handle_message(Message::Reload), "reload");
    assert_eq!(s.handle_message(Message::Msg("x".into())), "x");
    assert_eq!(s.stopping(), Disconnect { id: 7 });
    assert_eq!(s.id, 7);
    assert_eq!(s.addr, "server");
}

#[test]
fn relay_keepalive() {
    let sec = 1_000_000_000u64;
    assert_eq!(keepalive_step(0, 20 * sec, false), KeepAliveStep::Stop);
    assert_eq!(keepalive_step(0, 5 * sec, false), KeepAliveStep::Stop);
    assert_eq!(keepalive_step(0, 5 * sec, true), KeepAliveStep::Continue);
    assert_eq!(keepalive_step(0, 10 * sec, true), KeepAliveStep::Continue);
    assert_eq!(keepalive_step(0, 10 * sec + 1, true), KeepAliveStep::CloseAndStop);
}

#[test]
fn session_server_notices() {
    let mut server: ReloadServer<&str> = ReloadServer::new();
    let (a, before, after) = server.connect_and_notify(Connect { addr: "a" });
    assert_eq!(before.text, "main");
    assert!(before.recipients.is_empty());
    assert_eq!(after.text, "main");
    assert_eq!(after.recipients, vec![a]);
    let (b, before, after) = server.connect_and_notify(Connect { addr: "b" });
    assert_eq!(before.recipients, vec![a]);
    let mut ids = after.recipients.clone();
    ids.sort();
    let mut expected = if a == b { vec![a] } else { vec![a, b] };
    expected.sort();
    assert_eq!(ids, expected);
    let mut all = server.session_ids();
    all.sort();
    assert_eq!(all, expected);
    let (reply, notice) = server.handle_message(Message::Msg("hi".into()));
    assert_eq!(reply, "message");
    assert_eq!(notice.text, "Someone disconnected.");
    assert_eq!(notice.recipients.len(), expected.len());
    let left = server.disconnect_and_notify(Disconnect { id: a });
    assert_eq!(left.text, "Someone disconnected.");
    assert!(!left.recipients.contains(&a));
    assert_eq!(server.sessions().get(&a), None);
    if a != b {
        assert_eq!(left.recipients, vec![b]);
    }
}

#[test]
fn template_import() {
    let mut env = minijinja::Environment::new();
    assert_eq!(import_entry(&mut env, "templates/index.html", true, "index.html", "Hello {{ name }}!").unwrap(), true);
    assert!(env.get_template("index.html").is_ok());
    assert_eq!(import_entry(&mut env, "templates/notes.txt", true, "notes.txt", "x").unwrap(), false);
    assert!(env.get_template("notes.txt").is_err());
    assert_eq!(import_entry(&mut env, "templates/dir.html", false, "dir.html", "x").unwrap(), false);
    assert!(env.get_template("dir.html").is_err());
    assert!(import_entry(&mut env, "templates/bad.html", true, "bad.html", "{% if %}").is_err());
    assert!(env.get_template("bad.html").is_err());
    assert!(env.get_template("index.html").is_ok());
}

#[test]
fn relay_reads() {
    assert!(matches!(react_to_read(None), RelayReaction::Close { with_reason: false }));
    assert!(matches!(react_to_read(Some(Err(FrameError::Protocol))), RelayReaction::Close { with_reason: false }));
    assert!(matches!(react_to_read(Some(Ok(WsFrame::Text("r".into())))), RelayReaction::Relay(s) if s == "r"));
    assert!(matches!(react_to_read(Some(Ok(WsFrame::Close))), RelayReaction::Close { with_reason: true }));
}

#[test]
fn stand_alone_pathset() {
    assert_eq!(dev_pathset("trees"), strings(&["trees", "theme", "assets"]));
}

#[test]
fn session_server_send_message() {
    let mut server: ReloadServer<u8> = ReloadServer::new();
    let n = server.send_message("hello");
    assert_eq!(n.text, "hello");
    assert!(n.recipients.is_empty());
    let a = server.handle_connect(Connect { addr: 1 });
    let n = server.send_message("hello");
    assert_eq!(n.recipients, vec![a]);
    assert_eq!(server.sessions().len(), 1);
}
