use megaprompt::client::{client_output, run, ClientEvent, ClientOutput, Launch, RunMode};
use megaprompt::daemon::{restart_due, socket_path, Daemon, Lookup, CLIENT_WAIT_MS, IDLE_TIMEOUT_MS, WORKER_WAIT_MS};
use megaprompt::protocol::{encode_request, parse_request, reply_text, Key};
use megaprompt::registry::Registry;
use megaprompt::shell::ShellType;
use megaprompt::worker::{next_action, wait_step, PromptThread, WaitEvent, WaitStep, WorkerAction, WorkerEvent};

fn key(path: &str, shell: ShellType) -> Key {
    Key { path: path.to_string(), shell }
}

/// Takes a request through a daemon whose workers all live; spawns a worker
/// seeded with `seed` where none holds the key. Returns the entry.
fn serve(d: &mut Daemon<()>, payload: &str, seed: &str) -> usize {
    let died = vec![false; d.registry.len()];
    match d.begin(payload, &died).expect("payload names a key") {
        Lookup::Found(i) => i,
        Lookup::Missing(k) => d.spawn(k, (), seed.to_string()).expect("serial available"),
    }
}

#[test]
fn test_main_does_not_error() {
    run(RunMode::Test, ShellType::Bash);
}

#[test]
fn run_modes() {
    assert_eq!(run(RunMode::Daemon, ShellType::Zsh), Launch::Serve);
    assert_eq!(run(RunMode::Main, ShellType::Zsh), Launch::Request(ShellType::Zsh));
    assert_eq!(run(RunMode::Test, ShellType::Zsh), Launch::Idle);
    assert_eq!(socket_path(), "/tmp/megaprompt-socket");
}

#[test]
fn request_encoding() {
    assert_eq!(encode_request("/home/alice", ShellType::Bash), "!2 /home/alice Bash");
    assert_eq!(encode_request("/a", ShellType::Zsh), "!2 /a Zsh");
}

#[test]
fn request_round_trip() {
    for shell in [ShellType::Bash, ShellType::Zsh] {
        let text = encode_request("/home/alice", shell);
        let k = parse_request(&text).unwrap();
        assert_eq!(k.path, "/home/alice");
        assert_eq!(k.shell, shell);
    }
}

#[test]
fn legacy_request_means_bash() {
    let k = parse_request("/srv/www").unwrap();
    assert_eq!(k.path, "/srv/www");
    assert_eq!(k.shell, ShellType::Bash);
}

#[test]
fn versioned_request_forms() {
    assert!(parse_request("!2 /a").is_none());
    assert!(parse_request("!2 ").is_none());
    let k = parse_request("!2 /a Fish").unwrap();
    assert_eq!(k.shell, ShellType::Bash);
    let k = parse_request("!2 /a Zsh trailing").unwrap();
    assert_eq!((k.path.as_str(), k.shell), ("/a", ShellType::Zsh));
    let k = parse_request("").unwrap();
    assert_eq!((k.path.as_str(), k.shell), ("", ShellType::Bash));
    let k = parse_request("!2  Zsh").unwrap();
    assert_eq!((k.path.as_str(), k.shell), ("", ShellType::Zsh));
}

#[test]
fn reply_marker() {
    assert_eq!(reply_text("p", false), "p");
    assert_eq!(reply_text("p", true), "p♻  ");
    assert!(restart_due(1, 2));
    assert!(!restart_due(5, 5));
}

#[test]
fn worker_loop_decisions() {
    assert_eq!(next_action(WorkerEvent::Recompute), WorkerAction::Publish);
    assert_eq!(next_action(WorkerEvent::IdleTimeout), WorkerAction::Retire);
}

#[test]
fn thread_death_is_final() {
    let mut t = PromptThread::new((), "seed".to_string());
    assert!(t.check_is_alive(false));
    assert!(!t.check_is_alive(true));
    assert!(!t.check_is_alive(false));
    assert_eq!(t.cached(), "seed");
}

#[test]
fn thread_get_updates_cache() {
    let mut t = PromptThread::new((), "old".to_string());
    assert_eq!(t.get(None), "old");
    assert_eq!(t.get(Some("new".to_string())), "new");
    assert_eq!(t.cached(), "new");
    assert_eq!(t.get(None), "new");
}

#[test]
fn first_request_answers_seed_or_full() {
    let mut d: Daemon<()> = Daemon::new(7);
    let i = serve(&mut d, "!2 /home/alice Bash", "FAST");
    let r = d.respond(i, None, 7);
    assert_eq!(r.text, "FAST");
    assert!(!r.restart);
    let mut d: Daemon<()> = Daemon::new(7);
    let i = serve(&mut d, "!2 /home/alice Bash", "FAST");
    let r = d.respond(i, Some("FULL".to_string()), 7);
    assert_eq!(r.text, "FULL");
}

#[test]
fn live_worker_is_reused() {
    let mut d: Daemon<()> = Daemon::new(0);
    let i = serve(&mut d, "!2 /w Bash", "s1");
    d.respond(i, Some("full".to_string()), 0);
    let died = vec![false];
    match d.begin("!2 /w Bash", &died) {
        Some(Lookup::Found(j)) => assert_eq!(j, i),
        _ => panic!("expected the live worker"),
    }
    assert_eq!(d.registry.spawned(), 1);
    assert_eq!(d.registry.cached(0), "full");
}

#[test]
fn dead_worker_is_replaced() {
    let mut d: Daemon<()> = Daemon::new(0);
    let i = serve(&mut d, "!2 /w Bash", "s1");
    d.respond(i, Some("full".to_string()), 0);
    let died = vec![true];
    let k = match d.begin("!2 /w Bash", &died) {
        Some(Lookup::Missing(k)) => k,
        _ => panic!("expected a spawn"),
    };
    assert_eq!(d.registry.len(), 0);
    let j = d.spawn(k, (), "s2".to_string()).unwrap();
    assert_eq!(d.registry.spawned(), 2);
    assert_eq!(d.respond(j, None, 0).text, "s2");
}

#[test]
fn slow_result_lands_for_next_request() {
    let mut d: Daemon<()> = Daemon::new(0);
    let i = serve(&mut d, "!2 /slow Zsh", "seed");
    assert_eq!(d.respond(i, None, 0).text, "seed");
    let i = serve(&mut d, "!2 /slow Zsh", "unused");
    assert_eq!(d.respond(i, Some("late".to_string()), 0).text, "late");
    let i = serve(&mut d, "!2 /slow Zsh", "unused");
    assert_eq!(d.respond(i, None, 0).text, "late");
}

#[test]
fn racing_callers_get_fresh_or_prior() {
    let mut d: Daemon<()> = Daemon::new(0);
    let i = serve(&mut d, "/r", "prior");
    let first = d.respond(i, None, 0).text;
    let second = d.respond(i, Some("fresh".to_string()), 0).text;
    for t in [&first, &second] {
        assert!(t == "prior" || t == "fresh");
        assert!(!t.is_empty());
    }
}

#[test]
fn dialects_are_independent_cache_lines() {
    let mut d: Daemon<()> = Daemon::new(0);
    let b = serve(&mut d, "!2 /a Bash", "bash seed");
    let z = serve(&mut d, "!2 /a Zsh", "zsh seed");
    assert_ne!(b, z);
    assert_eq!(d.respond(b, Some("bash full".to_string()), 0).text, "bash full");
    assert_eq!(d.respond(z, None, 0).text, "zsh seed");
    assert_eq!(d.registry.cached(b), "bash full");
}

#[test]
fn restart_after_reply_when_binary_changed() {
    let mut d: Daemon<()> = Daemon::new(100);
    let i = serve(&mut d, "/x", "p");
    let r = d.respond(i, None, 101);
    assert!(r.restart);
    assert_eq!(r.text, "p♻  ");
}

#[test]
fn unparsable_request_is_abandoned() {
    let mut d: Daemon<()> = Daemon::new(0);
    serve(&mut d, "/x", "p");
    let died = vec![true];
    assert!(d.begin("!2 /broken", &died).is_none());
    assert_eq!(d.registry.len(), 1);
}

#[test]
fn client_round_trip_is_nonempty() {
    let mut d: Daemon<()> = Daemon::new(0);
    let payload = encode_request("/home/alice", ShellType::Zsh);
    let i = serve(&mut d, &payload, "seed");
    let r = d.respond(i, None, 0);
    match client_output(ClientEvent::Replied(r.text)) {
        ClientOutput::Received(t) => assert_eq!(t, "seed"),
        _ => panic!("expected the daemon's answer"),
    }
}

#[test]
fn unreachable_daemon_means_full_local_prompt() {
    assert!(matches!(client_output(ClientEvent::Unreachable), ClientOutput::LocalFull));
}

#[test]
fn slow_daemon_means_fast_local_prompt() {
    assert!(matches!(client_output(ClientEvent::TimedOut), ClientOutput::LocalFast));
    assert!(matches!(client_output(ClientEvent::ReadFailed), ClientOutput::LocalFast));
}

#[test]
fn registry_starts_empty() {
    let r: Registry<u8> = Registry::new();
    assert_eq!(r.len(), 0);
    assert_eq!(r.spawned(), 0);
    assert!(r.find(&key("/a", ShellType::Bash)).is_none());
}

#[test]
fn bounded_wait_steps() {
    match wait_step(WaitEvent::Delivered("fresh".to_string())) {
        WaitStep::Done(Some(t)) => assert_eq!(t, "fresh"),
        _ => panic!("a delivered prompt ends the wait"),
    }
    assert!(matches!(wait_step(WaitEvent::Elapsed), WaitStep::Done(None)));
    assert!(matches!(wait_step(WaitEvent::Pending), WaitStep::KeepWaiting));
    assert!(matches!(wait_step(WaitEvent::Closed), WaitStep::KeepWaiting));
}

#[test]
fn waits_are_ordered() {
    assert!(WORKER_WAIT_MS < CLIENT_WAIT_MS);
    assert!(CLIENT_WAIT_MS < IDLE_TIMEOUT_MS);
    assert_eq!(IDLE_TIMEOUT_MS, 10 * 60 * 1000);
}
