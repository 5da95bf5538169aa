//! Tests of the task queue, the debounced watcher, and the server state
//! machine.

use firesync::bundler::{build, PathStatus};
use firesync::debounce::{Debouncer, FsEventKind};
use firesync::error::Error;
use firesync::queue::{BuildLoop, ConsumerAction, Task, TaskQueue};
use firesync::server::{
    on_build_finished, on_build_requested, tunnel_config, BuildStatus, Server, ServerPhase,
    StartStep, DEBOUNCE_WINDOW_MILLIS, PORT, QUEUE_CAPACITY,
};

fn b(s: &str) -> Vec<u8> {
    s.as_bytes().to_vec()
}

#[test]
fn queue_is_fifo() {
    let mut q = TaskQueue::new(4);
    assert!(q.try_enqueue(Task::Build));
    assert!(q.try_enqueue(Task::Build));
    assert_eq!(q.len(), 2);
    assert_eq!(q.dequeue(), Some(Task::Build));
    assert_eq!(q.dequeue(), Some(Task::Build));
    assert_eq!(q.dequeue(), None);
}

#[test]
fn full_queue_drops_the_newest_request() {
    let mut q = TaskQueue::new(2);
    assert!(q.try_enqueue(Task::Build));
    assert!(q.try_enqueue(Task::Build));
    assert!(!q.try_enqueue(Task::Build));
    assert_eq!(q.len(), 2);
}

#[test]
fn two_tasks_enqueued_while_building_start_no_second_build() {
    let mut lp = BuildLoop::new(QUEUE_CAPACITY);
    assert!(lp.enqueue_build());
    assert!(matches!(lp.next_action(), ConsumerAction::StartBuild(Task::Build)));
    // A build is now in flight; two more tasks arrive.
    assert!(lp.enqueue_build());
    assert!(lp.enqueue_build());
    // Polling while in flight starts nothing.
    assert!(matches!(lp.next_action(), ConsumerAction::Wait));
    assert!(matches!(lp.next_action(), ConsumerAction::Wait));
    // Only after the first build finishes does the next one start.
    lp.finish_build();
    assert!(matches!(lp.next_action(), ConsumerAction::StartBuild(Task::Build)));
}

#[test]
fn burst_of_events_yields_one_signal() {
    let mut d = Debouncer::new(DEBOUNCE_WINDOW_MILLIS);
    d.on_event(FsEventKind::Create, 0);
    d.on_event(FsEventKind::Modify, 100);
    d.on_event(FsEventKind::Remove, 1999);
    assert!(!d.poll(1999));
    assert!(d.poll(2000));
    assert!(!d.poll(2001));
}

#[test]
fn spaced_events_yield_one_signal_each() {
    let mut d = Debouncer::new(DEBOUNCE_WINDOW_MILLIS);
    let mut fired: usize = 0;
    for t in [0u64, 5000, 10000] {
        d.on_event(FsEventKind::Modify, t);
        if d.poll(t + DEBOUNCE_WINDOW_MILLIS) {
            fired += 1;
        }
    }
    assert_eq!(fired, 3);
}

#[test]
fn irrelevant_events_do_not_arm_the_debouncer() {
    let mut d = Debouncer::new(DEBOUNCE_WINDOW_MILLIS);
    d.on_event(FsEventKind::Other, 0);
    assert!(!d.poll(10000));
}

#[test]
fn start_brings_resources_up_in_order() {
    let mut s = Server::new(b("in"), b("out"), b("./.darklua.json"));
    assert_eq!(s.phase, ServerPhase::Stopped);
    s.begin_start();
    assert_eq!(s.next_start_step(), Some(StartStep::Http));
    s.http_started();
    assert_eq!(s.next_start_step(), Some(StartStep::Tunnel));
    assert!(s.tunnel_connected(Some(b("https://abc.localtunnel.me"))).is_ok());
    assert_eq!(s.next_start_step(), Some(StartStep::Consumer));
    s.consumer_started();
    assert_eq!(s.next_start_step(), Some(StartStep::Watcher));
    assert!(s.watcher_started(true, Vec::new()).is_ok());
    assert_eq!(s.next_start_step(), None);
    assert_eq!(s.phase, ServerPhase::Running);
    assert_eq!(s.tunnel.url, Some(b("https://abc.localtunnel.me")));
}

#[test]
fn failed_tunnel_leaves_server_partially_started() {
    let mut s = Server::new(b("in"), b("out"), b("cfg"));
    s.begin_start();
    s.http_started();
    assert!(matches!(s.tunnel_connected(None), Err(Error::LocaltunnelConnect)));
    assert_eq!(s.phase, ServerPhase::Starting);
    assert!(s.http_running);
    assert_eq!(s.tunnel.url, None);
}

#[test]
fn failed_watcher_reports_and_keeps_the_rest_running() {
    let mut s = Server::new(b("in"), b("out"), b("cfg"));
    s.begin_start();
    s.http_started();
    assert!(s.tunnel_connected(Some(b("url"))).is_ok());
    s.consumer_started();
    match s.watcher_started(false, b("bad path")) {
        Err(Error::NotifyAddPaths(msg)) => assert_eq!(msg, b("bad path")),
        _ => panic!("expected a watcher-setup error"),
    }
    assert_eq!(s.phase, ServerPhase::Starting);
    assert!(s.http_running && s.consumer_handle && !s.watcher_active);
}

#[test]
fn successful_stop_leaves_no_resources() {
    let mut s = Server::new(b("in"), b("out"), b("cfg"));
    s.begin_start();
    s.http_started();
    assert!(s.tunnel_connected(Some(b("url"))).is_ok());
    s.consumer_started();
    assert!(s.watcher_started(true, Vec::new()).is_ok());
    assert!(s.stop(true).is_ok());
    assert_eq!(s.phase, ServerPhase::Stopped);
    assert!(!s.http_running && !s.consumer_handle && !s.watcher_active);
    assert_eq!(s.tunnel.url, None);
}

#[test]
fn failed_disconnect_still_forgets_the_url() {
    let mut s = Server::new(b("in"), b("out"), b("cfg"));
    s.begin_start();
    s.http_started();
    assert!(s.tunnel_connected(Some(b("url"))).is_ok());
    assert!(matches!(s.stop(false), Err(Error::LocaltunnelDisconnect)));
    assert_eq!(s.tunnel.url, None);
    assert!(s.http_running);
}

#[test]
fn tunnel_config_targets_the_local_endpoint() {
    let c = tunnel_config("abc123".to_string());
    assert_eq!(c.server, "https://localtunnel.me");
    assert_eq!(c.subdomain, "abc123");
    assert_eq!(c.local_host, "localhost");
    assert_eq!(c.local_port, PORT);
    assert_eq!(c.local_port, 3000);
    assert_eq!(c.max_conn, 5);
}

#[test]
fn build_status_tracks_requests_and_outcomes() {
    assert!(matches!(on_build_requested(BuildStatus::Unbuilt), BuildStatus::Building));
    assert!(matches!(on_build_requested(BuildStatus::Built), BuildStatus::Rebuilding));
    assert!(matches!(on_build_finished(Ok(())), BuildStatus::Built));
    match on_build_finished(Err(vec![Error::InputMissing])) {
        BuildStatus::ErrorBuilding(es) => assert_eq!(es.len(), 1),
        _ => panic!("expected a failed status"),
    }
}

#[test]
fn build_rejects_mismatched_or_missing_paths() {
    let dir = PathStatus { exists: true, is_dir: true };
    let file = PathStatus { exists: true, is_dir: false };
    let absent_dir = PathStatus { exists: false, is_dir: true };
    let p = b("p");
    assert!(matches!(
        build(&dir, &file, &p, &p, &p),
        Err(Error::InputOutputMismatch)
    ));
    assert!(matches!(
        build(&absent_dir, &dir, &p, &p, &p),
        Err(Error::InputMissing)
    ));
    assert!(matches!(
        build(&dir, &absent_dir, &p, &p, &p),
        Err(Error::OutputMissing)
    ));
}
