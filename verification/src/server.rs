//! The development server's state machine.
//!
//! A server composes four resources: the preview HTTP endpoint, the public
//! tunnel session, the task-queue consumer, and the debounced watcher.
//! `start()` brings them up in that order and reports the first failure
//! without rolling back what already started (the server then stays
//! partially started); `stop()` disconnects the tunnel, stops the HTTP endpoint, and
//! drops the watcher and the consumer handle, so that after a successful
//! stop all four are absent. An in-flight build is never cancelled by a
//! stop; it runs to completion.
//!
//! The outside work itself (binding a socket, opening the tunnel, watching
//! the filesystem) happens in the surrounding tooling, which drives this
//! state machine with each step's outcome.

use crate::error::Error;
use crate::queue::BuildLoop;
use vstd::prelude::*;

verus! {

/// The port the preview HTTP endpoint binds.
pub const PORT: u16 = 3000;

/// The host name the tunnel forwards to.
pub const HOST: &'static str = "localhost";

/// The number of build requests the task queue holds before dropping new
/// ones.
pub const QUEUE_CAPACITY: usize = 32;

/// The quiescence window of the debounced watcher, in milliseconds.
pub const DEBOUNCE_WINDOW_MILLIS: u64 = 2000;

/// The relay every tunnel session connects to.
pub fn tunnel_server_url() -> (r: &'static str)
    ensures
        r@ == "https://localtunnel.me"@,
{
    "https://localtunnel.me"
}

/// The settings a tunnel session is opened with.
pub struct TunnelConfig {
    /// The relay to connect to.
    pub server: String,
    /// The advertised subdomain, freshly generated per session.
    pub subdomain: String,
    /// The local host the relay forwards to.
    pub local_host: String,
    /// The local port the relay forwards to.
    pub local_port: u16,
    /// How many relay connections the session keeps open.
    pub max_conn: u8,
}

/// Builds the settings for one tunnel session advertising `subdomain`.
pub fn tunnel_config(subdomain: String) -> (c: TunnelConfig)
    ensures
        c.server@ == "https://localtunnel.me"@,
        c.subdomain@ == subdomain@,
        c.local_host@ == "localhost"@,
        c.local_port == PORT,
        c.max_conn == 5,
{
    TunnelConfig {
        server: String::from_str(tunnel_server_url()),
        subdomain,
        local_host: String::from_str(HOST),
        local_port: PORT,
        max_conn: 5,
    }
}

/// One tunnel session: holds the public URL while connected.
pub struct Tunnel {
    /// The public URL, present exactly while the session is connected.
    pub url: Option<Vec<u8>>,
}

impl Tunnel {
    /// A disconnected session.
    pub fn new() -> (r: Tunnel)
        ensures
            r.url is None,
    {
        Tunnel { url: None }
    }

    /// Applies the outcome of opening the tunnel: the public URL on
    /// success, nothing on failure.
    pub fn apply_connect(&mut self, outcome: Option<Vec<u8>>) -> (r: Result<(), Error>)
        ensures
            outcome is Some ==> r is Ok && final(self).url == outcome,
            outcome is None ==> r == Err::<(), Error>(Error::LocaltunnelConnect) && final(self).url == old(self).url,
    {
        match outcome {
            Some(url) => {
                self.url = Some(url);
                Ok(())
            },
            None => Err(Error::LocaltunnelConnect),
        }
    }

    /// Disconnects: the URL is forgotten first (so the session is reported
    /// absent either way), then the shutdown signal's outcome decides the
    /// result.
    pub fn apply_disconnect(&mut self, send_ok: bool) -> (r: Result<(), Error>)
        ensures
            final(self).url is None,
            send_ok ==> r is Ok,
            !send_ok ==> r == Err::<(), Error>(Error::LocaltunnelDisconnect),
    {
        self.url = None;
        if send_ok {
            Ok(())
        } else {
            Err(Error::LocaltunnelDisconnect)
        }
    }
}

/// Where the server stands in its lifecycle.
#[derive(Clone, Copy, PartialEq, Eq, Structural, Debug)]
pub enum ServerPhase {
    /// Not started, or fully stopped.
    Stopped,
    /// `start()` is bringing resources up; on a partial failure the server
    /// stays here, with what already started left running.
    Starting,
    /// All four resources are up.
    Running,
    /// `stop()` is tearing resources down.
    Stopping,
}

/// The resource `start()` brings up next.
#[derive(Clone, Copy, PartialEq, Eq, Structural, Debug)]
pub enum StartStep {
    /// Bind and serve the preview HTTP endpoint.
    Http,
    /// Open the public tunnel session.
    Tunnel,
    /// Spawn the task-queue consumer.
    Consumer,
    /// Start the debounced watcher over the input root.
    Watcher,
}

/// The server's state: its lifecycle phase, the four resources, the task
/// queue, and the configured paths.
pub struct Server {
    /// The lifecycle phase.
    pub phase: ServerPhase,
    /// The preview HTTP endpoint task is running.
    pub http_running: bool,
    /// The tunnel session.
    pub tunnel: Tunnel,
    /// The consumer task's handle is held.
    pub consumer_handle: bool,
    /// The debounced watcher is active.
    pub watcher_active: bool,
    /// The build queue and its consumer's in-flight flag.
    pub tasks: BuildLoop,
    /// The source tree the watcher observes and the bundler reads.
    pub input_path: Vec<u8>,
    /// The tree the bundler writes and the patch pass rewrites.
    pub output_path: Vec<u8>,
    /// The bundler's transform-configuration file.
    pub config_path: Vec<u8>,
}

impl Server {
    /// The queue respects its bound.
    pub open spec fn wf(self) -> bool {
        self.tasks.wf()
    }

    /// All four of the server's resources are absent.
    pub open spec fn resources_absent(self) -> bool {
        !self.http_running && self.tunnel.url is None && !self.consumer_handle
            && !self.watcher_active
    }

    /// A fresh server over the given paths: stopped, no resources, an empty
    /// queue of capacity [`QUEUE_CAPACITY`], no build in flight.
    pub fn new(input_path: Vec<u8>, output_path: Vec<u8>, config_path: Vec<u8>) -> (s: Server)
        ensures
            s.wf(),
            s.phase == ServerPhase::Stopped,
            s.resources_absent(),
            !s.tasks.building,
            s.tasks.queue.items@ == Seq::<crate::queue::Task>::empty(),
            s.tasks.queue.capacity == QUEUE_CAPACITY,
            s.input_path@ == input_path@,
            s.output_path@ == output_path@,
            s.config_path@ == config_path@,
    {
        Server {
            phase: ServerPhase::Stopped,
            http_running: false,
            tunnel: Tunnel::new(),
            consumer_handle: false,
            watcher_active: false,
            tasks: BuildLoop::new(QUEUE_CAPACITY),
            input_path,
            output_path,
            config_path,
        }
    }

    /// Which resource `start()` brings up next, in the fixed order HTTP
    /// endpoint, tunnel, consumer, watcher; `None` once all four are up.
    pub fn next_start_step(&self) -> (r: Option<StartStep>)
        ensures
            !self.http_running ==> r == Some(StartStep::Http),
            self.http_running && self.tunnel.url is None ==> r == Some(StartStep::Tunnel),
            self.http_running && self.tunnel.url is Some && !self.consumer_handle ==> r == Some(
                StartStep::Consumer,
            ),
            self.http_running && self.tunnel.url is Some && self.consumer_handle
                && !self.watcher_active ==> r == Some(StartStep::Watcher),
            self.http_running && self.tunnel.url is Some && self.consumer_handle
                && self.watcher_active ==> r is None,
    {
        if !self.http_running {
            Some(StartStep::Http)
        } else if self.tunnel.url.is_none() {
            Some(StartStep::Tunnel)
        } else if !self.consumer_handle {
            Some(StartStep::Consumer)
        } else if !self.watcher_active {
            Some(StartStep::Watcher)
        } else {
            None
        }
    }

    /// Enters the starting phase.
    pub fn begin_start(&mut self)
        requires
            old(self).phase == ServerPhase::Stopped,
        ensures
            final(self).phase == ServerPhase::Starting,
            final(self).http_running == old(self).http_running,
            final(self).tunnel.url == old(self).tunnel.url,
            final(self).consumer_handle == old(self).consumer_handle,
            final(self).watcher_active == old(self).watcher_active,
            final(self).tasks == old(self).tasks,
            final(self).input_path == old(self).input_path,
            final(self).output_path == old(self).output_path,
            final(self).config_path == old(self).config_path,
    {
        self.phase = ServerPhase::Starting;
    }

    /// The HTTP endpoint task was spawned.
    pub fn http_started(&mut self)
        requires
            old(self).phase == ServerPhase::Starting,
            !old(self).http_running,
        ensures
            final(self).http_running,
            final(self).phase == ServerPhase::Starting,
            final(self).tunnel.url == old(self).tunnel.url,
            final(self).consumer_handle == old(self).consumer_handle,
            final(self).watcher_active == old(self).watcher_active,
            final(self).tasks == old(self).tasks,
    {
        self.http_running = true;
    }

    /// Applies the outcome of opening the tunnel. On failure the server
    /// stays partially started: the HTTP endpoint keeps running and no
    /// rollback happens.
    pub fn tunnel_connected(&mut self, outcome: Option<Vec<u8>>) -> (r: Result<(), Error>)
        requires
            old(self).phase == ServerPhase::Starting,
            old(self).http_running,
        ensures
            final(self).phase == ServerPhase::Starting,
            final(self).http_running,
            final(self).consumer_handle == old(self).consumer_handle,
            final(self).watcher_active == old(self).watcher_active,
            final(self).tasks == old(self).tasks,
            outcome is Some ==> r is Ok && final(self).tunnel.url == outcome,
            outcome is None ==> r == Err::<(), Error>(Error::LocaltunnelConnect) && final(self).tunnel.url == old(self).tunnel.url,
    {
        self.tunnel.apply_connect(outcome)
    }

    /// The consumer task was spawned and its handle is held.
    pub fn consumer_started(&mut self)
        requires
            old(self).phase == ServerPhase::Starting,
            old(self).http_running,
            old(self).tunnel.url is Some,
        ensures
            final(self).consumer_handle,
            final(self).phase == ServerPhase::Starting,
            final(self).http_running,
            final(self).tunnel.url == old(self).tunnel.url,
            final(self).watcher_active == old(self).watcher_active,
            final(self).tasks == old(self).tasks,
    {
        self.consumer_handle = true;
    }

    /// Applies the watcher setup's outcome; success completes `start()`. On
    /// failure everything already started keeps running and the server
    /// stays partially started.
    pub fn watcher_started(&mut self, ok: bool, message: Vec<u8>) -> (r: Result<(), Error>)
        requires
            old(self).phase == ServerPhase::Starting,
            old(self).http_running,
            old(self).tunnel.url is Some,
            old(self).consumer_handle,
            !old(self).watcher_active,
        ensures
            final(self).http_running,
            final(self).tunnel.url == old(self).tunnel.url,
            final(self).consumer_handle,
            final(self).tasks == old(self).tasks,
            ok ==> r is Ok && final(self).watcher_active && final(self).phase
                == ServerPhase::Running,
            !ok ==> (r matches Err(e) && e matches Error::NotifyAddPaths(m) && m@ == message@
                && !final(self).watcher_active && final(self).phase == ServerPhase::Starting),
    {
        if ok {
            self.watcher_active = true;
            self.phase = ServerPhase::Running;
            Ok(())
        } else {
            Err(Error::NotifyAddPaths(message))
        }
    }

    /// Stops the server: disconnects the tunnel, stops the HTTP endpoint,
    /// and drops the watcher and the consumer handle.
    ///
    /// On success all four resources are absent. The consumer's underlying
    /// loop task is abandoned rather than cancelled, and an in-flight build
    /// runs to completion: the queue and the in-flight flag are untouched.
    /// When the shutdown signal finds no listening session, the failure is
    /// reported after the URL is already forgotten, and the remaining
    /// resources are left as they were.
    pub fn stop(&mut self, disconnect_send_ok: bool) -> (r: Result<(), Error>)
        ensures
            final(self).tunnel.url is None,
            final(self).tasks == old(self).tasks,
            disconnect_send_ok ==> r is Ok && final(self).resources_absent() && final(self).phase
                == ServerPhase::Stopped,
            !disconnect_send_ok ==> r == Err::<(), Error>(Error::LocaltunnelDisconnect) && final(self).http_running == old(self).http_running && final(self).consumer_handle == old(self).consumer_handle && final(self).watcher_active == old(self).watcher_active && final(self).phase == old(self).phase,
    {
            match self.tunnel.apply_disconnect(disconnect_send_ok) {
            Err(e) => Err(e),
            Ok(()) => {
                self.http_running = false;
                self.watcher_active = false;
                self.consumer_handle = false;
                self.phase = ServerPhase::Stopped;
                Ok(())
            },
        }
    }
}

/// What a front end shows of the last build.
pub enum BuildStatus {
    /// No build ran yet.
    Unbuilt,
    /// The first build is running.
    Building,
    /// The last build failed; holds its errors.
    ErrorBuilding(Vec<Error>),
    /// The last build succeeded.
    Built,
    /// A build is running after an earlier success.
    Rebuilding,
}

/// The status shown when a build is requested: rebuilding after a success,
/// building otherwise.
pub fn on_build_requested(s: BuildStatus) -> (r: BuildStatus)
    ensures
        s is Built ==> r is Rebuilding,
        !(s is Built) ==> r is Building,
{
    match s {
        BuildStatus::Built => BuildStatus::Rebuilding,
        _ => BuildStatus::Building,
    }
}

/// The status shown when a build finishes.
pub fn on_build_finished(outcome: Result<(), Vec<Error>>) -> (r: BuildStatus)
    ensures
        outcome is Ok ==> r is Built,
        outcome matches Err(es) ==> r matches BuildStatus::ErrorBuilding(rs) && rs@ == es@,
{
    match outcome {
        Ok(()) => BuildStatus::Built,
        Err(es) => BuildStatus::ErrorBuilding(es),
    }
}

} // verus!
