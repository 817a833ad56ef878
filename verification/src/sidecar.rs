//! The supervisor of the worker process: its lifecycle as a state machine,
//! the rules of a call, and the errors a caller can see.

use vstd::prelude::*;
use vstd::string::*;
use crate::events::SidecarStatusEvent;
use crate::ipc::{
    encode_request, error_text, issued, request_text, IdCounter, JsonRpcError, LineKind,
    ResponseView,
};
use crate::json::{json_of, single_line, text_of, JsonText};
use crate::pending::PendingCalls;
use crate::transport::{dispatched, ActionView};

verus! {

/// The seconds a call waits for its answer.
pub const CALL_TIMEOUT_SECS: u64 = 120;

/// One of the worker's three standard streams.
#[derive(Clone, Copy, Debug, PartialEq, Eq, Structural)]
pub enum Stream {
    Stdin,
    Stdout,
    Stderr,
}

/// Why a start or a call failed.
#[derive(Debug)]
pub enum SidecarError {
    /// The worker could not be launched.
    Spawn(String),
    /// The worker runs, but one of its pipes could not be had.
    StreamCapture(Stream),
    /// A start was asked for while a worker was there already.
    AlreadyRunning,
    /// A call was made with no worker running.
    NotConnected,
    /// The request could not be written to the worker.
    Write(String),
    /// The request was written but could not be flushed.
    Flush(String),
    /// No answer came within the bound.
    Timeout,
    /// The transport was torn down while the call waited.
    ChannelClosed,
    /// The worker answered with an error of its own, handed on as it came.
    WorkerReported(JsonRpcError),
}

/// The text of an error, as a caller is shown it.
pub open spec fn message_of(e: SidecarError) -> Seq<char> {
    match e {
        SidecarError::Spawn(reason) => "Failed to spawn sidecar: "@ + reason@,
        SidecarError::StreamCapture(Stream::Stdin) => "Failed to capture stdin"@,
        SidecarError::StreamCapture(Stream::Stdout) => "Failed to capture stdout"@,
        SidecarError::StreamCapture(Stream::Stderr) => "Failed to capture stderr"@,
        SidecarError::AlreadyRunning => "Sidecar already running"@,
        SidecarError::NotConnected => "Sidecar not started"@,
        SidecarError::Write(reason) => "Failed to write to sidecar: "@ + reason@,
        SidecarError::Flush(reason) => "Failed to flush sidecar stdin: "@ + reason@,
        SidecarError::Timeout => "Sidecar call timed out after 120s"@,
        SidecarError::ChannelClosed => "Response channel closed"@,
        SidecarError::WorkerReported(e) => error_text(e.code, e.message@),
    }
}

impl SidecarError {
    /// The text of this error.
    pub fn message(&self) -> (r: String)
        ensures
            r@ == message_of(*self),
    {
        match self {
            SidecarError::Spawn(reason) => String::from_str("Failed to spawn sidecar: ").concat(
                reason.as_str(),
            ),
            SidecarError::StreamCapture(Stream::Stdin) => String::from_str(
                "Failed to capture stdin",
            ),
            SidecarError::StreamCapture(Stream::Stdout) => String::from_str(
                "Failed to capture stdout",
            ),
            SidecarError::StreamCapture(Stream::Stderr) => String::from_str(
                "Failed to capture stderr",
            ),
            SidecarError::AlreadyRunning => String::from_str("Sidecar already running"),
            SidecarError::NotConnected => String::from_str("Sidecar not started"),
            SidecarError::Write(reason) => String::from_str("Failed to write to sidecar: ").concat(
                reason.as_str(),
            ),
            SidecarError::Flush(reason) => String::from_str(
                "Failed to flush sidecar stdin: ",
            ).concat(reason.as_str()),
            SidecarError::Timeout => String::from_str("Sidecar call timed out after 120s"),
            SidecarError::ChannelClosed => String::from_str("Response channel closed"),
            SidecarError::WorkerReported(e) => e.to_text(),
        }
    }
}

/// Where the supervisor stands in the worker's life.
#[derive(Clone, Copy, Debug, PartialEq, Eq, Structural)]
pub enum Phase {
    Stopped,
    Starting,
    Running,
    Stopping,
}

/// How an attempt to launch the worker ended.
#[derive(Debug)]
pub enum LaunchOutcome {
    /// The worker runs and all three pipes are in hand.
    Spawned,
    /// The executable could not be launched, for the reason given.
    SpawnFailed(String),
    /// The worker was launched but the named pipe is missing.
    StreamMissing(Stream),
}

/// How the wait of one call ended.
#[derive(Debug)]
pub enum CallEvent {
    /// The request could not be written, for the reason given.
    WriteFailed(String),
    /// The request could not be flushed, for the reason given.
    FlushFailed(String),
    /// The reader delivered the worker's answer.
    Delivered(Result<JsonText, JsonRpcError>),
    /// The completion channel closed without an answer.
    Closed,
    /// The bound passed without an answer.
    TimedOut,
}

/// What a launch is made from: the executable, its arguments, and the
/// directory to run it in.
#[derive(Debug)]
pub struct LaunchSpec {
    pub program: String,
    pub args: Vec<String>,
    pub working_dir: Option<String>,
}

impl LaunchSpec {
    /// The launch of the worker from its sources: the interpreter runs the
    /// worker's module in `sidecar_dir`.
    pub fn development(sidecar_dir: String) -> (s: LaunchSpec)
        ensures
            s.program@ == "python3.11"@,
            s.args@.len() == 2,
            s.args@[0]@ == "-m"@,
            s.args@[1]@ == "fiction_translator"@,
            s.working_dir == Some(sidecar_dir),
    {
        let mut args: Vec<String> = Vec::new();
        args.push(String::from_str("-m"));
        args.push(String::from_str("fiction_translator"));
        LaunchSpec { program: String::from_str("python3.11"), args, working_dir: Some(sidecar_dir) }
    }

    /// The launch of the bundled worker at `binary`, without arguments, in
    /// the directory of the caller.
    pub fn packaged(binary: String) -> (s: LaunchSpec)
        ensures
            s.program == binary,
            s.args@.len() == 0,
            s.working_dir is None,
    {
        LaunchSpec { program: binary, args: Vec::new(), working_dir: None }
    }

    /// The file name of the bundled worker on this kind of platform.
    pub fn bundled_name(windows: bool) -> (name: &'static str)
        ensures
            windows ==> name@ == "fiction-translator-sidecar.exe"@,
            !windows ==> name@ == "fiction-translator-sidecar"@,
    {
        if windows {
            "fiction-translator-sidecar.exe"
        } else {
            "fiction-translator-sidecar"
        }
    }
}

/// The supervisor's own state. The process and its pipes are held by the
/// embedding code, which reports what happened to them.
#[derive(Debug)]
pub struct SidecarProcess {
    phase: Phase,
    connected: bool,
    stream_over: bool,
    last_error: Option<String>,
    ids: IdCounter,
}

impl SidecarProcess {
    #[verifier::type_invariant]
    spec fn connected_only_while_running(&self) -> bool {
        self.connected ==> self.phase is Running && !self.stream_over
    }

    /// Where the supervisor stands.
    pub closed spec fn phase(&self) -> Phase {
        self.phase
    }

    /// The connection flag.
    pub closed spec fn connected(&self) -> bool {
        self.connected
    }

    /// Whether the output of the worker of the latest start has ended.
    pub closed spec fn stream_over(&self) -> bool {
        self.stream_over
    }

    /// The text of the error that ended the last start, if it failed.
    pub closed spec fn last_error(&self) -> Option<Seq<char>> {
        match self.last_error {
            Some(text) => Some(text@),
            None => None,
        }
    }

    /// The identifier that the next call will carry.
    pub closed spec fn upcoming_id(&self) -> u64 {
        self.ids.upcoming()
    }

    /// A stopped supervisor whose first call will carry identifier 1.
    pub fn new() -> (s: Self)
        ensures
            s.phase() is Stopped,
            !s.connected(),
            !s.stream_over(),
            s.last_error() is None,
            s.upcoming_id() == 1,
    {
        SidecarProcess {
            phase: Phase::Stopped,
            connected: false,
            stream_over: false,
            last_error: None,
            ids: IdCounter::new(),
        }
    }

    /// The text of the error that ended the last start, if it failed.
    pub fn start_error(&self) -> (r: Option<String>)
        ensures
            text_of(r) == self.last_error(),
    {
        match &self.last_error {
            Some(text) => Some(text.clone()),
            None => None,
        }
    }

    /// Where the supervisor stands.
    pub fn current_phase(&self) -> (p: Phase)
        ensures
            p == self.phase(),
    {
        self.phase
    }

    /// The connection flag. It is set only while a worker runs whose output
    /// has not ended.
    pub fn is_connected(&self) -> (b: bool)
        ensures
            b == self.connected(),
            b ==> self.phase() is Running && !self.stream_over(),
    {
        proof {
            use_type_invariant(self);
        }
        self.connected
    }

    /// Asks for a start. A stopped supervisor goes to `Starting`, forgets
    /// that an earlier worker's output has ended, and the worker is to be
    /// launched; any other is left as it is and the start is refused.
    pub fn start(&mut self) -> (r: Result<(), SidecarError>)
        ensures
            final(self).upcoming_id() == old(self).upcoming_id(),
            final(self).connected() == old(self).connected(),
            final(self).last_error() == old(self).last_error(),
            old(self).phase() is Stopped ==> r is Ok && final(self).phase() is Starting
                && !final(self).stream_over(),
            !(old(self).phase() is Stopped) ==> r == Err::<(), SidecarError>(
                SidecarError::AlreadyRunning,
            ) && final(self).phase() == old(self).phase() && final(self).stream_over() == old(
                self,
            ).stream_over(),
    {
        proof {
            use_type_invariant(&*self);
        }
        match self.phase {
            Phase::Stopped => {
                self.stream_over = false;
                self.phase = Phase::Starting;
                Ok(())
            },
            _ => Err(SidecarError::AlreadyRunning),
        }
    }

    /// Takes in how the launch ended. A worker that runs makes the
    /// supervisor `Running`, and connected unless its output has ended
    /// already; the event to publish states the connection as it then is.
    /// A failed launch returns the supervisor to `Stopped` with the error
    /// of that attempt.
    pub fn started(&mut self, outcome: LaunchOutcome) -> (r: Result<
        SidecarStatusEvent,
        SidecarError,
    >)
        requires
            old(self).phase() is Starting,
        ensures
            final(self).upcoming_id() == old(self).upcoming_id(),
            final(self).stream_over() == old(self).stream_over(),
            match outcome {
                LaunchOutcome::Spawned => {
                    &&& final(self).phase() is Running
                    &&& final(self).connected() == !old(self).stream_over()
                    &&& final(self).last_error() is None
                    &&& r matches Ok(e) && e.connected == !old(self).stream_over()
                        && e.error is None
                },
                LaunchOutcome::SpawnFailed(reason) => {
                    &&& final(self).phase() is Stopped
                    &&& !final(self).connected()
                    &&& final(self).last_error() == Some(message_of(SidecarError::Spawn(reason)))
                    &&& r == Err::<SidecarStatusEvent, SidecarError>(SidecarError::Spawn(reason))
                },
                LaunchOutcome::StreamMissing(stream) => {
                    &&& final(self).phase() is Stopped
                    &&& !final(self).connected()
                    &&& final(self).last_error() == Some(
                        message_of(SidecarError::StreamCapture(stream)),
                    )
                    &&& r == Err::<SidecarStatusEvent, SidecarError>(
                        SidecarError::StreamCapture(stream),
                    )
                },
            },
    {
        proof {
            use_type_invariant(&*self);
        }
        match outcome {
            LaunchOutcome::Spawned => {
                self.phase = Phase::Running;
                self.last_error = None;
                if self.stream_over {
                    Ok(SidecarStatusEvent::down())
                } else {
                    self.connected = true;
                    Ok(SidecarStatusEvent::up())
                }
            },
            LaunchOutcome::SpawnFailed(reason) => {
                let error: SidecarError = SidecarError::Spawn(reason);
                self.connected = false;
                self.phase = Phase::Stopped;
                self.last_error = Some(error.message());
                Err(error)
            },
            LaunchOutcome::StreamMissing(stream) => {
                let error: SidecarError = SidecarError::StreamCapture(stream);
                self.connected = false;
                self.phase = Phase::Stopped;
                self.last_error = Some(error.message());
                Err(error)
            },
        }
    }

    /// Opens a call. While a worker runs, the request gets the next
    /// identifier and comes back with its line, to be registered and
    /// written. Otherwise the call fails at once and nothing changes.
    ///
    /// Only the phase decides: the end of the worker's output clears the
    /// connection flag but stops nothing, so a call made after it is still
    /// issued, and ends by a failed write, a closed channel or the timeout.
    pub fn call(&mut self, method: &str, params: Option<JsonText>) -> (r: Result<
        (u64, String),
        SidecarError,
    >)
        ensures
            final(self).phase() == old(self).phase(),
            final(self).connected() == old(self).connected(),
            final(self).stream_over() == old(self).stream_over(),
            final(self).last_error() == old(self).last_error(),
            old(self).phase() is Running ==> {
                &&& r matches Ok(request)
                &&& request.0 == old(self).upcoming_id()
                &&& request.1@ == request_text("2.0"@, method@, json_of(params), request.0).push(
                    '\n',
                )
                &&& single_line(request_text("2.0"@, method@, json_of(params), request.0))
                &&& final(self).upcoming_id() == issued(old(self).upcoming_id(), 1)
            },
            !(old(self).phase() is Running) ==> {
                &&& r == Err::<(u64, String), SidecarError>(SidecarError::NotConnected)
                &&& final(self).upcoming_id() == old(self).upcoming_id()
            },
    {
        proof {
            use_type_invariant(&*self);
        }
        match self.phase {
            Phase::Running => {
                let mut ids: IdCounter = self.ids;
                let request: (u64, String) = encode_request(&mut ids, method, params);
                self.ids = ids;
                Ok(request)
            },
            _ => Err(SidecarError::NotConnected),
        }
    }

    /// Asks for a stop. A running supervisor goes to `Stopping`, loses its
    /// connection, and the worker is to be killed (`true`). Any other is left
    /// as it is, with nothing to kill.
    pub fn stop(&mut self) -> (kill: bool)
        ensures
            final(self).upcoming_id() == old(self).upcoming_id(),
            final(self).stream_over() == old(self).stream_over(),
            final(self).last_error() == old(self).last_error(),
            kill == (old(self).phase() is Running),
            kill ==> final(self).phase() is Stopping && !final(self).connected(),
            !kill ==> final(self).phase() == old(self).phase() && final(self).connected() == old(
                self,
            ).connected(),
    {
        proof {
            use_type_invariant(&*self);
        }
        match self.phase {
            Phase::Running => {
                self.connected = false;
                self.phase = Phase::Stopping;
                true
            },
            _ => false,
        }
    }

    /// Takes in that the worker has exited after a kill: a stopping
    /// supervisor is stopped. Any other is left as it is.
    pub fn stopped(&mut self)
        ensures
            final(self).upcoming_id() == old(self).upcoming_id(),
            final(self).connected() == old(self).connected(),
            final(self).stream_over() == old(self).stream_over(),
            final(self).last_error() == old(self).last_error(),
            old(self).phase() is Stopping ==> final(self).phase() is Stopped,
            !(old(self).phase() is Stopping) ==> final(self).phase() == old(self).phase(),
    {
        proof {
            use_type_invariant(&*self);
        }
        match self.phase {
            Phase::Stopping => {
                self.phase = Phase::Stopped;
            },
            _ => {},
        }
    }

    /// Takes in that the worker's output has ended: the connection is
    /// lost, and stays lost until the next start; the event to publish
    /// comes back.
    pub fn stream_ended(&mut self) -> (e: SidecarStatusEvent)
        ensures
            final(self).phase() == old(self).phase(),
            final(self).upcoming_id() == old(self).upcoming_id(),
            final(self).last_error() == old(self).last_error(),
            final(self).stream_over(),
            !final(self).connected(),
            !e.connected,
            e.error is None,
    {
        proof {
            use_type_invariant(&*self);
        }
        self.connected = false;
        self.stream_over = true;
        SidecarStatusEvent::down()
    }
}

/// What the caller of call `id` gets once its wait has ended, and the
/// table of calls in flight after it.
pub open spec fn settled<H>(m: Map<u64, H>, id: u64, event: CallEvent) -> (
    Map<u64, H>,
    Result<JsonText, SidecarError>,
) {
    match event {
        CallEvent::WriteFailed(reason) => (m.remove(id), Err(SidecarError::Write(reason))),
        CallEvent::FlushFailed(reason) => (m.remove(id), Err(SidecarError::Flush(reason))),
        CallEvent::Delivered(Ok(value)) => (m, Ok(value)),
        CallEvent::Delivered(Err(e)) => (m, Err(SidecarError::WorkerReported(e))),
        CallEvent::Closed => (m, Err(SidecarError::ChannelClosed)),
        CallEvent::TimedOut => (m.remove(id), Err(SidecarError::Timeout)),
    }
}

/// Ends call `id`. An answer goes to the caller as it came. A timeout, and
/// a request that could not be sent, take the call out of the table, so
/// that an answer that comes later finds nothing to complete.
pub fn settle<H>(table: &mut PendingCalls<H>, id: u64, event: CallEvent) -> (r: Result<
    JsonText,
    SidecarError,
>)
    ensures
        (final(table)@, r) == settled(old(table)@, id, event),
{
    match event {
        CallEvent::WriteFailed(reason) => {
            table.expire(id);
            Err(SidecarError::Write(reason))
        },
        CallEvent::FlushFailed(reason) => {
            table.expire(id);
            Err(SidecarError::Flush(reason))
        },
        CallEvent::Delivered(Ok(value)) => Ok(value),
        CallEvent::Delivered(Err(e)) => Err(SidecarError::WorkerReported(e)),
        CallEvent::Closed => Err(SidecarError::ChannelClosed),
        CallEvent::TimedOut => {
            table.expire(id);
            Err(SidecarError::Timeout)
        },
    }
}

/// Takes in that the worker's output has ended: the connection is lost,
/// every call in flight is dropped from the table, so that its caller sees
/// the channel closed, and the event to publish comes back.
pub fn end_of_stream<H>(table: &mut PendingCalls<H>, supervisor: &mut SidecarProcess) -> (e:
    SidecarStatusEvent)
    ensures
        final(table)@ == Map::<u64, H>::empty(),
        !final(supervisor).connected(),
        final(supervisor).stream_over(),
        final(supervisor).phase() == old(supervisor).phase(),
        final(supervisor).upcoming_id() == old(supervisor).upcoming_id(),
        final(supervisor).last_error() == old(supervisor).last_error(),
        !e.connected,
        e.error is None,
{
    table.close();
    supervisor.stream_ended()
}

/// Stops the supervisor and tears the transport down: every call in flight
/// is dropped from the table, so that its caller sees the channel closed
/// and no entry is left that nothing can complete. The worker is to be
/// killed where `true` comes back, as `SidecarProcess::stop` says.
pub fn shut_down<H>(table: &mut PendingCalls<H>, supervisor: &mut SidecarProcess) -> (kill: bool)
    ensures
        final(table)@ == Map::<u64, H>::empty(),
        final(supervisor).upcoming_id() == old(supervisor).upcoming_id(),
        final(supervisor).stream_over() == old(supervisor).stream_over(),
        final(supervisor).last_error() == old(supervisor).last_error(),
        kill == (old(supervisor).phase() is Running),
        kill ==> final(supervisor).phase() is Stopping && !final(supervisor).connected(),
        !kill ==> final(supervisor).phase() == old(supervisor).phase(),
        !kill ==> final(supervisor).connected() == old(supervisor).connected(),
{
    table.close();
    supervisor.stop()
}

/// Once a call has timed out, an answer that comes for it is passed over
/// and leaves the table as the timeout left it.
pub proof fn lemma_answer_after_timeout_is_skipped<H>(m: Map<u64, H>, id: u64, r: ResponseView)
    requires
        r.id == Some(id),
    ensures
        !settled(m, id, CallEvent::TimedOut).0.contains_key(id),
        dispatched(settled(m, id, CallEvent::TimedOut).0, LineKind::Response(r)) == (
            settled(m, id, CallEvent::TimedOut).0,
            ActionView::<H>::Skip,
        ),
{
}

} // verus!
