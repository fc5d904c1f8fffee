use crate::queue::{receive_within, send_value, Received};
use crate::types::{level_name, LoggingChannel, LoggingMessage};
use vstd::prelude::*;

verus! {

/// How long the worker waits for a message before a heartbeat cycle.
pub const HEARTBEAT_MILLIS: u64 = 200;

/// The line for one message:
/// `<source> - <LEVEL> - <timestamp> - <text>` and a newline.
pub open spec fn log_line(msg: LoggingMessage) -> Seq<char> {
    msg.source() + " - "@ + level_name(msg.spec_level()) + " - "@ + msg.stamp().text() + " - "@
        + msg.text() + "\n"@
}

/// Formats a message into the line that the sinks receive.
pub fn create_log_line(msg: &LoggingMessage) -> (r: String)
    ensures
        r@ == log_line(*msg),
{
    let mut line = msg.from().clone();
    line.append(" - ");
    line.append(msg.level().name());
    line.append(" - ");
    line.append(msg.when().render().as_str());
    line.append(" - ");
    line.append(msg.msg().as_str());
    line.append("\n");
    line
}

/// Formatting depends on the message's source, level, timestamp and text
/// alone: two messages that agree on those give the same line.
pub proof fn lemma_line_deterministic(a: LoggingMessage, b: LoggingMessage)
    requires
        a.source() == b.source(),
        a.spec_level() == b.spec_level(),
        a.stamp() == b.stamp(),
        a.text() == b.text(),
    ensures
        log_line(a) == log_line(b),
{
}

/// Why the backend configuration was refused.
#[derive(Clone, Copy, Debug, PartialEq, Eq, Structural)]
pub enum ConfigError {
    /// Writing log files into a folder is not supported.
    FolderUnsupported,
}

/// Why a line could not be handed to the forwarding channel.
#[derive(Clone, Copy, Debug, PartialEq, Eq, Structural)]
pub enum SinkError {
    /// The backend was configured without a forwarding channel.
    NoChannel,
    /// Every receiver of the forwarding channel is gone.
    Closed,
}

/// Configuration of a logging backend: the worker's name and the sinks it
/// writes to. A new configuration writes nowhere.
pub struct Backend {
    name: String,
    to_channel: Option<crossbeam::channel::Sender<String>>,
    to_stdout: bool,
}

impl Backend {
    /// The worker's name.
    pub closed spec fn spec_name(self) -> Seq<char> {
        self.name@
    }

    /// Whether lines go to a forwarding channel.
    pub closed spec fn forwards(self) -> bool {
        self.to_channel is Some
    }

    /// Whether lines go to standard output.
    pub closed spec fn prints(self) -> bool {
        self.to_stdout
    }

    /// The worker's name.
    pub fn worker_name(&self) -> (r: &str)
        ensures
            r@ == self.spec_name(),
    {
        self.name.as_str()
    }

    /// Whether lines go to a forwarding channel.
    pub fn has_channel(&self) -> (r: bool)
        ensures
            r == self.forwards(),
    {
        self.to_channel.is_some()
    }

    /// Whether lines go to standard output.
    pub fn has_stdout(&self) -> (r: bool)
        ensures
            r == self.prints(),
    {
        self.to_stdout
    }

    /// A configuration named `Logging-backend` with no sink.
    pub fn new() -> (r: Backend)
        ensures
            r.spec_name() == "Logging-backend"@,
            !r.forwards(),
            !r.prints(),
    {
        Backend { name: "Logging-backend".to_owned(), to_channel: None, to_stdout: false }
    }

    /// Sets the name of the worker.
    pub fn name(self, name: &str) -> (r: Backend)
        ensures
            r.spec_name() == name@,
            r.forwards() == self.forwards(),
            r.prints() == self.prints(),
    {
        Backend { name: name.to_owned(), ..self }
    }

    /// Adds a sink that receives each line on `channel`.
    pub fn to_channel(self, channel: &crossbeam::channel::Sender<String>) -> (r: Backend)
        ensures
            r.spec_name() == self.spec_name(),
            r.forwards(),
            r.prints() == self.prints(),
    {
        Backend { to_channel: Some(channel.clone()), ..self }
    }

    /// Adds standard output as a sink.
    pub fn to_stdout(self) -> (r: Backend)
        ensures
            r.spec_name() == self.spec_name(),
            r.forwards() == self.forwards(),
            r.prints(),
    {
        Backend { to_stdout: true, ..self }
    }

    /// Asks for log files in a folder, which is refused: no file sink
    /// exists.
    pub fn to_folder(self, _filepath: &std::path::PathBuf) -> (r: Result<Backend, ConfigError>)
        ensures
            r == Err::<Backend, ConfigError>(ConfigError::FolderUnsupported),
    {
        Err(ConfigError::FolderUnsupported)
    }

    /// Creates the message queue and hands back its producing end for the
    /// clients, and the worker that owns its consuming end with this
    /// configuration.
    pub fn build(self) -> (r: (LoggingChannel, Worker))
        ensures
            r.1.spec_settings() == self,
    {
        let (tx, rx) = crossbeam::channel::unbounded::<LoggingMessage>();
        (LoggingChannel { channel: tx }, Worker { receiver: rx, settings: self })
    }
}

/// What the worker's wait for the next message brought.
pub enum WorkerEvent {
    /// A message arrived.
    Received(LoggingMessage),
    /// No message came within the heartbeat wait.
    Idle,
    /// The queue is empty and every client handle is gone.
    Closed,
}

/// What the worker does in one cycle: the line for standard output, the
/// line for the forwarding channel, and whether it waits again afterwards.
pub struct Step {
    pub stdout: Option<String>,
    pub forward: Option<String>,
    pub keep_running: bool,
}

/// `step` is the cycle that a backend configured as `settings` runs on
/// `event`: a received message becomes its line on every configured sink
/// and on no other; a heartbeat writes nothing; a closed queue writes nothing
/// and ends the worker.
pub open spec fn step_for(settings: Backend, event: WorkerEvent, step: Step) -> bool {
    &&& step.keep_running == !(event is Closed)
    &&& match event {
        WorkerEvent::Received(m) => {
            &&& (step.stdout is Some <==> settings.prints())
            &&& (step.stdout is Some ==> step.stdout.unwrap()@ == log_line(m))
            &&& (step.forward is Some <==> settings.forwards())
            &&& (step.forward is Some ==> step.forward.unwrap()@ == log_line(m))
        },
        _ => step.stdout is None && step.forward is None,
    }
}

/// A heartbeat cycle, where no message came, writes nothing to any sink and
/// keeps the worker waiting.
pub proof fn lemma_idle_is_silent(settings: Backend, step: Step)
    requires
        step_for(settings, WorkerEvent::Idle, step),
    ensures
        step.stdout is None,
        step.forward is None,
        step.keep_running,
{
}

impl Backend {
    /// Decides one cycle of the worker for `event`.
    pub fn plan(&self, event: WorkerEvent) -> (r: Step)
        ensures
            step_for(*self, event, r),
    {
        match event {
            WorkerEvent::Received(m) => {
                let line = create_log_line(&m);
                let stdout = if self.to_stdout {
                    Some(line.clone())
                } else {
                    None
                };
                let forward = match &self.to_channel {
                    Some(_) => Some(line),
                    None => None,
                };
                Step { stdout, forward, keep_running: true }
            },
            WorkerEvent::Idle => Step { stdout: None, forward: None, keep_running: true },
            WorkerEvent::Closed => Step { stdout: None, forward: None, keep_running: false },
        }
    }
}

/// The backend's worker: the consuming end of the message queue and the
/// configuration it dispatches by.
pub struct Worker {
    receiver: crossbeam::channel::Receiver<LoggingMessage>,
    settings: Backend,
}

impl Worker {
    /// The configuration the worker dispatches by.
    pub closed spec fn spec_settings(self) -> Backend {
        self.settings
    }

    /// The configuration the worker dispatches by.
    pub fn settings(&self) -> (r: &Backend)
        ensures
            *r == self.spec_settings(),
    {
        &self.settings
    }

    /// Waits up to the heartbeat interval for the next message.
    pub fn wait(&self) -> (r: WorkerEvent) {
        match receive_within(&self.receiver, HEARTBEAT_MILLIS) {
            Received::Value(m) => WorkerEvent::Received(m),
            Received::Nothing => WorkerEvent::Idle,
            Received::Closed => WorkerEvent::Closed,
        }
    }

    /// Waits for the next event and decides the cycle for it.
    pub fn next_step(&self) -> (r: Step)
        ensures
            exists|e: WorkerEvent| step_for(self.spec_settings(), e, r),
    {
        let event = self.wait();
        let ghost seen = event;
        let r = self.settings.plan(event);
        assert(step_for(self.settings, seen, r));
        r
    }

    /// Hands `line` to the forwarding channel. A failure here touches no
    /// other sink and leaves the worker running.
    pub fn forward(&self, line: String) -> (r: Result<(), SinkError>)
        ensures
            !self.spec_settings().forwards() ==> r == Err::<(), SinkError>(SinkError::NoChannel),
            self.spec_settings().forwards() ==> (r is Ok || r == Err::<(), SinkError>(SinkError::Closed)),
    {
        match &self.settings.to_channel {
            Some(tx) => match send_value(tx, line) {
                Ok(()) => Ok(()),
                Err(_) => Err(SinkError::Closed),
            },
            None => Err(SinkError::NoChannel),
        }
    }
}

} // verus!
