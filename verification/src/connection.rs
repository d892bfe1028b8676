//! The client's connection lifecycle: the supervisor's decisions, the session state machine
//! and the decisions of the workers that run while streaming.
//!
//! Nothing here performs I/O. The caller runs the sockets, the threads and the clock, reports
//! what happened as an event and carries out the command that it gets back.

use crate::units::{elapsed_since, time_since, NANOS_PER_MILLI};
use vstd::prelude::*;

verus! {

/// Pause between two discovery rounds.
pub const DISCOVERY_RETRY_PAUSE: u64 = 500_000_000;

/// Shortest wait after a failed broadcast before discovery restarts.
pub const RETRY_CONNECT_MIN_INTERVAL: u64 = 1_000_000_000;

/// Pause of the supervisor between two session attempts.
pub const CONNECTION_RETRY_INTERVAL: u64 = 1_000_000_000;

/// Time allowed for one step of the handshake.
pub const HANDSHAKE_ACTION_TIMEOUT: u64 = 2_000_000_000;

/// Longest time a blocking receive may take while streaming.
pub const STREAMING_RECV_TIMEOUT: u64 = 500_000_000;

/// Packets that may wait unread on one stream before the oldest is dropped.
pub const MAX_UNREAD_PACKETS: usize = 10;

/// The state of the connection that all threads of the client observe.
#[derive(Clone, Copy, PartialEq, Eq, Debug, Structural)]
pub enum ConnectionState {
    Disconnected,
    Connecting,
    Streaming,
    Disconnecting,
}

/// The coarse state that the hosting application sets.
#[derive(Clone, Copy, PartialEq, Eq, Debug, Structural)]
pub enum LifecycleState {
    Idle,
    Resumed,
    ShuttingDown,
}

/// Whether the workers of a session may keep running.
pub fn is_streaming(state: ConnectionState) -> (r: bool)
    ensures
        r == (state == ConnectionState::Streaming),
{
    state == ConnectionState::Streaming
}

/// What the supervisor does in one turn of its loop.
#[derive(Clone, Copy, PartialEq, Eq, Debug, Structural)]
pub enum LifecycleAction {
    /// Leave the loop.
    Exit,
    /// Run one session, then set the state to `Disconnected`, notify and pause.
    AttemptSession,
    /// Run no session; set the state to `Disconnected`, notify and pause.
    Skip,
}

/// The supervisor's decision for a lifecycle state.
pub open spec fn lifecycle_decision(lifecycle: LifecycleState) -> LifecycleAction {
    match lifecycle {
        LifecycleState::ShuttingDown => LifecycleAction::Exit,
        LifecycleState::Resumed => LifecycleAction::AttemptSession,
        LifecycleState::Idle => LifecycleAction::Skip,
    }
}

/// Decides one turn of the supervisor's loop: sessions are attempted only while resumed, and
/// the loop ends on shutdown.
pub fn connection_lifecycle_step(lifecycle: LifecycleState) -> (r: LifecycleAction)
    ensures
        r == lifecycle_decision(lifecycle),
        r == LifecycleAction::Exit <==> lifecycle == LifecycleState::ShuttingDown,
        r == LifecycleAction::AttemptSession <==> lifecycle == LifecycleState::Resumed,
{
    match lifecycle {
        LifecycleState::ShuttingDown => LifecycleAction::Exit,
        LifecycleState::Resumed => LifecycleAction::AttemptSession,
        LifecycleState::Idle => LifecycleAction::Skip,
    }
}

/// A message for the user.
#[derive(Clone, Copy, PartialEq, Eq, Debug, Structural)]
pub enum HudMessage {
    Initial,
    NetworkUnreachable,
    StreamStarting,
    ServerRestart,
    ServerDisconnected,
    ConnectionTimeout,
    UnexpectedPacket,
}

impl HudMessage {
    /// The exact text of the message.
    pub open spec fn spec_text(self) -> Seq<char> {
        match self {
            HudMessage::Initial =>
                "Searching for streamer...\nOpen ALVR on your PC then click \"Trust\"\nnext to the client entry"@,
            HudMessage::NetworkUnreachable => "Cannot connect to the internet"@,
            HudMessage::StreamStarting => "The stream will begin soon\nPlease wait..."@,
            HudMessage::ServerRestart => "The streamer is restarting\nPlease wait..."@,
            HudMessage::ServerDisconnected => "The streamer has disconnected."@,
            HudMessage::ConnectionTimeout => "Connection timeout."@,
            HudMessage::UnexpectedPacket => "Unexpected packet"@,
        }
    }

    /// The text of the message.
    pub fn text(self) -> (r: String)
        ensures
            r@ == self.spec_text(),
    {
        match self {
            HudMessage::Initial => String::from_str(
                "Searching for streamer...\nOpen ALVR on your PC then click \"Trust\"\nnext to the client entry",
            ),
            HudMessage::NetworkUnreachable => String::from_str("Cannot connect to the internet"),
            HudMessage::StreamStarting => String::from_str(
                "The stream will begin soon\nPlease wait...",
            ),
            HudMessage::ServerRestart => String::from_str(
                "The streamer is restarting\nPlease wait...",
            ),
            HudMessage::ServerDisconnected => String::from_str("The streamer has disconnected."),
            HudMessage::ConnectionTimeout => String::from_str("Connection timeout."),
            HudMessage::UnexpectedPacket => String::from_str("Unexpected packet"),
        }
    }
}

/// The text shown on the headset: a header with version, host name and address, an empty
/// line, then the message.
pub open spec fn hud_text(
    version: Seq<char>,
    hostname: Seq<char>,
    ip: Seq<char>,
    message: Seq<char>,
) -> Seq<char> {
    "ALVR v"@ + version + "\nhostname: "@ + hostname + "\nIP: "@ + ip + "\n\n"@ + message
}

/// Builds the text shown on the headset for a message.
pub fn hud_message(version: &str, hostname: &str, ip: &str, message: &str) -> (r: String)
    ensures
        r@ == hud_text(version@, hostname@, ip@, message@),
{
    let mut text = String::from_str("ALVR v");
    text.append(version);
    text.append("\nhostname: ");
    text.append(hostname);
    text.append("\nIP: ");
    text.append(ip);
    text.append("\n\n");
    text.append(message);
    text
}

/// The message that reports a session that ended with an error.
pub open spec fn connection_error_text(cause: Seq<char>) -> Seq<char> {
    "Connection error:\n"@ + cause + "\nCheck the PC for more details"@
}

/// Builds the message that reports a session that ended with an error.
pub fn connection_error_message(cause: &str) -> (r: String)
    ensures
        r@ == connection_error_text(cause@),
{
    let mut text = String::from_str("Connection error:\n");
    text.append(cause);
    text.append("\nCheck the PC for more details");
    text
}

/// How far a session has come.
#[derive(Clone, Copy, PartialEq, Eq, Debug, Structural)]
pub enum SessionStage {
    /// Announcing the client and trying to reach the server.
    Discovering,
    /// The capabilities are being sent and the stream configuration is awaited.
    Handshaking,
    /// The server's decision to start the stream is awaited.
    AwaitingStart,
    /// The stream socket is being opened.
    OpeningStream,
    /// The workers run.
    Streaming,
    /// The senders are cleared and the workers are being joined.
    Disconnecting,
    /// The session is over.
    Ended,
}

/// What happened since the last command.
#[derive(Clone, Copy, PartialEq, Eq, Debug, Structural)]
pub enum SessionEvent {
    /// The lifecycle is no longer resumed.
    LifecycleNotResumed,
    /// The announcement could not be broadcast.
    BroadcastFailed,
    /// No server answered within the discovery pause.
    ServerNotFound,
    /// The control connection to the server stands.
    ServerFound,
    /// The stream configuration arrived and was understood.
    ConfigReceived,
    /// The server starts the stream.
    StartStream,
    /// The server restarts.
    Restarting,
    /// Another control packet arrived where a start was awaited.
    UnexpectedPacket,
    /// The control channel failed or timed out where a start was awaited.
    ControlReceiveFailed,
    /// The readiness of the stream socket could not be sent.
    StreamReadyFailed,
    /// The server's stream connection was accepted.
    StreamAccepted,
    /// A step of the setup failed with a terminal error.
    SetupFailed,
    /// A worker asked for the end of the session.
    DisconnectSignalled,
    /// Every worker has been joined.
    WorkersJoined,
}

/// What the caller does next.
#[derive(Clone, Copy, PartialEq, Eq, Debug, Structural)]
pub enum SessionCommand {
    /// Check the lifecycle, broadcast the announcement and try to reach the server once.
    Discover,
    /// Wait `RETRY_CONNECT_MIN_INTERVAL`, show the initial message and end the session.
    BackOff,
    /// Send the capabilities and await the stream configuration.
    Handshake,
    /// Split the control socket and await the server's decision.
    AwaitStart,
    /// Listen for the stream, send the readiness and accept the server's connection.
    OpenStream,
    /// Install the senders, publish the start of streaming, run the workers and wait for a
    /// disconnect signal.
    Stream,
    /// Clear the senders, publish the end of streaming and join every worker.
    TearDown,
    /// End the session without an error.
    End,
    /// End the session and report the error.
    Fail,
    /// Nothing: the event does not belong to the stage.
    Ignore,
}

/// One session of the client.
#[derive(Clone, Copy, PartialEq, Eq, Debug, Structural)]
pub struct Session {
    pub stage: SessionStage,
    pub state: ConnectionState,
    pub senders_installed: bool,
}

/// What a session tells the hosting application about the stream.
#[derive(Clone, Copy, PartialEq, Eq, Debug, Structural)]
pub enum StreamEvent {
    StreamingStarted,
    StreamingStopped,
}

/// The result of one step of a session.
#[derive(Clone, Copy, PartialEq, Eq, Debug, Structural)]
pub struct SessionStep {
    pub session: Session,
    /// The message to show, if any.
    pub hud: Option<HudMessage>,
    /// The event to publish to the hosting application, if any.
    pub publish: Option<StreamEvent>,
    pub command: SessionCommand,
}

impl SessionCommand {
    /// The event that goes with a command: the start of streaming as the workers start, its
    /// end as they are torn down.
    pub open spec fn published(self) -> Option<StreamEvent> {
        match self {
            SessionCommand::Stream => Some(StreamEvent::StreamingStarted),
            SessionCommand::TearDown => Some(StreamEvent::StreamingStopped),
            _ => None,
        }
    }
}

impl SessionStage {
    /// The connection state that goes with a stage.
    pub open spec fn connection_state(self) -> ConnectionState {
        match self {
            SessionStage::Discovering | SessionStage::Ended => ConnectionState::Disconnected,
            SessionStage::Handshaking | SessionStage::AwaitingStart | SessionStage::OpeningStream =>
                ConnectionState::Connecting,
            SessionStage::Streaming => ConnectionState::Streaming,
            SessionStage::Disconnecting => ConnectionState::Disconnecting,
        }
    }
}

/// Whether the connection state may change from `from` to `to` in one step: along
/// `Disconnected`, `Connecting`, `Streaming`, `Disconnecting`, `Disconnected`, or from
/// `Connecting` back to `Disconnected` where the setup ends early.
pub open spec fn state_may_follow(from: ConnectionState, to: ConnectionState) -> bool {
    ||| from == to
    ||| (from == ConnectionState::Disconnected && to == ConnectionState::Connecting)
    ||| (from == ConnectionState::Connecting && to == ConnectionState::Streaming)
    ||| (from == ConnectionState::Connecting && to == ConnectionState::Disconnected)
    ||| (from == ConnectionState::Streaming && to == ConnectionState::Disconnecting)
    ||| (from == ConnectionState::Disconnecting && to == ConnectionState::Disconnected)
}

impl Session {
    /// The session in a given stage, with the state and the senders that belong to it.
    pub open spec fn at(stage: SessionStage) -> Session {
        Session {
            stage,
            state: stage.connection_state(),
            senders_installed: stage == SessionStage::Streaming,
        }
    }

    /// The state follows the stage, and the senders are installed exactly while streaming.
    pub open spec fn well_formed(self) -> bool {
        self == Session::at(self.stage)
    }

    /// The outcome of an event that ends the session without an error.
    pub open spec fn ended(hud: Option<HudMessage>, command: SessionCommand) -> SessionStep {
        Session::moved(SessionStage::Ended, hud, command)
    }

    /// The outcome of an event that moves the session on to `stage`.
    pub open spec fn moved(
        stage: SessionStage,
        hud: Option<HudMessage>,
        command: SessionCommand,
    ) -> SessionStep {
        SessionStep { session: Session::at(stage), hud, publish: command.published(), command }
    }

    /// The outcome of an event that the stage does not expect: nothing changes.
    pub open spec fn ignored(self) -> SessionStep {
        SessionStep { session: self, hud: None, publish: None, command: SessionCommand::Ignore }
    }

    /// The transition table of a session.
    pub open spec fn step(self, event: SessionEvent) -> SessionStep {
        match (self.stage, event) {
            (SessionStage::Discovering, SessionEvent::LifecycleNotResumed) => Session::ended(
                None,
                SessionCommand::End,
            ),
            (SessionStage::Discovering, SessionEvent::BroadcastFailed) => Session::ended(
                Some(HudMessage::NetworkUnreachable),
                SessionCommand::BackOff,
            ),
            (SessionStage::Discovering, SessionEvent::ServerNotFound) => Session::moved(
                SessionStage::Discovering,
                None,
                SessionCommand::Discover,
            ),
            (SessionStage::Discovering, SessionEvent::ServerFound) => Session::moved(
                SessionStage::Handshaking,
                None,
                SessionCommand::Handshake,
            ),
            (SessionStage::Handshaking, SessionEvent::ConfigReceived) => Session::moved(
                SessionStage::AwaitingStart,
                None,
                SessionCommand::AwaitStart,
            ),
            (SessionStage::AwaitingStart, SessionEvent::StartStream) => Session::moved(
                SessionStage::OpeningStream,
                Some(HudMessage::StreamStarting),
                SessionCommand::OpenStream,
            ),
            (SessionStage::AwaitingStart, SessionEvent::Restarting) => Session::ended(
                Some(HudMessage::ServerRestart),
                SessionCommand::End,
            ),
            (SessionStage::AwaitingStart, SessionEvent::ControlReceiveFailed) => Session::ended(
                Some(HudMessage::ServerDisconnected),
                SessionCommand::End,
            ),
            (SessionStage::AwaitingStart, SessionEvent::UnexpectedPacket) => Session::ended(
                Some(HudMessage::UnexpectedPacket),
                SessionCommand::End,
            ),
            (SessionStage::OpeningStream, SessionEvent::StreamReadyFailed) => Session::ended(
                Some(HudMessage::ServerDisconnected),
                SessionCommand::End,
            ),
            (SessionStage::OpeningStream, SessionEvent::StreamAccepted) => Session::moved(
                SessionStage::Streaming,
                None,
                SessionCommand::Stream,
            ),
            (SessionStage::Discovering, SessionEvent::SetupFailed)
            | (SessionStage::Handshaking, SessionEvent::SetupFailed)
            | (SessionStage::AwaitingStart, SessionEvent::SetupFailed)
            | (SessionStage::OpeningStream, SessionEvent::SetupFailed) => Session::ended(
                None,
                SessionCommand::Fail,
            ),
            (SessionStage::Streaming, SessionEvent::DisconnectSignalled) => Session::moved(
                SessionStage::Disconnecting,
                None,
                SessionCommand::TearDown,
            ),
            (SessionStage::Disconnecting, SessionEvent::WorkersJoined) => Session::ended(
                None,
                SessionCommand::End,
            ),
            _ => self.ignored(),
        }
    }

    /// The session after a run of events.
    pub open spec fn run(self, events: Seq<SessionEvent>) -> Session
        decreases events.len(),
    {
        if events.len() == 0 {
            self
        } else {
            self.step(events.first()).session.run(events.drop_first())
        }
    }

    /// A session that has not begun: the caller starts with `SessionCommand::Discover`.
    pub fn new() -> (r: Session)
        ensures
            r == Session::at(SessionStage::Discovering),
            r.well_formed(),
            r.state == ConnectionState::Disconnected,
            !r.senders_installed,
    {
        Session {
            stage: SessionStage::Discovering,
            state: ConnectionState::Disconnected,
            senders_installed: false,
        }
    }

    fn enter(stage: SessionStage, hud: Option<HudMessage>, command: SessionCommand) -> (r:
        SessionStep)
        ensures
            r == Session::moved(stage, hud, command),
    {
        let state = match stage {
            SessionStage::Discovering | SessionStage::Ended => ConnectionState::Disconnected,
            SessionStage::Handshaking | SessionStage::AwaitingStart | SessionStage::OpeningStream =>
                ConnectionState::Connecting,
            SessionStage::Streaming => ConnectionState::Streaming,
            SessionStage::Disconnecting => ConnectionState::Disconnecting,
        };
        let publish = match command {
            SessionCommand::Stream => Some(StreamEvent::StreamingStarted),
            SessionCommand::TearDown => Some(StreamEvent::StreamingStopped),
            _ => None,
        };
        SessionStep {
            session: Session { stage, state, senders_installed: stage == SessionStage::Streaming },
            hud,
            publish,
            command,
        }
    }

    /// Takes one event and says how the session goes on: the new session, the message to show,
    /// the event to publish and the command to carry out.
    pub fn advance(self, event: SessionEvent) -> (r: SessionStep)
        ensures
            r == self.step(event),
            self.well_formed() ==> r.session.well_formed(),
            self.well_formed() ==> state_may_follow(self.state, r.session.state),
    {
        let ignored = SessionStep {
            session: self,
            hud: None,
            publish: None,
            command: SessionCommand::Ignore,
        };
        match self.stage {
            SessionStage::Discovering => match event {
                SessionEvent::LifecycleNotResumed => Session::enter(
                    SessionStage::Ended,
                    None,
                    SessionCommand::End,
                ),
                SessionEvent::BroadcastFailed => Session::enter(
                    SessionStage::Ended,
                    Some(HudMessage::NetworkUnreachable),
                    SessionCommand::BackOff,
                ),
                SessionEvent::ServerNotFound => Session::enter(
                    SessionStage::Discovering,
                    None,
                    SessionCommand::Discover,
                ),
                SessionEvent::ServerFound => Session::enter(
                    SessionStage::Handshaking,
                    None,
                    SessionCommand::Handshake,
                ),
                SessionEvent::SetupFailed => Session::enter(
                    SessionStage::Ended,
                    None,
                    SessionCommand::Fail,
                ),
                _ => ignored,
            },
            SessionStage::Handshaking => match event {
                SessionEvent::ConfigReceived => Session::enter(
                    SessionStage::AwaitingStart,
                    None,
                    SessionCommand::AwaitStart,
                ),
                SessionEvent::SetupFailed => Session::enter(
                    SessionStage::Ended,
                    None,
                    SessionCommand::Fail,
                ),
                _ => ignored,
            },
            SessionStage::AwaitingStart => match event {
                SessionEvent::StartStream => Session::enter(
                    SessionStage::OpeningStream,
                    Some(HudMessage::StreamStarting),
                    SessionCommand::OpenStream,
                ),
                SessionEvent::Restarting => Session::enter(
                    SessionStage::Ended,
                    Some(HudMessage::ServerRestart),
                    SessionCommand::End,
                ),
                SessionEvent::ControlReceiveFailed => Session::enter(
                    SessionStage::Ended,
                    Some(HudMessage::ServerDisconnected),
                    SessionCommand::End,
                ),
                SessionEvent::UnexpectedPacket => Session::enter(
                    SessionStage::Ended,
                    Some(HudMessage::UnexpectedPacket),
                    SessionCommand::End,
                ),
                SessionEvent::SetupFailed => Session::enter(
                    SessionStage::Ended,
                    None,
                    SessionCommand::Fail,
                ),
                _ => ignored,
            },
            SessionStage::OpeningStream => match event {
                SessionEvent::StreamReadyFailed => Session::enter(
                    SessionStage::Ended,
                    Some(HudMessage::ServerDisconnected),
                    SessionCommand::End,
                ),
                SessionEvent::StreamAccepted => Session::enter(
                    SessionStage::Streaming,
                    None,
                    SessionCommand::Stream,
                ),
                SessionEvent::SetupFailed => Session::enter(
                    SessionStage::Ended,
                    None,
                    SessionCommand::Fail,
                ),
                _ => ignored,
            },
            SessionStage::Streaming => match event {
                SessionEvent::DisconnectSignalled => Session::enter(
                    SessionStage::Disconnecting,
                    None,
                    SessionCommand::TearDown,
                ),
                _ => ignored,
            },
            SessionStage::Disconnecting => match event {
                SessionEvent::WorkersJoined => Session::enter(
                    SessionStage::Ended,
                    None,
                    SessionCommand::End,
                ),
                _ => ignored,
            },
            SessionStage::Ended => ignored,
        }
    }
}

/// One step keeps a session well formed and moves the connection state only along the cycle
/// `Disconnected`, `Connecting`, `Streaming`, `Disconnecting`, `Disconnected`; a session leaves
/// the cycle early only from `Connecting`, back to `Disconnected`.
pub proof fn lemma_step_keeps_order(session: Session, event: SessionEvent)
    requires
        session.well_formed(),
    ensures
        session.step(event).session.well_formed(),
        state_may_follow(session.state, session.step(event).session.state),
        session.step(event).session.state == ConnectionState::Streaming ==> session.state
            == ConnectionState::Connecting || session.state == ConnectionState::Streaming,
        session.step(event).session.state == ConnectionState::Disconnecting ==> session.state
            == ConnectionState::Streaming || session.state == ConnectionState::Disconnecting,
{
}

/// The start of streaming is published exactly with the step into `Streaming`, and its end
/// exactly with the step into `Disconnecting`, where the senders are cleared.
pub proof fn lemma_stream_events(session: Session, event: SessionEvent)
    requires
        session.well_formed(),
    ensures
        session.step(event).publish == Some(StreamEvent::StreamingStarted) <==> session.state
            == ConnectionState::Connecting && session.step(event).session.state
            == ConnectionState::Streaming,
        session.step(event).publish == Some(StreamEvent::StreamingStopped) <==> session.state
            == ConnectionState::Streaming && session.step(event).session.state
            == ConnectionState::Disconnecting,
        session.step(event).publish == Some(StreamEvent::StreamingStopped)
            ==> !session.step(event).session.senders_installed,
{
}

/// A session is over exactly when it is told to end, to fail or to back off; a session that
/// is over is disconnected and holds no senders.
pub proof fn lemma_ended_session_is_disconnected(session: Session, event: SessionEvent)
    requires
        session.well_formed(),
    ensures
        ({
            let step = session.step(event);
            &&& (step.command == SessionCommand::End || step.command == SessionCommand::Fail
                || step.command == SessionCommand::BackOff) ==> step.session.stage
                == SessionStage::Ended
            &&& step.session.stage == SessionStage::Ended ==> step.session.state
                == ConnectionState::Disconnected && !step.session.senders_installed
        }),
{
}

/// Whatever events arrive, the senders of a session that began disconnected are installed
/// exactly while its state is `Streaming`.
pub proof fn lemma_senders_only_while_streaming(events: Seq<SessionEvent>)
    ensures
        Session::at(SessionStage::Discovering).run(events).well_formed(),
        Session::at(SessionStage::Discovering).run(events).senders_installed <==> Session::at(
            SessionStage::Discovering,
        ).run(events).state == ConnectionState::Streaming,
{
    lemma_run_well_formed(Session::at(SessionStage::Discovering), events);
}

/// A run of events keeps a session well formed.
pub proof fn lemma_run_well_formed(session: Session, events: Seq<SessionEvent>)
    requires
        session.well_formed(),
    ensures
        session.run(events).well_formed(),
    decreases events.len(),
{
    if events.len() > 0 {
        lemma_step_keeps_order(session, events.first());
        lemma_run_well_formed(session.step(events.first()).session, events.drop_first());
    }
}

/// How a receive on a socket of the session failed.
#[derive(Clone, Copy, PartialEq, Eq, Debug, Structural)]
pub enum ConnectionError {
    /// Nothing arrived in time: the receive is tried again.
    TryAgain,
    /// The peer is gone or the socket is dead: the session ends.
    Other,
}

/// What a worker does after one pass of its loop.
#[derive(Clone, Copy, PartialEq, Eq, Debug, Structural)]
pub struct WorkerStep {
    /// The message to show, if any.
    pub hud: Option<HudMessage>,
    /// Whether the worker signals the end of the session.
    pub disconnect: bool,
    /// Whether the worker leaves its loop at once.
    pub exit: bool,
}

/// The decision of a stream receiver (video, haptics) on the result of a receive: a timeout
/// is retried, a dead socket ends the worker without a signal.
pub fn stream_receiver_step(result: Result<(), ConnectionError>) -> (r: WorkerStep)
    ensures
        r.hud.is_none(),
        !r.disconnect,
        r.exit <==> result == Err::<(), ConnectionError>(ConnectionError::Other),
{
    match result {
        Err(ConnectionError::Other) => WorkerStep { hud: None, disconnect: false, exit: true },
        _ => WorkerStep { hud: None, disconnect: false, exit: false },
    }
}

/// The decision of the stream pump on the result of one receive of the multiplexer: a timeout
/// is retried, a dead socket is shown to the user and signals the end of the session.
pub fn stream_pump_step(result: Result<(), ConnectionError>) -> (r: WorkerStep)
    ensures
        !r.exit,
        r.disconnect <==> result == Err::<(), ConnectionError>(ConnectionError::Other),
        r.hud == if r.disconnect {
            Some(HudMessage::ServerDisconnected)
        } else {
            None
        },
{
    match result {
        Err(ConnectionError::Other) => WorkerStep {
            hud: Some(HudMessage::ServerDisconnected),
            disconnect: true,
            exit: false,
        },
        _ => WorkerStep { hud: None, disconnect: false, exit: false },
    }
}

/// The decision of the microphone worker once a recording has returned: a recording that
/// ended cleanly ends the worker, one that failed is started again.
pub fn microphone_step(recorded: Result<(), ConnectionError>) -> (r: WorkerStep)
    ensures
        r.hud.is_none(),
        !r.disconnect,
        r.exit <==> recorded is Ok,
{
    WorkerStep { hud: None, disconnect: false, exit: recorded.is_ok() }
}

/// What the control receiver got from one receive.
#[derive(Clone, Copy, PartialEq, Eq, Debug, Structural)]
pub enum ControlReceiveEvent {
    /// The server sent a decoder configuration.
    InitializeDecoder,
    /// The server announced its restart.
    Restarting,
    /// The server sent another packet, such as a keepalive.
    OtherPacket,
    /// Nothing arrived within the receive timeout.
    TimedOut,
    /// The control channel failed.
    Failed,
}

/// The control receiver's answer to one receive.
#[derive(Clone, Copy, PartialEq, Eq, Debug, Structural)]
pub struct ControlReceiveStep {
    /// The instant after which silence counts as a lost connection.
    pub deadline: u64,
    /// Whether the received configuration is handed to the decoder factory.
    pub create_decoder: bool,
    /// The message to show, if any.
    pub hud: Option<HudMessage>,
    /// Whether the end of the session is signalled.
    pub disconnect: bool,
}

/// Whether the control receiver moves its deadline on an event: on everything but a timeout
/// that is still benign.
pub open spec fn deadline_moves(deadline: u64, now: u64, event: ControlReceiveEvent) -> bool {
    !(event == ControlReceiveEvent::TimedOut && now <= deadline)
}

/// The transition of the control receiver. Silence is benign until `now` passes the deadline;
/// everything but a benign timeout moves the deadline to `now + keepalive_timeout`.
pub open spec fn control_receive_transition(
    deadline: u64,
    now: u64,
    event: ControlReceiveEvent,
    keepalive_timeout: u64,
) -> ControlReceiveStep {
    let moved = (now + keepalive_timeout) as u64;
    match event {
        ControlReceiveEvent::InitializeDecoder => ControlReceiveStep {
            deadline: moved,
            create_decoder: true,
            hud: None,
            disconnect: false,
        },
        ControlReceiveEvent::Restarting => ControlReceiveStep {
            deadline: moved,
            create_decoder: false,
            hud: Some(HudMessage::ServerRestart),
            disconnect: true,
        },
        ControlReceiveEvent::OtherPacket => ControlReceiveStep {
            deadline: moved,
            create_decoder: false,
            hud: None,
            disconnect: false,
        },
        ControlReceiveEvent::TimedOut => if now > deadline {
            ControlReceiveStep {
                deadline: moved,
                create_decoder: false,
                hud: Some(HudMessage::ConnectionTimeout),
                disconnect: true,
            }
        } else {
            ControlReceiveStep { deadline, create_decoder: false, hud: None, disconnect: false }
        },
        ControlReceiveEvent::Failed => ControlReceiveStep {
            deadline: moved,
            create_decoder: false,
            hud: Some(HudMessage::ServerDisconnected),
            disconnect: true,
        },
    }
}

/// Says whether the control receiver moves its deadline on an event, so that the new
/// deadline has to fit the clock.
pub fn control_deadline_moves(deadline: u64, now: u64, event: ControlReceiveEvent) -> (r: bool)
    ensures
        r == deadline_moves(deadline, now, event),
{
    !(event == ControlReceiveEvent::TimedOut && now <= deadline)
}

/// Decides what the control receiver does with the result of one receive.
pub fn control_receive_step(
    deadline: u64,
    now: u64,
    event: ControlReceiveEvent,
    keepalive_timeout: u64,
) -> (r: ControlReceiveStep)
    requires
        deadline_moves(deadline, now, event) ==> now + keepalive_timeout <= u64::MAX,
    ensures
        r == control_receive_transition(deadline, now, event, keepalive_timeout),
        event == ControlReceiveEvent::TimedOut && now > deadline ==> r.disconnect && r.hud == Some(
            HudMessage::ConnectionTimeout,
        ),
        event == ControlReceiveEvent::TimedOut && now <= deadline ==> !r.disconnect && r.deadline
            == deadline,
{
    if !control_deadline_moves(deadline, now, event) {
        return ControlReceiveStep { deadline, create_decoder: false, hud: None, disconnect: false };
    }
    let moved: u64 = now + keepalive_timeout;
    match event {
        ControlReceiveEvent::InitializeDecoder => ControlReceiveStep {
            deadline: moved,
            create_decoder: true,
            hud: None,
            disconnect: false,
        },
        ControlReceiveEvent::Restarting => ControlReceiveStep {
            deadline: moved,
            create_decoder: false,
            hud: Some(HudMessage::ServerRestart),
            disconnect: true,
        },
        ControlReceiveEvent::OtherPacket => ControlReceiveStep {
            deadline: moved,
            create_decoder: false,
            hud: None,
            disconnect: false,
        },
        ControlReceiveEvent::TimedOut => ControlReceiveStep {
            deadline: moved,
            create_decoder: false,
            hud: Some(HudMessage::ConnectionTimeout),
            disconnect: true,
        },
        ControlReceiveEvent::Failed => ControlReceiveStep {
            deadline: moved,
            create_decoder: false,
            hud: Some(HudMessage::ServerDisconnected),
            disconnect: true,
        },
    }
}

/// Silence that lasts past the deadline signals the end of the session and shows the
/// timeout to the user, at whatever instant; silence up to the deadline changes nothing.
pub proof fn lemma_silence_past_the_deadline_disconnects(
    deadline: u64,
    now: u64,
    keepalive_timeout: u64,
)
    ensures
        ({
            let step = control_receive_transition(
                deadline,
                now,
                ControlReceiveEvent::TimedOut,
                keepalive_timeout,
            );
            &&& now > deadline ==> step.disconnect && step.hud == Some(
                HudMessage::ConnectionTimeout,
            ) && !step.create_decoder
            &&& now <= deadline ==> !step.disconnect && step.hud.is_none() && step.deadline
                == deadline && !step.create_decoder
        }),
{
}

/// Time between two battery reports.
pub const BATTERY_INTERVAL: u64 = 5_000_000_000;

/// Whether the control sender goes through its loop once more: only while streaming and
/// resumed. When it stops, it signals the end of the session.
pub fn control_sender_continues(state: ConnectionState, lifecycle: LifecycleState) -> (r: bool)
    ensures
        r == (state == ConnectionState::Streaming && lifecycle == LifecycleState::Resumed),
{
    state == ConnectionState::Streaming && lifecycle == LifecycleState::Resumed
}

/// What became of the log entry that the control sender waited for.
#[derive(Clone, Copy, PartialEq, Eq, Debug, Structural)]
pub enum LogForward {
    /// No entry arrived in time, or no sender is installed.
    Nothing,
    /// An entry was sent to the server.
    Sent,
    /// An entry could not be sent.
    Failed,
}

/// The deadlines of the control sender.
#[derive(Clone, Copy, PartialEq, Eq, Debug, Structural)]
pub struct ControlSender {
    pub keepalive_deadline: u64,
    pub battery_deadline: u64,
}

/// The control sender's decisions for one pass of its loop.
#[derive(Clone, Copy, PartialEq, Eq, Debug, Structural)]
pub struct ControlSendStep {
    pub sender: ControlSender,
    /// Whether the loop ends and the end of the session is signalled.
    pub stop: bool,
    pub hud: Option<HudMessage>,
    pub send_keepalive: bool,
    pub send_battery: bool,
}

impl ControlSender {
    /// Whether a keepalive is due: the log entry, if any, went out, `now` has passed the
    /// deadline and a sender is installed.
    pub open spec fn spec_keepalive_due(self, now: u64, log: LogForward, sender_installed: bool) -> bool {
        log != LogForward::Failed && now > self.keepalive_deadline && sender_installed
    }

    /// Whether the battery is read: the log entry, if any, went out, the device has a
    /// battery and `now` has passed the deadline.
    pub open spec fn spec_battery_due(self, now: u64, log: LogForward, reports_battery: bool) -> bool {
        log != LogForward::Failed && reports_battery && now > self.battery_deadline
    }

    /// Says whether a keepalive is due, so that its next deadline has to fit the clock.
    pub fn keepalive_due(self, now: u64, log: LogForward, sender_installed: bool) -> (r: bool)
        ensures
            r == self.spec_keepalive_due(now, log, sender_installed),
    {
        log != LogForward::Failed && now > self.keepalive_deadline && sender_installed
    }

    /// Says whether the battery is read, so that its next deadline has to fit the clock.
    pub fn battery_due(self, now: u64, log: LogForward, reports_battery: bool) -> (r: bool)
        ensures
            r == self.spec_battery_due(now, log, reports_battery),
    {
        log != LogForward::Failed && reports_battery && now > self.battery_deadline
    }
}

/// The transition of the control sender. A log entry that could not be sent ends the loop. A
/// keepalive is due once `now` has passed its deadline and a sender is installed; a battery
/// report, where the device has one, once `now` has passed its deadline. What is due moves
/// its deadline on by its interval.
pub open spec fn control_send_transition(
    sender: ControlSender,
    now: u64,
    log: LogForward,
    sender_installed: bool,
    reports_battery: bool,
    keepalive_interval: u64,
) -> ControlSendStep {
    if log == LogForward::Failed {
        ControlSendStep {
            sender,
            stop: true,
            hud: Some(HudMessage::ServerDisconnected),
            send_keepalive: false,
            send_battery: false,
        }
    } else {
        let keepalive = sender.spec_keepalive_due(now, log, sender_installed);
        let battery = sender.spec_battery_due(now, log, reports_battery);
        ControlSendStep {
            sender: ControlSender {
                keepalive_deadline: if keepalive {
                    (now + keepalive_interval) as u64
                } else {
                    sender.keepalive_deadline
                },
                battery_deadline: if battery {
                    (now + BATTERY_INTERVAL) as u64
                } else {
                    sender.battery_deadline
                },
            },
            stop: false,
            hud: None,
            send_keepalive: keepalive,
            send_battery: battery && sender_installed,
        }
    }
}

/// Decides one pass of the control sender's loop.
pub fn control_send_step(
    sender: ControlSender,
    now: u64,
    log: LogForward,
    sender_installed: bool,
    reports_battery: bool,
    keepalive_interval: u64,
) -> (r: ControlSendStep)
    requires
        sender.spec_keepalive_due(now, log, sender_installed) ==> now + keepalive_interval
            <= u64::MAX,
        sender.spec_battery_due(now, log, reports_battery) ==> now + BATTERY_INTERVAL <= u64::MAX,
    ensures
        r == control_send_transition(
            sender,
            now,
            log,
            sender_installed,
            reports_battery,
            keepalive_interval,
        ),
{
    if log == LogForward::Failed {
        return ControlSendStep {
            sender,
            stop: true,
            hud: Some(HudMessage::ServerDisconnected),
            send_keepalive: false,
            send_battery: false,
        };
    }
    let keepalive = sender.keepalive_due(now, log, sender_installed);
    let battery = sender.battery_due(now, log, reports_battery);
    let keepalive_deadline: u64 = if keepalive {
        now + keepalive_interval
    } else {
        sender.keepalive_deadline
    };
    let battery_deadline: u64 = if battery {
        now + BATTERY_INTERVAL
    } else {
        sender.battery_deadline
    };
    ControlSendStep {
        sender: ControlSender { keepalive_deadline, battery_deadline },
        stop: false,
        hud: None,
        send_keepalive: keepalive,
        send_battery: battery && sender_installed,
    }
}

/// The state of the congestion detector that a video packet reports.
#[derive(Clone, Copy, PartialEq, Eq, Debug, Structural)]
pub enum GccState {
    Normal,
    Overuse,
    Underuse,
}

/// The telemetry that comes with one video packet. Times are in nanoseconds.
#[derive(Clone, Copy, PartialEq, Eq, Debug, Structural)]
pub struct VideoPacketTelemetry {
    pub frame_index: u32,
    pub frame_span: u64,
    pub frame_interarrival: u64,
    pub interarrival_jitter: u64,
    pub ow_delay: i64,
    pub rx_bytes: u32,
    pub bytes_in_frame: u32,
    pub bytes_in_frame_app: u32,
    pub frames_skipped: u32,
    pub rx_shard_counter: u32,
    pub duplicated_shard_counter: u32,
    pub highest_rx_frame_index: i32,
    pub highest_rx_shard_index: i32,
    pub threshold_gcc: i64,
    pub internal_state_gcc: GccState,
}

/// The telemetry that the video receiver gathers between two decoded frames. The fields
/// `frame_interarrival`, `rx_bytes`, `frames_skipped`, `frames_dropped`, `rx_shard_counter`
/// and `duplicated_shard_counter` add up; the others hold what the last packet reported.
#[derive(Clone, Copy, PartialEq, Eq, Debug, Structural)]
pub struct VideoStatsRx {
    pub frame_index: u32,
    pub frame_span: u64,
    pub frame_interarrival: u64,
    pub interarrival_jitter: u64,
    pub ow_delay: i64,
    pub rx_bytes: u32,
    pub bytes_in_frame: u32,
    pub bytes_in_frame_app: u32,
    pub frames_skipped: u32,
    pub frames_dropped: u32,
    pub rx_shard_counter: u32,
    pub duplicated_shard_counter: u32,
    pub highest_rx_frame_index: i32,
    pub highest_rx_shard_index: i32,
    pub threshold_gcc: i64,
    pub internal_state_gcc: GccState,
}

impl VideoStatsRx {
    /// The telemetry before any packet.
    pub open spec fn zero() -> VideoStatsRx {
        VideoStatsRx {
            frame_index: 0,
            frame_span: 0,
            frame_interarrival: 0,
            interarrival_jitter: 0,
            ow_delay: 0,
            rx_bytes: 0,
            bytes_in_frame: 0,
            bytes_in_frame_app: 0,
            frames_skipped: 0,
            frames_dropped: 0,
            rx_shard_counter: 0,
            duplicated_shard_counter: 0,
            highest_rx_frame_index: 0,
            highest_rx_shard_index: 0,
            threshold_gcc: 0,
            internal_state_gcc: GccState::Normal,
        }
    }

    /// Whether every field that adds up is zero.
    pub open spec fn cumulative_is_zero(self) -> bool {
        &&& self.frame_interarrival == 0
        &&& self.rx_bytes == 0
        &&& self.frames_skipped == 0
        &&& self.frames_dropped == 0
        &&& self.rx_shard_counter == 0
        &&& self.duplicated_shard_counter == 0
    }

    /// Whether the sums of a packet's telemetry still fit.
    pub open spec fn can_take(self, packet: VideoPacketTelemetry) -> bool {
        &&& self.frame_interarrival + packet.frame_interarrival <= u64::MAX
        &&& self.rx_bytes + packet.rx_bytes <= u32::MAX
        &&& self.frames_skipped + packet.frames_skipped <= u32::MAX
        &&& self.rx_shard_counter + packet.rx_shard_counter <= u32::MAX
        &&& self.duplicated_shard_counter + packet.duplicated_shard_counter <= u32::MAX
    }

    /// The telemetry after a packet: instantaneous fields overwritten, cumulative fields
    /// increased.
    pub open spec fn with_packet(self, packet: VideoPacketTelemetry) -> VideoStatsRx {
        VideoStatsRx {
            frame_index: packet.frame_index,
            frame_span: packet.frame_span,
            frame_interarrival: (self.frame_interarrival + packet.frame_interarrival) as u64,
            interarrival_jitter: packet.interarrival_jitter,
            ow_delay: packet.ow_delay,
            rx_bytes: (self.rx_bytes + packet.rx_bytes) as u32,
            bytes_in_frame: packet.bytes_in_frame,
            bytes_in_frame_app: packet.bytes_in_frame_app,
            frames_skipped: (self.frames_skipped + packet.frames_skipped) as u32,
            frames_dropped: self.frames_dropped,
            rx_shard_counter: (self.rx_shard_counter + packet.rx_shard_counter) as u32,
            duplicated_shard_counter: (self.duplicated_shard_counter
                + packet.duplicated_shard_counter) as u32,
            highest_rx_frame_index: packet.highest_rx_frame_index,
            highest_rx_shard_index: packet.highest_rx_shard_index,
            threshold_gcc: packet.threshold_gcc,
            internal_state_gcc: packet.internal_state_gcc,
        }
    }

    /// The telemetry with one more dropped frame.
    pub open spec fn with_drop(self) -> VideoStatsRx {
        VideoStatsRx { frames_dropped: (self.frames_dropped + 1) as u32, ..self }
    }

    /// The telemetry after a report: every field that adds up is zero, the others stay.
    pub open spec fn after_report(self) -> VideoStatsRx {
        VideoStatsRx {
            frame_interarrival: 0,
            rx_bytes: 0,
            frames_skipped: 0,
            frames_dropped: 0,
            rx_shard_counter: 0,
            duplicated_shard_counter: 0,
            ..self
        }
    }

    /// The telemetry before any packet.
    pub fn new() -> (r: VideoStatsRx)
        ensures
            r == VideoStatsRx::zero(),
            r.cumulative_is_zero(),
    {
        VideoStatsRx {
            frame_index: 0,
            frame_span: 0,
            frame_interarrival: 0,
            interarrival_jitter: 0,
            ow_delay: 0,
            rx_bytes: 0,
            bytes_in_frame: 0,
            bytes_in_frame_app: 0,
            frames_skipped: 0,
            frames_dropped: 0,
            rx_shard_counter: 0,
            duplicated_shard_counter: 0,
            highest_rx_frame_index: 0,
            highest_rx_shard_index: 0,
            threshold_gcc: 0,
            internal_state_gcc: GccState::Normal,
        }
    }

    /// Takes in the telemetry of one packet.
    pub fn record_packet(&mut self, packet: &VideoPacketTelemetry)
        requires
            old(self).can_take(*packet),
        ensures
            *final(self) == old(self).with_packet(*packet),
    {
        self.frame_index = packet.frame_index;
        self.frame_span = packet.frame_span;
        self.interarrival_jitter = packet.interarrival_jitter;
        self.ow_delay = packet.ow_delay;
        self.bytes_in_frame = packet.bytes_in_frame;
        self.bytes_in_frame_app = packet.bytes_in_frame_app;
        self.highest_rx_frame_index = packet.highest_rx_frame_index;
        self.highest_rx_shard_index = packet.highest_rx_shard_index;
        self.frame_interarrival = self.frame_interarrival + packet.frame_interarrival;
        self.rx_bytes = self.rx_bytes + packet.rx_bytes;
        self.frames_skipped = self.frames_skipped + packet.frames_skipped;
        self.rx_shard_counter = self.rx_shard_counter + packet.rx_shard_counter;
        self.duplicated_shard_counter = self.duplicated_shard_counter
            + packet.duplicated_shard_counter;
        self.internal_state_gcc = packet.internal_state_gcc;
        self.threshold_gcc = packet.threshold_gcc;
    }

    /// Hands out the telemetry for a report and clears every field that adds up.
    pub fn take_report(&mut self) -> (report: VideoStatsRx)
        ensures
            report == *old(self),
            *final(self) == old(self).after_report(),
            final(self).cumulative_is_zero(),
    {
        let report = *self;
        self.frame_interarrival = 0;
        self.rx_bytes = 0;
        self.duplicated_shard_counter = 0;
        self.rx_shard_counter = 0;
        self.frames_skipped = 0;
        self.frames_dropped = 0;
        report
    }
}

/// The video receiver between two packets.
#[derive(Clone, Copy, PartialEq, Eq, Debug, Structural)]
pub struct VideoReceiver {
    pub stats: VideoStatsRx,
    /// Whether frames were lost since the last key frame.
    pub stream_corrupted: bool,
    /// When a key frame was last requested on schedule.
    pub last_idr_request: u64,
}

/// What the caller does with a video packet.
#[derive(Clone, Copy, PartialEq, Eq, Debug, Structural)]
pub struct PacketVerdict {
    /// Request a key frame because the interval between scheduled requests has passed.
    pub scheduled_idr: bool,
    /// Request a key frame because packets were lost.
    pub loss_idr: bool,
    /// Hand the payload to the decoder and report the result with `decoder_result`. Where
    /// this is false the frame is dropped: request a key frame and report the drop.
    pub decode: bool,
}

impl VideoReceiver {
    /// Whether a scheduled key frame request is due: the time since the last one is at least
    /// the interval, given in milliseconds.
    pub open spec fn idr_due(self, now: u64, minimum_idr_interval_ms: u64) -> bool {
        elapsed_since(now, self.last_idr_request) >= minimum_idr_interval_ms * NANOS_PER_MILLI
    }

    /// Whether the stream counts as corrupted after a packet: a key frame heals it, a loss
    /// corrupts it.
    pub open spec fn corrupted_after(self, is_idr: bool, had_packet_loss: bool) -> bool {
        if is_idr {
            false
        } else if had_packet_loss {
            true
        } else {
            self.stream_corrupted
        }
    }

    /// Whether a packet goes to the decoder: the stream is sound after it, or glitches are
    /// accepted.
    pub open spec fn decodes(self, is_idr: bool, had_packet_loss: bool, avoid_video_glitching: bool) -> bool {
        !self.corrupted_after(is_idr, had_packet_loss) || !avoid_video_glitching
    }

    /// The verdict on a packet.
    pub open spec fn verdict(
        self,
        is_idr: bool,
        had_packet_loss: bool,
        now: u64,
        minimum_idr_interval_ms: u64,
        avoid_video_glitching: bool,
    ) -> PacketVerdict {
        PacketVerdict {
            scheduled_idr: self.idr_due(now, minimum_idr_interval_ms),
            loss_idr: !is_idr && had_packet_loss,
            decode: self.decodes(is_idr, had_packet_loss, avoid_video_glitching),
        }
    }

    /// The receiver after a packet.
    pub open spec fn after_packet(
        self,
        packet: VideoPacketTelemetry,
        is_idr: bool,
        had_packet_loss: bool,
        now: u64,
        minimum_idr_interval_ms: u64,
        avoid_video_glitching: bool,
    ) -> VideoReceiver {
        let taken = self.stats.with_packet(packet);
        let decode = self.verdict(
            is_idr,
            had_packet_loss,
            now,
            minimum_idr_interval_ms,
            avoid_video_glitching,
        ).decode;
        VideoReceiver {
            stats: if decode {
                taken
            } else {
                taken.with_drop()
            },
            stream_corrupted: self.corrupted_after(is_idr, had_packet_loss),
            last_idr_request: if self.idr_due(now, minimum_idr_interval_ms) {
                now
            } else {
                self.last_idr_request
            },
        }
    }

    /// The receiver after the decoder took or refused a frame. A refusal corrupts the stream
    /// and counts as a drop; a decoded frame is followed by a report that clears the counters.
    pub open spec fn after_decoder(self, accepted: bool) -> VideoReceiver {
        if accepted {
            VideoReceiver { stats: self.stats.after_report(), ..self }
        } else {
            VideoReceiver { stats: self.stats.with_drop(), stream_corrupted: true, ..self }
        }
    }

    /// A receiver at the start of a session.
    pub fn new(now: u64) -> (r: VideoReceiver)
        ensures
            r == (VideoReceiver {
                stats: VideoStatsRx::zero(),
                stream_corrupted: false,
                last_idr_request: now,
            }),
    {
        VideoReceiver { stats: VideoStatsRx::new(), stream_corrupted: false, last_idr_request: now }
    }

    /// Says whether a packet will go to the decoder. A packet that will not counts as a
    /// dropped frame.
    pub fn will_decode(&self, is_idr: bool, had_packet_loss: bool, avoid_video_glitching: bool) -> (r:
        bool)
        ensures
            r == self.decodes(is_idr, had_packet_loss, avoid_video_glitching),
    {
        let corrupted = if is_idr {
            false
        } else if had_packet_loss {
            true
        } else {
            self.stream_corrupted
        };
        !corrupted || !avoid_video_glitching
    }

    /// Takes in one video packet and says what to do with it.
    pub fn receive_packet(
        &mut self,
        packet: &VideoPacketTelemetry,
        is_idr: bool,
        had_packet_loss: bool,
        now: u64,
        minimum_idr_interval_ms: u64,
        avoid_video_glitching: bool,
    ) -> (r: PacketVerdict)
        requires
            old(self).stats.can_take(*packet),
            !old(self).decodes(is_idr, had_packet_loss, avoid_video_glitching) ==> old(
                self,
            ).stats.frames_dropped < u32::MAX,
        ensures
            r == old(self).verdict(
                is_idr,
                had_packet_loss,
                now,
                minimum_idr_interval_ms,
                avoid_video_glitching,
            ),
            *final(self) == old(self).after_packet(
                *packet,
                is_idr,
                had_packet_loss,
                now,
                minimum_idr_interval_ms,
                avoid_video_glitching,
            ),
    {
        let decode = self.will_decode(is_idr, had_packet_loss, avoid_video_glitching);
        self.stats.record_packet(packet);
        let elapsed: u64 = time_since(now, self.last_idr_request);
        let scheduled_idr = elapsed as u128 >= minimum_idr_interval_ms as u128
            * NANOS_PER_MILLI as u128;
        if scheduled_idr {
            self.last_idr_request = now;
        }
        let mut loss_idr = false;
        if is_idr {
            self.stream_corrupted = false;
        } else if had_packet_loss {
            self.stream_corrupted = true;
            loss_idr = true;
        }
        if !decode {
            self.stats.frames_dropped = self.stats.frames_dropped + 1;
        }
        PacketVerdict { scheduled_idr, loss_idr, decode }
    }

    /// Takes in the decoder's answer to a frame. For a decoded frame the result is the
    /// telemetry to report, and every field that adds up is cleared. For a refused frame the
    /// result is `None`: request a key frame and report the drop.
    pub fn decoder_result(&mut self, accepted: bool) -> (report: Option<VideoStatsRx>)
        requires
            !accepted ==> old(self).stats.frames_dropped < u32::MAX,
        ensures
            *final(self) == old(self).after_decoder(accepted),
            report == if accepted {
                Some(old(self).stats)
            } else {
                None
            },
            accepted ==> final(self).stats.cumulative_is_zero(),
    {
        if accepted {
            Some(self.stats.take_report())
        } else {
            self.stream_corrupted = true;
            self.stats.frames_dropped = self.stats.frames_dropped + 1;
            None
        }
    }
}

/// Width and height of one view, in pixels.
#[derive(Clone, Copy, PartialEq, Eq, Debug, Structural)]
pub struct ViewResolution {
    pub x: u32,
    pub y: u32,
}

/// The scalars that the server and the client agreed on.
#[derive(Clone, Copy, PartialEq, Eq, Debug, Structural)]
pub struct NegotiatedConfig {
    pub view_resolution: ViewResolution,
    /// The refresh rate to aim for, in micro-hertz.
    pub refresh_rate_hint: u64,
    /// The sample rate of the game audio, in hertz.
    pub game_audio_sample_rate: u32,
}

/// The refresh rate where none was negotiated: 60 Hz.
pub const DEFAULT_REFRESH_RATE_HINT: u64 = 60_000_000;

/// The sample rate of the game audio where none was negotiated.
pub const DEFAULT_GAME_AUDIO_SAMPLE_RATE: u64 = 44100;

/// The negotiated configuration for the values found under the recognised keys; a key that
/// is missing, or holds a value of another kind, gives its default. The sample rate keeps
/// its low 32 bits.
pub open spec fn negotiated(
    view_resolution: Option<ViewResolution>,
    refresh_rate_hint: Option<u64>,
    game_audio_sample_rate: Option<u64>,
) -> NegotiatedConfig {
    NegotiatedConfig {
        view_resolution: match view_resolution {
            Some(resolution) => resolution,
            None => (ViewResolution { x: 0, y: 0 }),
        },
        refresh_rate_hint: match refresh_rate_hint {
            Some(rate) => rate,
            None => DEFAULT_REFRESH_RATE_HINT,
        },
        game_audio_sample_rate: (match game_audio_sample_rate {
            Some(rate) => rate,
            None => DEFAULT_GAME_AUDIO_SAMPLE_RATE,
        } % 0x1_0000_0000) as u32,
    }
}

/// Fills in the defaults of the negotiated configuration.
pub fn negotiated_config(
    view_resolution: Option<ViewResolution>,
    refresh_rate_hint: Option<u64>,
    game_audio_sample_rate: Option<u64>,
) -> (r: NegotiatedConfig)
    ensures
        r == negotiated(view_resolution, refresh_rate_hint, game_audio_sample_rate),
{
    let sample_rate: u64 = match game_audio_sample_rate {
        Some(rate) => rate,
        None => DEFAULT_GAME_AUDIO_SAMPLE_RATE,
    };
    NegotiatedConfig {
        view_resolution: match view_resolution {
            Some(resolution) => resolution,
            None => (ViewResolution { x: 0, y: 0 }),
        },
        refresh_rate_hint: match refresh_rate_hint {
            Some(rate) => rate,
            None => DEFAULT_REFRESH_RATE_HINT,
        },
        game_audio_sample_rate: (sample_rate % 0x1_0000_0000) as u32,
    }
}

} // verus!
