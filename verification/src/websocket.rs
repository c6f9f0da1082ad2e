//! The decisions of the WebSocket client: how long to wait before reconnecting,
//! when to give up, and what each event of a connection leads to.

use vstd::prelude::*;
use crate::config::Config;
use crate::messages::{auth_json, json_read_object, lemma_auth_json_reads_back, outgoing_json, AuthMessage, IncomingMessage, OutgoingMessage};

verus! {

#[verifier::external_type_specification]
#[verifier::external_body]
#[verifier::reject_recursive_types(T)]
pub struct ExMpscReceiver<T>(tokio::sync::mpsc::Receiver<T>);

#[verifier::external_type_specification]
#[verifier::external_body]
#[verifier::reject_recursive_types(T)]
pub struct ExMpscSender<T>(tokio::sync::mpsc::Sender<T>);

/// The result of a WebSocket operation.
pub type WsResult<T> = Result<T, WsError>;

/// Why a connection to the API ended.
#[derive(Debug, PartialEq, Eq)]
pub enum WsError {
    /// The connection could not be opened.
    ConnectionFailed(String),
    /// A message could not be sent.
    SendFailed(String),
    /// A message could not be received.
    ReceiveFailed(String),
    /// The API closed the connection.
    ConnectionClosed,
    /// A message could not be written as JSON.
    JsonError(String),
    /// The API URL is not a valid URL.
    UrlError(String),
}

/// The text that `ConnectionFailed` carries when the API refused the credentials.
pub const AUTH_DENIED_MARKER: &'static str = "AUTH_DENIED";

/// The exit code of the wrapper when the API refused the credentials.
pub const AUTH_DENIED_EXIT_CODE: i32 = 2;

/// The longest wait between two connection attempts, in seconds.
pub const MAX_RECONNECT_DELAY_SECS: u64 = 60;

/// The API refused the credentials: the one error after which no reconnect is tried.
pub open spec fn is_auth_denied(e: WsError) -> bool {
    e matches WsError::ConnectionFailed(m) && m@ == AUTH_DENIED_MARKER@
}

/// The human-readable description of an error.
pub open spec fn ws_error_text(e: WsError) -> Seq<char> {
    match e {
        WsError::ConnectionFailed(m) => "Ошибка подключения: "@ + m@,
        WsError::SendFailed(m) => "Ошибка отправки: "@ + m@,
        WsError::ReceiveFailed(m) => "Ошибка получения: "@ + m@,
        WsError::ConnectionClosed => "Соединение закрыто"@,
        WsError::JsonError(m) => "Ошибка JSON: "@ + m@,
        WsError::UrlError(m) => "Ошибка URL: "@ + m@,
    }
}

impl WsError {
    /// The human-readable description of the error.
    pub fn describe(&self) -> (r: String)
        ensures
            r@ == ws_error_text(*self),
    {
        match self {
            WsError::ConnectionFailed(m) => String::from_str("Ошибка подключения: ").concat(m.as_str()),
            WsError::SendFailed(m) => String::from_str("Ошибка отправки: ").concat(m.as_str()),
            WsError::ReceiveFailed(m) => String::from_str("Ошибка получения: ").concat(m.as_str()),
            WsError::ConnectionClosed => String::from_str("Соединение закрыто"),
            WsError::JsonError(m) => String::from_str("Ошибка JSON: ").concat(m.as_str()),
            WsError::UrlError(m) => String::from_str("Ошибка URL: ").concat(m.as_str()),
        }
    }

    /// Whether the API refused the credentials.
    pub fn is_auth_denied(&self) -> (b: bool)
        ensures
            b == is_auth_denied(*self),
    {
        match self {
            WsError::ConnectionFailed(m) => *m == String::from_str(AUTH_DENIED_MARKER),
            _ => false,
        }
    }
}

// ---------------------------------------------------------------------------
// Reconnecting
// ---------------------------------------------------------------------------

/// The wait that follows a wait of `current` seconds: twice as long, at most the maximum.
pub open spec fn next_reconnect_delay(current: int) -> int {
    if 2 * current < MAX_RECONNECT_DELAY_SECS {
        2 * current
    } else {
        MAX_RECONNECT_DELAY_SECS as int
    }
}

/// The wait before the next attempt after `failures` waits in a row since the
/// start or since the last session that got a connection.
pub open spec fn reconnect_delay_after(base: int, failures: nat) -> int
    decreases failures,
{
    if failures == 0 {
        base
    } else {
        next_reconnect_delay(reconnect_delay_after(base, (failures - 1) as nat))
    }
}

/// The waits never exceed the configured delay or the maximum, whichever is larger.
pub proof fn lemma_reconnect_delay_bounded(base: int, failures: nat)
    requires
        0 <= base,
    ensures
        0 <= reconnect_delay_after(base, failures),
        reconnect_delay_after(base, failures) <= if base < MAX_RECONNECT_DELAY_SECS { MAX_RECONNECT_DELAY_SECS as int } else { base },
        failures > 0 ==> reconnect_delay_after(base, failures) <= MAX_RECONNECT_DELAY_SECS,
    decreases failures,
{
    if failures > 0 {
        lemma_reconnect_delay_bounded(base, (failures - 1) as nat);
    }
}

/// Starting from a delay no longer than the maximum, each failure waits at
/// least as long as the one before it.
pub proof fn lemma_reconnect_delay_grows(base: int, failures: nat)
    requires
        0 <= base <= MAX_RECONNECT_DELAY_SECS,
    ensures
        reconnect_delay_after(base, failures) <= reconnect_delay_after(base, failures + 1),
{
    lemma_reconnect_delay_bounded(base, failures);
}

/// `base` doubled `times` times: `base * 2^times`.
pub open spec fn doubled(base: int, times: nat) -> int
    decreases times,
{
    if times == 0 {
        base
    } else {
        2 * doubled(base, (times - 1) as nat)
    }
}

/// With a configured delay no longer than the maximum, the wait after
/// `failures` waits in a row is the configured delay doubled that many times,
/// capped at the maximum: 5, 10, 20, 40, 60, 60, ... for 5 seconds.
pub proof fn lemma_reconnect_delay_closed_form(base: int, failures: nat)
    requires
        0 <= base <= MAX_RECONNECT_DELAY_SECS,
    ensures
        reconnect_delay_after(base, failures) == if doubled(base, failures) < MAX_RECONNECT_DELAY_SECS {
            doubled(base, failures)
        } else {
            MAX_RECONNECT_DELAY_SECS as int
        },
    decreases failures,
{
    if failures > 0 {
        lemma_reconnect_delay_closed_form(base, (failures - 1) as nat);
        lemma_doubled_grows(base, (failures - 1) as nat);
    }
}

/// Doubling a non-negative delay never makes it shorter.
proof fn lemma_doubled_grows(base: int, times: nat)
    requires
        0 <= base,
    ensures
        0 <= doubled(base, times),
    decreases times,
{
    if times > 0 {
        lemma_doubled_grows(base, (times - 1) as nat);
    }
}

/// With a configured delay of at least one second, the wait reaches the
/// maximum after six failures in a row and stays there.
pub proof fn lemma_reconnect_delay_reaches_max(base: int, failures: nat)
    requires
        1 <= base,
        6 <= failures,
    ensures
        reconnect_delay_after(base, failures) == MAX_RECONNECT_DELAY_SECS,
    decreases failures,
{
    if failures == 6 {
        reveal_with_fuel(reconnect_delay_after, 2);
        assert(reconnect_delay_after(base, 1) >= 2);
        assert(reconnect_delay_after(base, 2) >= 4);
        assert(reconnect_delay_after(base, 3) >= 8);
        assert(reconnect_delay_after(base, 4) >= 16);
        assert(reconnect_delay_after(base, 5) >= 32);
        assert(reconnect_delay_after(base, 6) == MAX_RECONNECT_DELAY_SECS);
    } else {
        lemma_reconnect_delay_reaches_max(base, (failures - 1) as nat);
    }
}

/// What the client does next.
#[derive(Debug, PartialEq, Eq)]
pub enum ReconnectAction {
    /// Open a connection and run a session on it.
    Connect,
    /// Wait this many seconds, then connect again.
    Wait(u64),
    /// Stop the client: a shutdown was requested.
    Stop,
    /// Stop the whole wrapper with this exit code.
    Exit(i32),
}

/// What happened to the client.
#[derive(Debug)]
pub enum ReconnectEvent {
    /// The client starts.
    Start,
    /// A session ended, with this outcome.
    SessionEnded(WsResult<()>),
    /// A wait ran to its end.
    WaitElapsed,
    /// A shutdown was requested.
    ShutdownRequested,
}

/// Whether a session had opened its connection before it ended: it ended
/// normally, or with an error that only an open connection can give (every
/// error but a refused connection and an invalid URL).
pub open spec fn was_connected(outcome: WsResult<()>) -> bool {
    match outcome {
        Ok(()) => true,
        Err(WsError::ConnectionFailed(_)) => false,
        Err(WsError::UrlError(_)) => false,
        Err(_) => true,
    }
}

/// The reconnect delay of the client: it starts at the configured delay, is
/// reset to it after every session that got a connection, and doubles after
/// each wait up to the maximum, so that after `k` waits since the last reset it
/// is `reconnect_delay_after(base, k)`.
pub struct ReconnectPolicy {
    base: u64,
    current: u64,
    waits: Ghost<nat>,
}

impl ReconnectPolicy {
    #[verifier::type_invariant]
    spec fn inv(self) -> bool {
        self.current == reconnect_delay_after(self.base as int, self.waits@)
    }

    /// The configured delay, in seconds.
    pub closed spec fn base_delay(&self) -> u64 {
        self.base
    }

    /// The delay of the next wait, in seconds.
    pub closed spec fn current_delay(&self) -> u64 {
        self.current
    }

    /// The number of waits since the start or the last reset.
    pub closed spec fn waits_since_reset(&self) -> nat {
        self.waits@
    }

    /// A policy that first waits `base_secs` seconds.
    pub fn new(base_secs: u64) -> (p: Self)
        ensures
            p.base_delay() == base_secs,
            p.current_delay() == base_secs,
            p.waits_since_reset() == 0,
    {
        ReconnectPolicy { base: base_secs, current: base_secs, waits: Ghost(0) }
    }

    /// The delay of the next wait, in seconds: the configured delay after as
    /// many doublings (each capped at the maximum) as waits since the last reset.
    pub fn delay(&self) -> (d: u64)
        ensures
            d == self.current_delay(),
            d == reconnect_delay_after(self.base_delay() as int, self.waits_since_reset()),
    {
        proof {
            use_type_invariant(self);
        }
        self.current
    }

    /// Decides what follows the end of a session: an error that says the
    /// credentials were refused stops the wrapper, and nothing else does; a
    /// session that got a connection resets the delay; a session that could not
    /// connect keeps it. Otherwise the client waits the (new) current delay.
    pub fn session_ended(&mut self, outcome: &WsResult<()>) -> (a: ReconnectAction)
        ensures
            final(self).base_delay() == old(self).base_delay(),
            a is Exit <==> (outcome is Err && is_auth_denied(outcome->Err_0)),
            a is Exit ==> a == ReconnectAction::Exit(AUTH_DENIED_EXIT_CODE),
            a is Exit || !was_connected(*outcome) ==> {
                &&& final(self).current_delay() == old(self).current_delay()
                &&& final(self).waits_since_reset() == old(self).waits_since_reset()
            },
            a is Wait && was_connected(*outcome) ==> {
                &&& final(self).current_delay() == old(self).base_delay()
                &&& final(self).waits_since_reset() == 0
                &&& a == ReconnectAction::Wait(old(self).base_delay())
            },
            a is Wait && !was_connected(*outcome) ==> a == ReconnectAction::Wait(old(self).current_delay()),
            a is Exit || a is Wait,
    {
        proof {
            use_type_invariant(&*self);
        }
        let connected = match outcome {
            Ok(()) => true,
            Err(WsError::ConnectionFailed(_)) => false,
            Err(WsError::UrlError(_)) => false,
            Err(_) => true,
        };
        if let Err(e) = outcome {
            if e.is_auth_denied() {
                return ReconnectAction::Exit(AUTH_DENIED_EXIT_CODE);
            }
        }
        if connected {
            *self = ReconnectPolicy { base: self.base, current: self.base, waits: Ghost(0) };
        }
        ReconnectAction::Wait(self.current)
    }

    /// Records that a wait ended: the next wait is twice as long, at most the
    /// maximum. Doubling a delay above half the largest `u64` would overflow.
    pub fn wait_elapsed(&mut self)
        requires
            old(self).current_delay() <= u64::MAX / 2,
        ensures
            final(self).base_delay() == old(self).base_delay(),
            final(self).current_delay() == next_reconnect_delay(old(self).current_delay() as int),
            final(self).waits_since_reset() == old(self).waits_since_reset() + 1,
    {
        proof {
            use_type_invariant(&*self);
        }
        let doubled = self.current * 2;
        let next = if doubled < MAX_RECONNECT_DELAY_SECS { doubled } else { MAX_RECONNECT_DELAY_SECS };
        let ghost waits = self.waits@ + 1;
        assert(next == reconnect_delay_after(self.base as int, waits));
        *self = ReconnectPolicy { base: self.base, current: next, waits: Ghost(waits) };
    }

    /// The client's next step: it connects at the start and after each wait,
    /// waits after each session (`session_ended`), and stops only on a
    /// shutdown request or on refused credentials; so without these it goes on
    /// reconnecting for ever.
    pub fn step(&mut self, event: ReconnectEvent) -> (a: ReconnectAction)
        requires
            event is WaitElapsed ==> old(self).current_delay() <= u64::MAX / 2,
        ensures
            final(self).base_delay() == old(self).base_delay(),
            a is Stop <==> event is ShutdownRequested,
            a is Exit <==> (event matches ReconnectEvent::SessionEnded(Err(e)) && is_auth_denied(e)),
            a is Connect <==> (event is Start || event is WaitElapsed),
            a is Wait <==> (event matches ReconnectEvent::SessionEnded(o) && !(o matches Err(e) && is_auth_denied(e))),
            a is Exit ==> a == ReconnectAction::Exit(AUTH_DENIED_EXIT_CODE),
            a matches ReconnectAction::Wait(d) ==> d == reconnect_delay_after(
                final(self).base_delay() as int,
                final(self).waits_since_reset(),
            ),
            event is Start || event is ShutdownRequested ==> *final(self) == *old(self),
            event is WaitElapsed ==> {
                &&& final(self).current_delay() == next_reconnect_delay(old(self).current_delay() as int)
                &&& final(self).waits_since_reset() == old(self).waits_since_reset() + 1
            },
            event matches ReconnectEvent::SessionEnded(o) && a is Wait && was_connected(o) ==> {
                &&& final(self).current_delay() == old(self).base_delay()
                &&& final(self).waits_since_reset() == 0
                &&& a == ReconnectAction::Wait(old(self).base_delay())
            },
            event matches ReconnectEvent::SessionEnded(o) && !(a is Wait && was_connected(o)) ==> {
                &&& final(self).current_delay() == old(self).current_delay()
                &&& final(self).waits_since_reset() == old(self).waits_since_reset()
            },
            event matches ReconnectEvent::SessionEnded(o) && a is Wait && !was_connected(o) ==> a
                == ReconnectAction::Wait(old(self).current_delay()),
    {
        let a = match event {
            ReconnectEvent::Start => ReconnectAction::Connect,
            ReconnectEvent::SessionEnded(outcome) => self.session_ended(&outcome),
            ReconnectEvent::WaitElapsed => {
                self.wait_elapsed();
                ReconnectAction::Connect
            },
            ReconnectEvent::ShutdownRequested => ReconnectAction::Stop,
        };
        proof {
            use_type_invariant(&*self);
        }
        a
    }
}

// ---------------------------------------------------------------------------
// One connection
// ---------------------------------------------------------------------------

/// A WebSocket frame received from the API. The text of a `Text` frame is
/// handed over as it was read as JSON: `None` where it is not a message.
#[derive(Debug)]
pub enum IncomingFrame {
    Text(Option<IncomingMessage>),
    Close,
    Other,
}

/// The command that a received frame asks this server to run: the content of
/// a `stdin` message addressed to `server_name`, and nothing for any other frame.
pub open spec fn command_for(frame: IncomingFrame, server_name: Seq<char>) -> Option<String> {
    match frame {
        IncomingFrame::Text(Some(IncomingMessage::Stdin { server, content })) if server@ == server_name => Some(content),
        _ => None,
    }
}

/// A frame yields a command only when it is a `stdin` message whose server is
/// exactly this server's name, and the command is then its content whole.
pub proof fn lemma_command_only_for_this_server(frame: IncomingFrame, server_name: Seq<char>)
    ensures
        command_for(frame, server_name) matches Some(c) ==> (frame matches IncomingFrame::Text(
            Some(IncomingMessage::Stdin { server, content }),
        ) && server@ == server_name && c == content),
        frame matches IncomingFrame::Text(Some(IncomingMessage::Stdin { server, content })) ==> (command_for(
            frame,
            server_name,
        ) is Some <==> server@ == server_name),
        frame matches IncomingFrame::Text(Some(IncomingMessage::Stdin { server, content })) ==> (server@
            == server_name ==> command_for(frame, server_name) == Some(content)),
{
}

/// Handles a frame from the API: a close frame ends the connection; any other
/// frame gives the command it carries for this server, if any. Commands for
/// other servers, other messages, text that is not a message and non-text
/// frames are ignored.
pub fn handle_incoming_message(frame: IncomingFrame, server_name: &str) -> (r: WsResult<Option<String>>)
    ensures
        frame is Close ==> r == Err::<Option<String>, WsError>(WsError::ConnectionClosed),
        !(frame is Close) ==> r == Ok::<Option<String>, WsError>(command_for(frame, server_name@)),
{
    match frame {
        IncomingFrame::Text(Some(IncomingMessage::Stdin { server, content })) => {
            if server == String::from_str(server_name) {
                Ok(Some(content))
            } else {
                Ok(None)
            }
        },
        IncomingFrame::Text(_) => Ok(None),
        IncomingFrame::Close => Err(WsError::ConnectionClosed),
        IncomingFrame::Other => Ok(None),
    }
}

/// An event during one connection to the API.
#[derive(Debug)]
pub enum SessionEvent {
    /// The API URL could not be built; the text says why.
    UrlInvalid(String),
    /// The connection could not be opened; the text says why.
    ConnectFailed(String),
    /// The connection is open.
    Connected,
    /// A message is waiting to be sent.
    Outgoing(OutgoingMessage),
    /// No message will come any more: the console has closed.
    OutgoingClosed,
    /// A frame arrived from the API.
    Incoming(IncomingFrame),
    /// Reading from the API failed; the text says why.
    IncomingFailed(String),
    /// The API stream ended.
    IncomingEnded,
    /// Sending failed; the text says why.
    SendFailed(String),
}

/// What the client does next during a connection.
#[derive(Debug, PartialEq, Eq)]
pub enum SessionAction {
    /// Send these text frames, in this order.
    Send(Vec<String>),
    /// Write this command to the console.
    Forward(String),
    /// Nothing to do; go on.
    Continue,
    /// Send a close frame; the connection ended normally.
    CloseAndFinish,
    /// The connection ended with this error.
    Finish(WsError),
}

/// The texts of a list of frames.
pub open spec fn frame_texts(frames: Seq<String>) -> Seq<Seq<char>> {
    frames.map_values(|t: String| t@)
}

/// The authentication frame of a configuration.
pub open spec fn auth_frame_of(config: Config) -> Seq<char> {
    auth_json("auth"@, config.server_name@, config.server_type@, config.secret_key@)
}

/// The authentication frame of a configuration reads back as a JSON object to
/// the type `auth` and the configuration's server name, server type and
/// secret key, in that order.
pub proof fn lemma_auth_frame_carries_the_configuration(config: Config)
    ensures
        json_read_object(auth_frame_of(config)) == Some(
            seq![
                ("type"@, "auth"@),
                ("server"@, config.server_name@),
                ("server_type"@, config.server_type@),
                ("secret_key"@, config.secret_key@),
            ],
        ),
{
    lemma_auth_json_reads_back("auth"@, config.server_name@, config.server_type@, config.secret_key@);
}

/// One connection's state: which server it speaks for, its authentication
/// frame, and (as a ghost record) the text frames it has had sent so far. The
/// authentication frame is always the first frame of a connection.
pub struct Session {
    server_name: String,
    auth_frame: String,
    auth_sent: bool,
    sent: Ghost<Seq<Seq<char>>>,
}

impl Session {
    #[verifier::type_invariant]
    spec fn inv(self) -> bool {
        &&& self.auth_sent == (self.sent@.len() > 0)
        &&& self.sent@.len() > 0 ==> self.sent@[0] == self.auth_frame@
    }

    /// The server this connection speaks for.
    pub closed spec fn server(&self) -> Seq<char> {
        self.server_name@
    }

    /// The authentication frame of this connection.
    pub closed spec fn auth_text(&self) -> Seq<char> {
        self.auth_frame@
    }

    /// The text frames sent so far, in order.
    pub closed spec fn frames_sent(&self) -> Seq<Seq<char>> {
        self.sent@
    }

    /// A connection for `config`, with nothing sent.
    pub fn new(config: &Config) -> (s: Self)
        ensures
            s.server() == config.server_name@,
            s.auth_text() == auth_frame_of(*config),
            s.frames_sent() == Seq::<Seq<char>>::empty(),
    {
        let auth = AuthMessage::new(
            config.server_name.as_str(),
            config.server_type.as_str(),
            config.secret_key.as_str(),
        );
        let auth_frame = match auth.to_json() {
            Ok(text) => text,
            Err(_) => unreached(),
        };
        Session {
            server_name: String::from_str(config.server_name.as_str()),
            auth_frame,
            auth_sent: false,
            sent: Ghost(Seq::empty()),
        }
    }

    /// The first frame of the connection, when nothing has been sent yet.
    fn auth_first(&self) -> (frames: Vec<String>)
        ensures
            self.frames_sent().len() == 0 ==> frame_texts(frames@) == seq![self.auth_text()],
            self.frames_sent().len() > 0 ==> frames@.len() == 0,
    {
        proof {
            use_type_invariant(self);
        }
        let mut frames: Vec<String> = Vec::new();
        if !self.auth_sent {
            frames.push(self.auth_frame.clone());
        }
        proof {
            assert(frame_texts(frames@) =~= if self.auth_sent { Seq::empty() } else { seq![self.auth_text()] });
        }
        frames
    }

    /// Decides what an event during the connection leads to. The
    /// authentication frame is sent first, as soon as the connection is open
    /// (or before the first outgoing message, should one come first); each
    /// outgoing message is then sent as its JSON text; frames from the API are
    /// handled as by `handle_incoming_message`; every failure ends the
    /// connection with its error. The frames of a `Send` are recorded as sent.
    pub fn step(&mut self, event: SessionEvent) -> (a: SessionAction)
        ensures
            final(self).server() == old(self).server(),
            final(self).auth_text() == old(self).auth_text(),
            final(self).frames_sent().len() > 0 ==> final(self).frames_sent()[0] == final(self).auth_text(),
            match a {
                SessionAction::Send(frames) => final(self).frames_sent() == old(self).frames_sent() + frame_texts(frames@),
                _ => final(self).frames_sent() == old(self).frames_sent(),
            },
            match event {
                SessionEvent::UrlInvalid(m) => a == SessionAction::Finish(WsError::UrlError(m)),
                SessionEvent::ConnectFailed(m) => a == SessionAction::Finish(WsError::ConnectionFailed(m)),
                SessionEvent::Connected => if old(self).frames_sent().len() == 0 {
                    a matches SessionAction::Send(frames) && frame_texts(frames@) == seq![old(self).auth_text()]
                } else {
                    a == SessionAction::Continue
                },
                SessionEvent::Outgoing(m) => a matches SessionAction::Send(frames) && frame_texts(frames@) == (if old(
                    self,
                ).frames_sent().len() == 0 {
                    seq![old(self).auth_text(), outgoing_json(m)]
                } else {
                    seq![outgoing_json(m)]
                }),
                SessionEvent::OutgoingClosed => a == SessionAction::CloseAndFinish,
                SessionEvent::Incoming(f) => if f is Close {
                    a == SessionAction::Finish(WsError::ConnectionClosed)
                } else {
                    match command_for(f, old(self).server()) {
                        Some(c) => a == SessionAction::Forward(c),
                        None => a == SessionAction::Continue,
                    }
                },
                SessionEvent::IncomingFailed(m) => a == SessionAction::Finish(WsError::ReceiveFailed(m)),
                SessionEvent::IncomingEnded => a == SessionAction::Finish(WsError::ConnectionClosed),
                SessionEvent::SendFailed(m) => a == SessionAction::Finish(WsError::SendFailed(m)),
            },
    {
        proof {
            use_type_invariant(&*self);
        }
        match event {
            SessionEvent::UrlInvalid(m) => SessionAction::Finish(WsError::UrlError(m)),
            SessionEvent::ConnectFailed(m) => SessionAction::Finish(WsError::ConnectionFailed(m)),
            SessionEvent::Connected => {
                if self.auth_sent {
                    SessionAction::Continue
                } else {
                    let frames = self.auth_first();
                    assert(frame_texts(frames@).len() == frames@.len());
                    self.record(&frames);
                    SessionAction::Send(frames)
                }
            },
            SessionEvent::Outgoing(m) => {
                let text = match m.to_json() {
                    Ok(text) => text,
                    Err(_) => unreached(),
                };
                let mut frames = self.auth_first();
                let ghost before = frame_texts(frames@);
                frames.push(text);
                proof {
                    assert(frame_texts(frames@) =~= before.push(outgoing_json(m)));
                }
                self.record(&frames);
                SessionAction::Send(frames)
            },
            SessionEvent::OutgoingClosed => SessionAction::CloseAndFinish,
            SessionEvent::Incoming(f) => match handle_incoming_message(f, self.server_name.as_str()) {
                Ok(Some(c)) => SessionAction::Forward(c),
                Ok(None) => SessionAction::Continue,
                Err(e) => SessionAction::Finish(e),
            },
            SessionEvent::IncomingFailed(m) => SessionAction::Finish(WsError::ReceiveFailed(m)),
            SessionEvent::IncomingEnded => SessionAction::Finish(WsError::ConnectionClosed),
            SessionEvent::SendFailed(m) => SessionAction::Finish(WsError::SendFailed(m)),
        }
    }

    /// Records `frames` as sent.
    fn record(&mut self, frames: &Vec<String>)
        requires
            frames@.len() > 0,
            old(self).frames_sent().len() == 0 ==> frame_texts(frames@)[0] == old(self).auth_text(),
        ensures
            final(self).server() == old(self).server(),
            final(self).auth_text() == old(self).auth_text(),
            final(self).frames_sent() == old(self).frames_sent() + frame_texts(frames@),
    {
        proof {
            use_type_invariant(&*self);
        }
        let ghost sent = self.sent@ + frame_texts(frames@);
        assert(sent.len() > 0 && sent[0] == self.auth_frame@);
        *self = Session {
            server_name: self.server_name.clone(),
            auth_frame: self.auth_frame.clone(),
            auth_sent: true,
            sent: Ghost(sent),
        };
    }
}

/// The client's end of the connection to the API: its configuration, the
/// queue of messages to send and the queue of commands for the console.
pub struct WebSocketClient {
    pub config: Config,
    pub outgoing_rx: tokio::sync::mpsc::Receiver<OutgoingMessage>,
    pub incoming_tx: tokio::sync::mpsc::Sender<String>,
}

impl WebSocketClient {
    /// A client over the given configuration and queues.
    pub fn new(
        config: Config,
        outgoing_rx: tokio::sync::mpsc::Receiver<OutgoingMessage>,
        incoming_tx: tokio::sync::mpsc::Sender<String>,
    ) -> (c: Self)
        ensures
            c.config == config,
            c.outgoing_rx == outgoing_rx,
            c.incoming_tx == incoming_tx,
    {
        WebSocketClient { config, outgoing_rx, incoming_tx }
    }
}

} // verus!
