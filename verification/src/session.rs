//! The connection state machine and the duplex channel of one serial session.
//!
//! A [`Session`] never touches a device. A driver holds the device handle on
//! the session's behalf: it opens what [`Session::connect`] asks for, keeps the
//! handle exactly as long as [`Session::holds_handle`] says, and reports every
//! open, read and write through [`Session::on_open`], [`Session::on_read`] and
//! [`Session::on_write`].

use vstd::prelude::*;
use vstd::string::StringExecFns;
use crate::err::{ErrorView, RSComError};
use crate::serial::Baudrate;

verus! {

/// The reason given when a connection is asked for without a port.
pub const EMPTY_PORT_REASON: &'static str = "no serial port selected";

/// Where a session stands.
#[derive(Debug, PartialEq, Eq)]
pub enum ConnectionState {
    /// No link, and none asked for. A session starts and may end here.
    Disconnected,
    /// The device is being opened.
    Connecting,
    /// The link is up and the duplex channel runs.
    Connected,
    /// The last attempt or the last link failed, for the reason given.
    Failed(String),
}

/// A [`ConnectionState`] as a mathematical value.
pub enum StateView {
    Disconnected,
    Connecting,
    Connected,
    Failed(Seq<char>),
}

impl View for ConnectionState {
    type V = StateView;

    open spec fn view(&self) -> StateView {
        match self {
            ConnectionState::Disconnected => StateView::Disconnected,
            ConnectionState::Connecting => StateView::Connecting,
            ConnectionState::Connected => StateView::Connected,
            ConnectionState::Failed(reason) => StateView::Failed(reason@),
        }
    }
}

impl Clone for ConnectionState {
    fn clone(&self) -> (copy: ConnectionState)
        ensures
            copy@ == self@,
    {
        match self {
            ConnectionState::Disconnected => ConnectionState::Disconnected,
            ConnectionState::Connecting => ConnectionState::Connecting,
            ConnectionState::Connected => ConnectionState::Connected,
            ConnectionState::Failed(reason) => ConnectionState::Failed(reason.clone()),
        }
    }
}

/// Which device to open, and how fast to talk to it.
#[derive(Debug, PartialEq, Eq)]
pub struct ConnectionConfig {
    pub port: String,
    pub baudrate: Baudrate,
}

/// A [`ConnectionConfig`] as a mathematical value.
pub struct ConfigView {
    pub port: Seq<char>,
    pub baudrate: Baudrate,
}

impl View for ConnectionConfig {
    type V = ConfigView;

    open spec fn view(&self) -> ConfigView {
        ConfigView { port: self.port@, baudrate: self.baudrate }
    }
}

impl ConfigView {
    /// No port, 115200 baud.
    pub open spec fn initial() -> ConfigView {
        ConfigView { port: Seq::empty(), baudrate: Baudrate::Baud115200 }
    }

    /// What a stored record stands for: each field that is missing, and a
    /// rate that names no member, is replaced by its default.
    pub open spec fn restored(port: Option<Seq<char>>, baudrate: Option<Seq<char>>) -> ConfigView {
        ConfigView {
            port: match port {
                Some(name) => name,
                None => Seq::empty(),
            },
            baudrate: match baudrate {
                Some(name) => Baudrate::parse_name_or_default(name),
                None => Baudrate::Baud115200,
            },
        }
    }
}

impl Clone for ConnectionConfig {
    fn clone(&self) -> (copy: ConnectionConfig)
        ensures
            copy@ == self@,
    {
        ConnectionConfig { port: self.port.clone(), baudrate: self.baudrate }
    }
}

impl Default for ConnectionConfig {
    /// No port, 115200 baud.
    fn default() -> (config: ConnectionConfig)
        ensures
            config@ == ConfigView::initial(),
    {
        ConnectionConfig { port: String::new(), baudrate: Baudrate::Baud115200 }
    }
}

impl ConnectionConfig {
    /// Rebuilds the configuration from a stored record. The port is stored as
    /// it is, the rate under its name. A field that is missing, and a rate
    /// that names no member, falls back to its default.
    pub fn restore(port: Option<String>, baudrate: Option<&str>) -> (config: ConnectionConfig)
        ensures
            config@ == ConfigView::restored(
                match port {
                    Some(name) => Some(name@),
                    None => None,
                },
                match baudrate {
                    Some(name) => Some(name@),
                    None => None,
                },
            ),
    {
        let port = match port {
            Some(name) => name,
            None => String::new(),
        };
        let baudrate = match baudrate {
            Some(name) => Baudrate::from_name_or_default(name),
            None => Baudrate::Baud115200,
        };
        ConnectionConfig { port, baudrate }
    }
}

/// What the driver is to open after a call of [`Session::connect`].
#[derive(Debug, PartialEq, Eq)]
pub struct OpenRequest {
    pub port: String,
    pub baud: u32,
}

/// A [`Session`] as a mathematical value.
pub struct SessionView {
    pub state: StateView,
    /// The configuration of the last connection asked for.
    pub config: ConfigView,
    /// Every byte received since the link was established, oldest first.
    pub log: Seq<u8>,
    /// The bytes accepted for sending that the device has not taken yet.
    pub outbound: Seq<u8>,
}

impl SessionView {
    /// Nothing waits to be sent unless the link is up.
    pub open spec fn wf(self) -> bool {
        !(self.state is Connected) ==> self.outbound.len() == 0
    }

    /// A fresh session: no link, nothing received, nothing to send.
    pub open spec fn initial(config: ConfigView) -> SessionView {
        SessionView {
            state: StateView::Disconnected,
            config,
            log: Seq::empty(),
            outbound: Seq::empty(),
        }
    }

    /// Whether the driver holds a device handle for this session.
    pub open spec fn holds_handle(self) -> bool {
        self.state is Connected
    }

    /// The caller gives the link up. An attempt or a link that is under way is
    /// abandoned; a session without one stays as it is. The log is kept.
    pub open spec fn disconnect(self) -> SessionView {
        match self.state {
            StateView::Connecting | StateView::Connected => SessionView {
                state: StateView::Disconnected,
                outbound: Seq::empty(),
                ..self
            },
            _ => self,
        }
    }

    /// The caller asks for a link. Whatever was under way is abandoned first.
    /// Without a port the attempt has failed at once; with one, the device is
    /// being opened.
    pub open spec fn connect(self, config: ConfigView) -> SessionView {
        SessionView {
            state: if config.port.len() == 0 {
                StateView::Failed(EMPTY_PORT_REASON@)
            } else {
                StateView::Connecting
            },
            config,
            log: self.log,
            outbound: Seq::empty(),
        }
    }

    /// The driver has opened the device. A session that waits for it starts
    /// with an empty log; any other session ignores the report.
    pub open spec fn opened(self) -> SessionView {
        if self.state is Connecting {
            SessionView {
                state: StateView::Connected,
                log: Seq::empty(),
                outbound: Seq::empty(),
                ..self
            }
        } else {
            self
        }
    }

    /// The driver could not open the device.
    pub open spec fn open_failed(self, reason: Seq<char>) -> SessionView {
        if self.state is Connecting {
            SessionView { state: StateView::Failed(reason), ..self }
        } else {
            self
        }
    }

    /// The device has delivered bytes. They go to the end of the log while the
    /// link is up, and nowhere otherwise.
    pub open spec fn received(self, bytes: Seq<u8>) -> SessionView {
        if self.state is Connected {
            SessionView { log: self.log + bytes, ..self }
        } else {
            self
        }
    }

    /// A read or a write has failed. A link that is up is lost, and what
    /// waited to be sent with it.
    pub open spec fn faulted(self, reason: Seq<char>) -> SessionView {
        if self.state is Connected {
            SessionView { state: StateView::Failed(reason), outbound: Seq::empty(), ..self }
        } else {
            self
        }
    }

    /// The caller hands over a payload. While the link is up it queues behind
    /// what already waits; otherwise it is refused.
    pub open spec fn send(self, payload: Seq<u8>) -> SessionView {
        if self.state is Connected {
            SessionView { outbound: self.outbound + payload, ..self }
        } else {
            self
        }
    }

    /// How many of the waiting bytes a write of `count` bytes has taken.
    pub open spec fn taken(self, count: nat) -> nat {
        if count <= self.outbound.len() {
            count
        } else {
            self.outbound.len()
        }
    }

    /// The device has taken `count` bytes from the front of what waits.
    pub open spec fn wrote(self, count: nat) -> SessionView {
        SessionView { outbound: self.outbound.skip(self.taken(count) as int), ..self }
    }
}

/// One serial session: its state, its configuration, what it has received and
/// what it still has to send.
#[derive(Debug)]
pub struct Session {
    state: ConnectionState,
    config: ConnectionConfig,
    log: Vec<u8>,
    outbound: Vec<u8>,
}

impl View for Session {
    type V = SessionView;

    closed spec fn view(&self) -> SessionView {
        SessionView {
            state: self.state@,
            config: self.config@,
            log: self.log@,
            outbound: self.outbound@,
        }
    }
}

impl Session {
    #[verifier::type_invariant]
    spec fn inv(&self) -> bool {
        self@.wf()
    }

    /// A session without a link, with the configuration to start from.
    pub fn new(config: ConnectionConfig) -> (session: Session)
        ensures
            session@ == SessionView::initial(config@),
            session@.wf(),
    {
        Session { state: ConnectionState::Disconnected, config, log: Vec::new(), outbound: Vec::new() }
    }

    /// Where the session stands now.
    pub fn current_state(&self) -> (state: ConnectionState)
        ensures
            state@ == self@.state,
    {
        self.state.clone()
    }

    /// Whether the driver is to hold a device handle: exactly while the link
    /// is up.
    pub fn holds_handle(&self) -> (held: bool)
        ensures
            held == self@.holds_handle(),
    {
        match self.state {
            ConnectionState::Connected => true,
            _ => false,
        }
    }

    /// The configuration of the last connection asked for.
    pub fn config(&self) -> (config: &ConnectionConfig)
        ensures
            config@ == self@.config,
    {
        &self.config
    }

    /// Every byte received since the link was last established, oldest first.
    pub fn output_log(&self) -> (log: &[u8])
        ensures
            log@ == self@.log,
    {
        self.log.as_slice()
    }

    /// The bytes that the driver is to write next, in this order. Empty unless
    /// the link is up.
    pub fn pending_write(&self) -> (bytes: &[u8])
        ensures
            bytes@ == self@.outbound,
            self@.wf(),
    {
        proof {
            use_type_invariant(self);
        }
        self.outbound.as_slice()
    }

    /// Gives the link up. The driver stops reading and writing and releases
    /// the handle; the log stays. Without a link this changes nothing.
    pub fn disconnect(&mut self)
        ensures
            final(self)@ == old(self)@.disconnect(),
            final(self)@.wf(),
            old(self)@.state is Disconnected ==> final(self)@ == old(self)@,
            final(self)@.state is Failed ==> old(self)@.state is Failed,
    {
        proof {
            use_type_invariant(&*self);
        }
        match self.state {
            ConnectionState::Connecting | ConnectionState::Connected => {
                self.outbound = Vec::new();
                self.state = ConnectionState::Disconnected;
            },
            _ => {},
        }
    }

    /// Asks for a link to the device that `config` names, and keeps `config`
    /// as the session's configuration. Whatever was under way is abandoned
    /// first, as by [`Session::disconnect`].
    ///
    /// With a port, the session is connecting and the driver is to open what
    /// the request says, then report through [`Session::on_open`]. Whether the
    /// host knows the port is for the host to say when the device is opened.
    /// Without a port, the attempt has failed at once.
    pub fn connect(&mut self, config: ConnectionConfig) -> (asked: Result<OpenRequest, RSComError>)
        ensures
            final(self)@ == old(self)@.connect(config@),
            final(self)@.wf(),
            match asked {
                Ok(request) => {
                    &&& config@.port.len() > 0
                    &&& request.port@ == config@.port
                    &&& request.baud == config@.baudrate.bits_per_second()
                },
                Err(error) => {
                    &&& config@.port.len() == 0
                    &&& error@ == ErrorView::ConnectionOpenError(EMPTY_PORT_REASON@)
                },
            },
    {
        self.outbound = Vec::new();
        if config.port.as_str().is_empty() {
            self.state = ConnectionState::Failed(String::from_str(EMPTY_PORT_REASON));
            self.config = config;
            Err(RSComError::ConnectionOpenError(String::from_str(EMPTY_PORT_REASON)))
        } else {
            let request = OpenRequest { port: config.port.clone(), baud: u32::from(config.baudrate) };
            self.state = ConnectionState::Connecting;
            self.config = config;
            Ok(request)
        }
    }

    /// The driver reports how opening the device went.
    ///
    /// A session that is connecting takes the outcome: on success the link is
    /// up and the log starts empty; on failure the session has failed for the
    /// reason given, which is also returned as the error. Any other session
    /// ignores the report, and a handle that came with it is not held.
    pub fn on_open(&mut self, outcome: Result<(), String>) -> (report: Result<(), RSComError>)
        ensures
            final(self)@ == match outcome {
                Ok(_) => old(self)@.opened(),
                Err(reason) => old(self)@.open_failed(reason@),
            },
            final(self)@.wf(),
            old(self)@.state is Connecting && outcome is Ok ==> final(self)@.state is Connected
                && final(self)@.log == Seq::<u8>::empty(),
            match report {
                Ok(_) => !(outcome is Err && old(self)@.state is Connecting),
                Err(error) => {
                    &&& old(self)@.state is Connecting
                    &&& outcome matches Err(reason)
                    &&& error@ == ErrorView::ConnectionOpenError(reason@)
                },
            },
    {
        proof {
            use_type_invariant(&*self);
        }
        match self.state {
            ConnectionState::Connecting => {},
            _ => {
                return Ok(());
            },
        }
        match outcome {
            Ok(_) => {
                self.log = Vec::new();
                self.outbound = Vec::new();
                self.state = ConnectionState::Connected;
                Ok(())
            },
            Err(reason) => {
                self.state = ConnectionState::Failed(reason.clone());
                Err(RSComError::ConnectionOpenError(reason))
            },
        }
    }

    /// The driver reports one read attempt.
    ///
    /// While the link is up, the bytes read go to the end of the log in the
    /// order received; a read of no bytes changes nothing. A failed read ends
    /// the link: the session has failed for the reason given, nothing waits to
    /// be sent any more, and the reason is returned as the error. Without a
    /// link the report is ignored.
    pub fn on_read(&mut self, outcome: Result<&[u8], String>) -> (report: Result<(), RSComError>)
        ensures
            final(self)@ == match outcome {
                Ok(bytes) => old(self)@.received(bytes@),
                Err(reason) => old(self)@.faulted(reason@),
            },
            final(self)@.wf(),
            old(self)@.state is Connected && outcome is Err ==> final(self)@.state is Failed
                && !final(self)@.holds_handle(),
            match report {
                Ok(_) => !(outcome is Err && old(self)@.state is Connected),
                Err(error) => {
                    &&& old(self)@.state is Connected
                    &&& outcome matches Err(reason)
                    &&& error@ == ErrorView::IoFault(reason@)
                },
            },
    {
        proof {
            use_type_invariant(&*self);
        }
        match self.state {
            ConnectionState::Connected => {},
            _ => {
                return Ok(());
            },
        }
        match outcome {
            Ok(bytes) => {
                let mut log: Vec<u8> = Vec::new();
                core::mem::swap(&mut self.log, &mut log);
                log.extend_from_slice(bytes);
                assert(log@ =~= old(self).log@ + bytes@);
                self.log = log;
                Ok(())
            },
            Err(reason) => self.fail(reason),
        }
    }

    /// Accepts a payload for sending. While the link is up, the payload queues
    /// behind what already waits, so that payloads leave whole and in the
    /// order accepted. Without a link it is refused and nothing changes.
    pub fn send(&mut self, payload: &[u8]) -> (accepted: bool)
        ensures
            final(self)@ == old(self)@.send(payload@),
            final(self)@.wf(),
            accepted == old(self)@.state is Connected,
    {
        proof {
            use_type_invariant(&*self);
        }
        match self.state {
            ConnectionState::Connected => {},
            _ => {
                return false;
            },
        }
        let mut queue: Vec<u8> = Vec::new();
        core::mem::swap(&mut self.outbound, &mut queue);
        queue.extend_from_slice(payload);
        assert(queue@ =~= old(self).outbound@ + payload@);
        self.outbound = queue;
        true
    }

    /// The driver reports one write attempt on [`Session::pending_write`].
    ///
    /// A write that took `count` bytes removes that many from the front of
    /// what waits (all of it, should `count` exceed it); the rest is offered
    /// again. A failed write ends the link like a failed read.
    pub fn on_write(&mut self, outcome: Result<usize, String>) -> (report: Result<(), RSComError>)
        ensures
            final(self)@ == match outcome {
                Ok(count) => old(self)@.wrote(count as nat),
                Err(reason) => old(self)@.faulted(reason@),
            },
            final(self)@.wf(),
            old(self)@.state is Connected && outcome is Err ==> final(self)@.state is Failed
                && !final(self)@.holds_handle(),
            match report {
                Ok(_) => !(outcome is Err && old(self)@.state is Connected),
                Err(error) => {
                    &&& old(self)@.state is Connected
                    &&& outcome matches Err(reason)
                    &&& error@ == ErrorView::IoFault(reason@)
                },
            },
    {
        proof {
            use_type_invariant(&*self);
        }
        match self.state {
            ConnectionState::Connected => {},
            _ => {
                assert(self@.outbound.skip(0) =~= self@.outbound);
                return Ok(());
            },
        }
        match outcome {
            Ok(count) => {
                let mut queue: Vec<u8> = Vec::new();
                core::mem::swap(&mut self.outbound, &mut queue);
                let taken: usize = if count <= queue.len() {
                    count
                } else {
                    queue.len()
                };
                let rest = queue.split_off(taken);
                self.outbound = rest;
                Ok(())
            },
            Err(reason) => self.fail(reason),
        }
    }

    /// Ends a link that is up, for the reason given.
    fn fail(&mut self, reason: String) -> (report: Result<(), RSComError>)
        requires
            old(self)@.state is Connected,
        ensures
            final(self)@ == old(self)@.faulted(reason@),
            final(self)@.wf(),
            report matches Err(error) && error@ == ErrorView::IoFault(reason@),
    {
        self.outbound = Vec::new();
        self.state = ConnectionState::Failed(reason.clone());
        Err(RSComError::IoFault(reason))
    }
}

impl Default for Session {
    /// A session without a link: no port, 115200 baud, nothing received.
    fn default() -> (session: Session)
        ensures
            session@ == SessionView::initial(ConfigView::initial()),
            session@.wf(),
    {
        Session::new(ConnectionConfig::default())
    }
}

/// Every step of a session keeps it well formed: nothing ever waits to be
/// sent on a session whose link is not up.
pub proof fn lemma_steps_keep_wf(
    before: SessionView,
    config: ConfigView,
    reason: Seq<char>,
    bytes: Seq<u8>,
    count: nat,
)
    requires
        before.wf(),
    ensures
        SessionView::initial(config).wf(),
        before.connect(config).wf(),
        before.disconnect().wf(),
        before.opened().wf(),
        before.open_failed(reason).wf(),
        before.received(bytes).wf(),
        before.faulted(reason).wf(),
        before.send(bytes).wf(),
        before.wrote(count).wf(),
{
}

/// Giving up a link that is not there changes nothing, giving it up twice is
/// giving it up once, and giving it up never makes a session fail.
pub proof fn lemma_disconnect_is_idempotent(before: SessionView)
    requires
        before.wf(),
    ensures
        before.state is Disconnected ==> before.disconnect() == before,
        before.disconnect().disconnect() == before.disconnect(),
        before.disconnect().state is Failed ==> before.state is Failed,
        before.disconnect().state is Failed ==> before.disconnect() == before,
        !before.disconnect().holds_handle(),
        before.disconnect().log == before.log,
{
}

/// Only one link is under way at a time: asking for a link abandons whatever
/// was under way, as giving it up first would have.
pub proof fn lemma_connect_gives_up_first(before: SessionView, config: ConfigView)
    ensures
        before.connect(config) == before.disconnect().connect(config),
        !before.connect(config).holds_handle(),
{
}

/// Asking for a link with a port and then opening the device brings the
/// link up with an empty log, whatever the session had received before.
pub proof fn lemma_connect_then_open(before: SessionView, config: ConfigView)
    requires
        config.port.len() > 0,
    ensures
        before.connect(config).state is Connecting,
        before.connect(config).opened().state is Connected,
        before.connect(config).opened().log == Seq::<u8>::empty(),
        before.connect(config).opened().config == config,
        before.connect(config).log == before.log,
{
}

/// Asking for a link without a port fails at once: the session is never left
/// connecting, and a later report that the device was opened does not bring
/// the link up.
pub proof fn lemma_connect_without_port(before: SessionView, config: ConfigView)
    requires
        config.port.len() == 0,
    ensures
        before.connect(config).state == StateView::Failed(EMPTY_PORT_REASON@),
        before.connect(config).opened() == before.connect(config),
{
}

/// A failed attempt to open the device leaves the session failed for the
/// reason given, and a fresh attempt with a port replaces that reason.
pub proof fn lemma_open_failure_and_retry(
    before: SessionView,
    reason: Seq<char>,
    config: ConfigView,
)
    requires
        before.state is Connecting,
        config.port.len() > 0,
    ensures
        before.open_failed(reason).state == StateView::Failed(reason),
        before.open_failed(reason).log == before.log,
        before.open_failed(reason).connect(config).state is Connecting,
{
}

/// A fault on a link that is up ends it for the reason given. The handle is
/// gone, nothing waits to be sent, and from then on reads add nothing to the
/// log, payloads are refused and writes take nothing, until a link is asked
/// for again.
pub proof fn lemma_fault_ends_link(
    before: SessionView,
    reason: Seq<char>,
    bytes: Seq<u8>,
    count: nat,
    later: Seq<char>,
)
    requires
        before.wf(),
        before.state is Connected,
    ensures
        before.faulted(reason).state == StateView::Failed(reason),
        !before.faulted(reason).holds_handle(),
        before.faulted(reason).outbound == Seq::<u8>::empty(),
        before.faulted(reason).log == before.log,
        before.faulted(reason).received(bytes) == before.faulted(reason),
        before.faulted(reason).send(bytes) == before.faulted(reason),
        before.faulted(reason).wrote(count) == before.faulted(reason),
        before.faulted(reason).faulted(later) == before.faulted(reason),
        before.faulted(reason).disconnect() == before.faulted(reason),
{
    let after = before.faulted(reason);
    assert(after.wrote(count).outbound =~= after.outbound);
}

/// The link comes up in one way only, by opening the device for a session
/// that waits for it, and a session fails in three ways only: asked to connect
/// without a port, told that the device could not be opened, or told of a
/// fault on a link that was up.
pub proof fn lemma_how_states_are_entered(
    before: SessionView,
    config: ConfigView,
    reason: Seq<char>,
    bytes: Seq<u8>,
    count: nat,
)
    ensures
        !before.connect(config).holds_handle(),
        !before.disconnect().holds_handle(),
        before.opened().holds_handle() <==> before.state is Connecting || before.state is Connected,
        before.open_failed(reason).holds_handle() <==> before.holds_handle(),
        before.received(bytes).holds_handle() <==> before.holds_handle(),
        before.send(bytes).holds_handle() <==> before.holds_handle(),
        before.wrote(count).holds_handle() <==> before.holds_handle(),
        !before.faulted(reason).holds_handle(),
        before.connect(config).state is Failed <==> config.port.len() == 0,
        before.open_failed(reason).state is Failed <==> before.state is Connecting
            || before.state is Failed,
        before.faulted(reason).state is Failed <==> before.state is Connected
            || before.state is Failed,
        before.disconnect().state is Failed <==> before.state is Failed,
        before.opened().state is Failed <==> before.state is Failed,
        before.received(bytes).state == before.state,
        before.send(bytes).state == before.state,
        before.wrote(count).state == before.state,
{
}

/// The configuration is the one of the last connection asked for: asking for
/// a link replaces it, with or without a port, and no other step touches it.
pub proof fn lemma_config_follows_connect(
    before: SessionView,
    config: ConfigView,
    reason: Seq<char>,
    bytes: Seq<u8>,
    count: nat,
)
    ensures
        before.connect(config).config == config,
        before.disconnect().config == before.config,
        before.opened().config == before.config,
        before.open_failed(reason).config == before.config,
        before.received(bytes).config == before.config,
        before.faulted(reason).config == before.config,
        before.send(bytes).config == before.config,
        before.wrote(count).config == before.config,
{
}

/// The log only grows: but for the moment a link is established, every step
/// leaves what was received in place, and a read puts its bytes behind it.
/// A read of no bytes changes nothing.
pub proof fn lemma_log_only_grows(
    before: SessionView,
    config: ConfigView,
    reason: Seq<char>,
    bytes: Seq<u8>,
    count: nat,
)
    ensures
        before.connect(config).log == before.log,
        before.disconnect().log == before.log,
        before.open_failed(reason).log == before.log,
        before.faulted(reason).log == before.log,
        before.send(bytes).log == before.log,
        before.wrote(count).log == before.log,
        before.state is Connected ==> before.received(bytes).log == before.log + bytes,
        before.log.is_prefix_of(before.received(bytes).log),
        before.received(Seq::<u8>::empty()) == before,
{
}

/// Payloads leave whole and in the order accepted: a second payload queues
/// behind the first, and what a write took, followed by what still waits, is
/// what waited before the write.
pub proof fn lemma_writes_are_in_order(
    before: SessionView,
    first: Seq<u8>,
    second: Seq<u8>,
    count: nat,
)
    requires
        before.state is Connected,
    ensures
        before.send(first).send(second).outbound == before.outbound + first + second,
        before.outbound == before.outbound.take(before.taken(count) as int) + before.wrote(
            count,
        ).outbound,
        count >= before.outbound.len() ==> before.wrote(count).outbound == Seq::<u8>::empty(),
        before.wrote(0) == before,
{
    assert(before.outbound =~= before.outbound.take(before.taken(count) as int)
        + before.outbound.skip(before.taken(count) as int));
    assert(before.wrote(0).outbound =~= before.outbound);
}

} // verus!
