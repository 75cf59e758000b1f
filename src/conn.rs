//! Connection options, the handshake that binds a transport to a dispatch
//! channel, and the driver that advances the connection.
//!
//! The driver does no I/O itself. The protocol engine that owns the wire
//! format reports what happened as an `Event`; the driver decides and answers
//! with the `Action` to perform.
use vstd::prelude::*;
use crate::dispatch::{idle, Dispatch, DispatchModel};
use crate::error::Error;
use crate::handle::SendRequest;
use crate::poll::Poll;

verus! {

/// The executor that a multiplexed connection spawns its background work on.
#[derive(Debug, Clone, Copy, PartialEq, Eq, Structural)]
pub enum Exec {
    /// The default executor of the runtime.
    Default,
    /// An executor that the caller registered under this token.
    Custom(u64),
}

/// The options of a connection.
#[derive(Debug, Clone, Copy, PartialEq, Eq, Structural)]
pub struct Builder {
    executor: Exec,
    h1_writev: bool,
    h1_title_case_headers: bool,
    http2: bool,
}

/// The abstract value of a `Builder`.
pub ghost struct Config {
    pub executor: Exec,
    pub h1_writev: bool,
    pub h1_title_case_headers: bool,
    pub http2: bool,
}

impl View for Builder {
    type V = Config;

    closed spec fn view(&self) -> Config {
        Config {
            executor: self.executor,
            h1_writev: self.h1_writev,
            h1_title_case_headers: self.h1_title_case_headers,
            http2: self.http2,
        }
    }
}

/// Which protocol a driver speaks, with what it owns for it.
#[derive(Debug)]
pub enum Proto<Io> {
    Http1 { io: Io, read_buf: Vec<u8>, upgrades: bool, writev: bool, title_case_headers: bool },
    Http2 { io: Io, executor: Exec },
}

/// Whether a driver still runs, or how it resolved.
#[derive(Debug, Clone, Copy, PartialEq, Eq, Structural)]
pub enum DriveState {
    Running,
    Done,
    Failed(Error),
}

/// What the protocol engine reports to the driver.
#[derive(Debug)]
pub enum Event<Resp> {
    /// The engine can take a new outgoing request.
    Writable,
    /// HTTP/1.1: the engine read a whole response, the answer to the oldest
    /// request in flight.
    Response(Resp),
    /// HTTP/2: the engine read a whole response to the request under this id.
    StreamResponse(u64, Resp),
    /// HTTP/2: the request under this id failed on its own stream, with the
    /// engine's code; the connection goes on.
    StreamFault(u64, u64),
    /// HTTP/1.1: bytes read from the transport that are not HTTP, such as the
    /// first bytes of the protocol that an upgrade switched to.
    Unconsumed(Vec<u8>),
    /// HTTP/1.1: the last response switched the connection to another protocol.
    Upgraded,
    /// The peer closed the transport.
    Eof,
    /// The transport or the engine failed, with the engine's code.
    Fault(u64),
}

/// What the driver asks of the protocol engine.
#[derive(Debug, PartialEq, Eq)]
pub enum Action<Req> {
    /// Encode and write this request, accepted under this id.
    Write(u64, Req),
    /// Nothing to do before the next event.
    Wait,
    /// The connection is done: shut the transport down.
    Shutdown,
    /// The connection is done: leave the transport open for its owner.
    Finish,
    /// The connection failed with this error.
    Fail(Error),
}

/// The driver of one connection.
#[derive(Debug)]
pub struct Connection<Io> {
    proto: Proto<Io>,
    state: DriveState,
}

/// The abstract value of a `Connection`.
pub ghost struct ConnModel<Io> {
    pub http2: bool,
    pub io: Io,
    pub read_buf: Seq<u8>,
    pub upgrades: bool,
    pub h1_writev: bool,
    pub h1_title_case_headers: bool,
    pub executor: Exec,
    pub state: DriveState,
}

impl<Io> View for Connection<Io> {
    type V = ConnModel<Io>;

    closed spec fn view(&self) -> ConnModel<Io> {
        match self.proto {
            Proto::Http1 { io, read_buf, upgrades, writev, title_case_headers } => ConnModel {
                http2: false,
                io: io,
                read_buf: read_buf@,
                upgrades: upgrades,
                h1_writev: writev,
                h1_title_case_headers: title_case_headers,
                executor: Exec::Default,
                state: self.state,
            },
            Proto::Http2 { io, executor } => ConnModel {
                http2: true,
                io: io,
                read_buf: Seq::empty(),
                upgrades: false,
                h1_writev: false,
                h1_title_case_headers: false,
                executor: executor,
                state: self.state,
            },
        }
    }
}

/// The transport of a finished HTTP/1.1 connection, with the bytes read from
/// it that were not consumed as HTTP.
#[derive(Debug)]
pub struct Parts<Io> {
    /// The transport handed to the handshake.
    pub io: Io,
    /// Bytes read but not processed as HTTP, such as the first bytes of an
    /// upgraded protocol.
    pub read_buf: Vec<u8>,
}

impl<Io> ConnModel<Io> {
    /// The model with another state.
    pub open spec fn with_state(self, state: DriveState) -> Self {
        ConnModel { state: state, ..self }
    }

    /// The action with which the driver reports success.
    pub open spec fn done_action<Req>(self, shutdown: bool) -> Action<Req> {
        if shutdown || self.http2 {
            Action::Shutdown
        } else {
            Action::Finish
        }
    }
}

/// One step of the driver: from the connection `c` and the channel `d`, the
/// event `ev` leads to the connection `c2`, the channel `d2` and the action
/// `r`. With `shutdown` false an HTTP/1.1 connection finishes without
/// shutting its transport down.
pub open spec fn stepped<Io, Req, Resp>(
    c: ConnModel<Io>,
    d: DispatchModel<Req, Resp>,
    ev: Event<Resp>,
    shutdown: bool,
    c2: ConnModel<Io>,
    d2: DispatchModel<Req, Resp>,
    r: Action<Req>,
) -> bool {
    let fails = |e: Error| c2 == c.with_state(DriveState::Failed(e)) && d2 == d.shut(e) && r
        == Action::<Req>::Fail(e);
    let done = c2 == c.with_state(DriveState::Done) && d2 == d.shut(Error::Canceled) && r
        == c.done_action::<Req>(shutdown);
    let waits = c2 == c && r == Action::<Req>::Wait;
    match ev {
        Event::Writable => if d.queue.len() > 0 && (c.http2 || d.in_flight.len() == 0) {
            c2 == c && d2 == d.taken() && r == Action::Write(d.queue[0].0, d.queue[0].1)
        } else if d.senders == 0 && idle(d) {
            done
        } else {
            waits && d2 == d
        },
        Event::Response(resp) => if !c.http2 && d.in_flight.len() > 0 {
            waits && d2 == d.answered(0, Ok(resp))
        } else {
            fails(Error::Unexpected)
        },
        Event::StreamResponse(id, resp) => if c.http2 && d.in_flight.contains(id) {
            waits && exists|i: int|
                0 <= i < d.in_flight.len() && d.in_flight[i] == id && d2 == d.answered(i, Ok(resp))
        } else {
            fails(Error::Unexpected)
        },
        Event::Unconsumed(bytes) => if !c.http2 {
            c2 == ConnModel { read_buf: c.read_buf + bytes@, ..c } && d2 == d && r
                == Action::<Req>::Wait
        } else {
            fails(Error::Unexpected)
        },
        Event::StreamFault(id, code) => if c.http2 && d.in_flight.contains(id) {
            waits && exists|i: int|
                0 <= i < d.in_flight.len() && d.in_flight[i] == id && d2 == d.answered(
                    i,
                    Err(Error::Fault(code)),
                )
        } else {
            fails(Error::Unexpected)
        },
        Event::Upgraded => if !c.http2 && c.upgrades {
            if idle(d) {
                done
            } else {
                fails(Error::Incomplete)
            }
        } else {
            fails(Error::Unexpected)
        },
        Event::Eof => if idle(d) {
            done
        } else {
            fails(Error::Incomplete)
        },
        Event::Fault(code) => fails(Error::Fault(code)),
    }
}

/// HTTP/1.1 with vectored writes, headers as given, the default executor.
pub open spec fn default_config() -> Config {
    Config { executor: Exec::Default, h1_writev: true, h1_title_case_headers: false, http2: false }
}

impl Builder {
    /// The default options: HTTP/1.1 with vectored writes, headers as given,
    /// the default executor.
    pub fn new() -> (r: Builder)
        ensures
            r@ == default_config(),
    {
        Builder { executor: Exec::Default, h1_writev: true, h1_title_case_headers: false, http2: false }
    }

    /// Sets the executor that a multiplexed connection spawns its work on.
    pub fn executor(&mut self, executor: Exec) -> (r: &mut Builder)
        ensures
            r@ == (Config { executor: executor, ..old(self)@ }),
            *final(self) == *final(r),
    {
        self.executor = executor;
        self
    }

    pub fn h1_writev(&mut self, enabled: bool) -> (r: &mut Builder)
        ensures
            r@ == (Config { h1_writev: enabled, ..old(self)@ }),
            *final(self) == *final(r),
    {
        self.h1_writev = enabled;
        self
    }

    pub fn h1_title_case_headers(&mut self, enabled: bool) -> (r: &mut Builder)
        ensures
            r@ == (Config { h1_title_case_headers: enabled, ..old(self)@ }),
            *final(self) == *final(r),
    {
        self.h1_title_case_headers = enabled;
        self
    }

    /// Sets whether HTTP/2 is required.
    pub fn http2_only(&mut self, enabled: bool) -> (r: &mut Builder)
        ensures
            r@ == (Config { http2: enabled, ..old(self)@ }),
            *final(self) == *final(r),
    {
        self.http2 = enabled;
        self
    }

    pub fn is_http2_only(&self) -> (r: bool)
        ensures
            r == self@.http2,
    {
        self.http2
    }

    pub fn is_h1_writev(&self) -> (r: bool)
        ensures
            r == self@.h1_writev,
    {
        self.h1_writev
    }

    pub fn is_h1_title_case_headers(&self) -> (r: bool)
        ensures
            r == self@.h1_title_case_headers,
    {
        self.h1_title_case_headers
    }

    pub fn current_executor(&self) -> (r: Exec)
        ensures
            r == self@.executor,
    {
        self.executor
    }
}

/// A handshake over a transport, yet to be polled.
#[derive(Debug)]
pub struct Handshake<Io> {
    builder: Builder,
    io: Option<Io>,
    upgrades: bool,
}

/// The handshake's outcome on the transport `io` under the options `cfg`.
pub open spec fn connected<Io, Req, Resp>(
    cfg: Config,
    io: Io,
    upgrades: bool,
    c: ConnModel<Io>,
    d: DispatchModel<Req, Resp>,
) -> bool {
    &&& c.http2 == cfg.http2
    &&& c.io == io
    &&& c.read_buf.len() == 0
    &&& c.state == DriveState::Running
    &&& !cfg.http2 ==> c.upgrades == upgrades && c.h1_writev == cfg.h1_writev
        && c.h1_title_case_headers == cfg.h1_title_case_headers
    &&& cfg.http2 ==> c.executor == cfg.executor
    &&& d.wf()
    &&& d.bounded
    &&& !d.closed
    &&& d.senders == 1
    &&& d.next_id == 0
    &&& idle(d)
    &&& d.ready.len() == 0
    &&& d.abandoned.len() == 0
}

impl Builder {
    /// A handshake over `io` with these options, whose driver supports an
    /// upgrade hand-off.
    pub fn handshake<Io>(&self, io: Io) -> (r: Handshake<Io>)
        ensures
            r.config() == self@,
            r.transport() == Some(io),
            r.supports_upgrades(),
    {
        Handshake { builder: *self, io: Some(io), upgrades: true }
    }

    /// A handshake over `io` with these options, whose driver treats an
    /// upgrade as an error.
    pub fn handshake_no_upgrades<Io>(&self, io: Io) -> (r: Handshake<Io>)
        ensures
            r.config() == self@,
            r.transport() == Some(io),
            !r.supports_upgrades(),
    {
        Handshake { builder: *self, io: Some(io), upgrades: false }
    }
}

/// A handshake over `io` with the default options.
pub fn handshake<Io>(io: Io) -> (r: Handshake<Io>)
    ensures
        r.config() == default_config(),
        r.transport() == Some(io),
        r.supports_upgrades(),
{
    Builder::new().handshake(io)
}

impl<Io> Handshake<Io> {
    pub closed spec fn config(&self) -> Config {
        self.builder@
    }

    pub closed spec fn transport(&self) -> Option<Io> {
        self.io
    }

    pub closed spec fn supports_upgrades(&self) -> bool {
        self.upgrades
    }

    /// Whether the handshake has been polled already.
    pub fn is_done(&self) -> (r: bool)
        ensures
            r == (self.transport() is None),
    {
        self.io.is_none()
    }

    /// Performs the handshake: binds the transport to a fresh channel and
    /// yields the sending handle, the driver and the channel. It takes the
    /// transport, so a handshake happens once.
    pub fn poll<Req, Resp>(&mut self) -> (r: Poll<
        Result<(SendRequest, Connection<Io>, Dispatch<Req, Resp>), Error>,
    >)
        requires
            old(self).transport() is Some,
        ensures
            final(self).transport() is None,
            final(self).config() == old(self).config(),
            final(self).supports_upgrades() == old(self).supports_upgrades(),
            r matches Poll::Ready(Ok((tx, conn, chan))) && connected(
                old(self).config(),
                old(self).transport().unwrap(),
                old(self).supports_upgrades(),
                conn@,
                chan@,
            ),
    {
        let io = self.io.take().unwrap();
        let chan: Dispatch<Req, Resp> = Dispatch::new(true);
        let proto = if !self.builder.http2 {
            Proto::Http1 {
                io,
                read_buf: Vec::new(),
                upgrades: self.upgrades,
                writev: self.builder.h1_writev,
                title_case_headers: self.builder.h1_title_case_headers,
            }
        } else {
            Proto::Http2 { io, executor: self.builder.executor }
        };
        let conn = Connection { proto, state: DriveState::Running };
        Poll::Ready(Ok((SendRequest::new(), conn, chan)))
    }
}

impl<Io> Connection<Io> {
    pub fn is_http2(&self) -> (r: bool)
        ensures
            r == self@.http2,
    {
        match self.proto {
            Proto::Http1 { .. } => false,
            Proto::Http2 { .. } => true,
        }
    }

    pub fn state(&self) -> (r: DriveState)
        ensures
            r == self@.state,
    {
        self.state
    }

    fn fail<Req, Resp>(&mut self, chan: &mut Dispatch<Req, Resp>, e: Error) -> (r: Action<Req>)
        requires
            old(chan)@.wf(),
        ensures
            final(self)@ == old(self)@.with_state(DriveState::Failed(e)),
            final(chan)@ == old(chan)@.shut(e),
            final(chan)@.wf(),
            r == Action::<Req>::Fail(e),
    {
        chan.close(e);
        self.state = DriveState::Failed(e);
        Action::Fail(e)
    }

    fn finish<Req, Resp>(&mut self, chan: &mut Dispatch<Req, Resp>, shutdown: bool) -> (r: Action<Req>)
        requires
            old(chan)@.wf(),
        ensures
            final(self)@ == old(self)@.with_state(DriveState::Done),
            final(chan)@ == old(chan)@.shut(Error::Canceled),
            final(chan)@.wf(),
            r == old(self)@.done_action::<Req>(shutdown),
    {
        chan.close(Error::Canceled);
        self.state = DriveState::Done;
        if shutdown || self.is_http2() {
            Action::Shutdown
        } else {
            Action::Finish
        }
    }

    fn drive<Req, Resp>(&mut self, chan: &mut Dispatch<Req, Resp>, ev: Event<Resp>, shutdown: bool) -> (r: Action<Req>)
        requires
            old(chan)@.wf(),
            old(self)@.state == DriveState::Running,
        ensures
            final(chan)@.wf(),
            stepped(old(self)@, old(chan)@, ev, shutdown, final(self)@, final(chan)@, r),
    {
        let http2 = self.is_http2();
        match ev {
            Event::Writable => {
                if chan.has_queued() && (http2 || !chan.has_in_flight()) {
                    match chan.take() {
                        Some((id, req)) => Action::Write(id, req),
                        None => Action::Wait,
                    }
                } else if chan.senders() == 0 && !chan.has_queued() && !chan.has_in_flight() {
                    self.finish(chan, shutdown)
                } else {
                    Action::Wait
                }
            },
            Event::Response(resp) => {
                if !http2 && chan.has_in_flight() {
                    chan.answer_oldest(Ok(resp));
                    Action::Wait
                } else {
                    self.fail(chan, Error::Unexpected)
                }
            },
            Event::StreamResponse(id, resp) => {
                if http2 {
                    if chan.answer(id, Ok(resp)) {
                        Action::Wait
                    } else {
                        self.fail(chan, Error::Unexpected)
                    }
                } else {
                    self.fail(chan, Error::Unexpected)
                }
            },
            Event::Unconsumed(bytes) => {
                let mut bytes = bytes;
                match &mut self.proto {
                    Proto::Http1 { read_buf, .. } => {
                        read_buf.append(&mut bytes);
                        Action::Wait
                    },
                    Proto::Http2 { .. } => self.fail(chan, Error::Unexpected),
                }
            },
            Event::StreamFault(id, code) => {
                if http2 {
                    if chan.answer(id, Err(Error::Fault(code))) {
                        Action::Wait
                    } else {
                        self.fail(chan, Error::Unexpected)
                    }
                } else {
                    self.fail(chan, Error::Unexpected)
                }
            },
            Event::Upgraded => {
                let upgrades = match self.proto {
                    Proto::Http1 { upgrades, .. } => upgrades,
                    Proto::Http2 { .. } => false,
                };
                if upgrades {
                    if !chan.has_queued() && !chan.has_in_flight() {
                        self.finish(chan, shutdown)
                    } else {
                        self.fail(chan, Error::Incomplete)
                    }
                } else {
                    self.fail(chan, Error::Unexpected)
                }
            },
            Event::Eof => {
                if !chan.has_queued() && !chan.has_in_flight() {
                    self.finish(chan, shutdown)
                } else {
                    self.fail(chan, Error::Incomplete)
                }
            },
            Event::Fault(code) => self.fail(chan, Error::Fault(code)),
        }
    }

    /// Advances the connection by one event of the protocol engine. On
    /// success the transport is shut down.
    pub fn poll<Req, Resp>(&mut self, chan: &mut Dispatch<Req, Resp>, ev: Event<Resp>) -> (r: Action<Req>)
        requires
            old(chan)@.wf(),
            old(self)@.state == DriveState::Running,
        ensures
            final(chan)@.wf(),
            stepped(old(self)@, old(chan)@, ev, true, final(self)@, final(chan)@, r),
    {
        self.drive(chan, ev, true)
    }

    /// Advances the connection as `poll` does, but an HTTP/1.1 connection
    /// finishes without shutting its transport down, so that its owner can
    /// take it back with `into_parts`.
    pub fn poll_without_shutdown<Req, Resp>(&mut self, chan: &mut Dispatch<Req, Resp>, ev: Event<Resp>) -> (r:
        Action<Req>)
        requires
            old(chan)@.wf(),
            old(self)@.state == DriveState::Running,
        ensures
            final(chan)@.wf(),
            stepped(old(self)@, old(chan)@, ev, false, final(self)@, final(chan)@, r),
    {
        self.drive(chan, ev, false)
    }

    /// Drops the driver: the channel closes, and every request without an
    /// answer ends with `Canceled`.
    pub fn close<Req, Resp>(self, chan: &mut Dispatch<Req, Resp>)
        requires
            old(chan)@.wf(),
        ensures
            final(chan)@ == old(chan)@.shut(Error::Canceled),
            final(chan)@.wf(),
    {
        chan.close(Error::Canceled);
    }

    /// Gives back the transport of an HTTP/1.1 connection, with the bytes read
    /// from it that were not consumed as HTTP. A multiplexed connection cannot
    /// be taken apart.
    pub fn into_parts(self) -> (r: Parts<Io>)
        requires
            !self@.http2,
        ensures
            r.io == self@.io,
            r.read_buf@ == self@.read_buf,
    {
        match self.proto {
            Proto::Http1 { io, read_buf, .. } => Parts { io, read_buf },
            Proto::Http2 { io, .. } => Parts { io, read_buf: Vec::new() },
        }
    }
}

/// Bytes that arrive with the response of an upgrade stay untouched: once an
/// HTTP/1.1 connection that supports upgrades has kept them and then seen the
/// upgrade, it finishes without shutting the transport down, holding exactly
/// those bytes and the transport it started with, which `into_parts` gives
/// back.
pub proof fn upgrade_keeps_transport_and_tail<Io, Req, Resp>(
    c: ConnModel<Io>,
    d: DispatchModel<Req, Resp>,
    tail: Vec<u8>,
    c1: ConnModel<Io>,
    d1: DispatchModel<Req, Resp>,
    r1: Action<Req>,
    c2: ConnModel<Io>,
    d2: DispatchModel<Req, Resp>,
    r2: Action<Req>,
)
    requires
        !c.http2,
        c.upgrades,
        c.read_buf.len() == 0,
        idle(d),
        stepped(c, d, Event::Unconsumed(tail), false, c1, d1, r1),
        stepped(c1, d1, Event::<Resp>::Upgraded, false, c2, d2, r2),
    ensures
        r1 == Action::<Req>::Wait,
        r2 == Action::<Req>::Finish,
        c2.state == DriveState::Done,
        !c2.http2,
        c2.read_buf == tail@,
        c2.io == c.io,
{
    assert(c.read_buf + tail@ =~= tail@);
}

/// A multiplexed connection stays one for all its life: a handshake with
/// HTTP/2 required yields a driver that speaks HTTP/2, and no step changes
/// that, so `into_parts` can never be called on it.
pub proof fn http2_is_never_decomposable<Io, Req, Resp>(
    cfg: Config,
    io: Io,
    upgrades: bool,
    c: ConnModel<Io>,
    d: DispatchModel<Req, Resp>,
    ev: Event<Resp>,
    shutdown: bool,
    c2: ConnModel<Io>,
    d2: DispatchModel<Req, Resp>,
    r: Action<Req>,
)
    requires
        cfg.http2 ==> connected(cfg, io, upgrades, c, d),
        stepped(c, d, ev, shutdown, c2, d2, r),
    ensures
        cfg.http2 ==> c.http2,
        c2.http2 == c.http2,
        c2.io == c.io,
{
}

} // verus!
