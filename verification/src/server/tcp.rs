//! What the TCP front end decides: which connections are admitted, what
//! becomes of the bytes that a session reads, and when the listener gives up.
//! The sockets themselves, and the waiting on them, are the caller's.

use vstd::prelude::*;

use crate::codec::{bytes_view, encode_response, parse, parsed_request, response_text};
use crate::db::DbView;
use crate::framing::{
    frames_of, frames_view, is_frame, law_frame_then_stream, lemma_first_delimiter, payload,
    payload_of, rest_of, FrameBuffer,
};
use crate::protocol::{
    id_fits, params_distinct, Request, RequestView, Response, ResponseView, EOT,
};
use crate::server::{request_answers, Handler};

verus! {

/// Port that the server listens on when none is given.
pub const DEFAULT_PORT: u16 = 6666;

/// Seconds to wait before a listener that gave up is started again.
pub const RESTART_DELAY_SECS: u64 = 1;

/// Threads that drive the sockets.
pub const CORE_THREADS: usize = 1;

/// Most threads in all, the workers that run the handlers included.
pub const MAX_THREADS: usize = 8;

/// The address of a peer, without its port.
#[derive(Clone, Copy, Debug, PartialEq, Eq, Structural)]
pub enum PeerIp {
    /// An IPv4 address, as a big-endian number.
    V4(u32),
    /// An IPv6 address, as a big-endian number.
    V6(u128),
}

/// The elements of `list` in order, but for the one at `skip`.
fn copy_without(list: &Vec<PeerIp>, skip: Option<usize>) -> (r: Vec<PeerIp>)
    requires
        skip matches Some(i) ==> i < list@.len(),
    ensures
        r@ == match skip {
            Some(i) => list@.remove(i as int),
            None => list@,
        },
{
    let mut out: Vec<PeerIp> = Vec::new();
    let mut k: usize = 0;
    while k < list.len()
        invariant
            k <= list.len(),
            skip matches Some(i) ==> i < list@.len(),
            out@ == match skip {
                Some(i) => if k <= i {
                    list@.subrange(0, k as int)
                } else {
                    list@.subrange(0, k as int).remove(i as int)
                },
                None => list@.subrange(0, k as int),
            },
        decreases list.len() - k,
    {
        let keep: bool = match skip {
            Some(i) => i != k,
            None => true,
        };
        if keep {
            out.push(list[k]);
        }
        k += 1;
    }
    out
}

/// The peers that have a session. No peer has more than one.
pub struct Registry {
    connected: Vec<PeerIp>,
}

impl View for Registry {
    type V = Set<PeerIp>;

    closed spec fn view(&self) -> Set<PeerIp> {
        self.connected@.to_set()
    }
}

impl Registry {
    #[verifier::type_invariant]
    spec fn distinct(&self) -> bool {
        self.connected@.no_duplicates()
    }

    /// A registry without peers.
    pub fn new() -> (r: Self)
        ensures
            r@ == Set::<PeerIp>::empty(),
    {
        Registry { connected: Vec::new() }
    }

    fn position(&self, ip: PeerIp) -> (r: Option<usize>)
        ensures
            match r {
                Some(i) => i < self.connected@.len() && self.connected@[i as int] == ip,
                None => !self@.contains(ip),
            },
    {
        let mut i: usize = 0;
        while i < self.connected.len()
            invariant
                i <= self.connected.len(),
                forall|j: int| 0 <= j < i ==> self.connected@[j] != ip,
            decreases self.connected.len() - i,
        {
            if self.connected[i] == ip {
                return Some(i);
            }
            i += 1;
        }
        None
    }

    /// True when `ip` has a session.
    pub fn contains(&self, ip: PeerIp) -> (r: bool)
        ensures
            r == self@.contains(ip),
    {
        self.position(ip).is_some()
    }

    /// Registers `ip` unless it has a session already, and says whether it
    /// was registered.
    pub fn register(&mut self, ip: PeerIp) -> (r: bool)
        ensures
            r == !old(self)@.contains(ip),
            final(self)@ == old(self)@.insert(ip),
    {
        proof {
            use_type_invariant(&*self);
        }
        match self.position(ip) {
            Some(i) => {
                assert(self.connected@.contains(ip));
                assert(self@.insert(ip) =~= self@);
                false
            },
            None => {
                let ghost before = self.connected@;
                let mut next: Vec<PeerIp> = copy_without(&self.connected, None);
                next.push(ip);
                assert(next@ == before.push(ip));
                assert(next@.no_duplicates());
                self.connected = next;
                assert(self.connected@.to_set() =~= before.to_set().insert(ip)) by {
                    assert forall|x: PeerIp| self.connected@.contains(x) <==> before.contains(x)
                        || x == ip by {
                        if before.contains(x) {
                            let j = choose|j: int| 0 <= j < before.len() && before[j] == x;
                            assert(self.connected@[j] == x);
                        }
                        if x == ip {
                            assert(self.connected@[before.len() as int] == x);
                        }
                    }
                }
                true
            },
        }
    }

    /// Removes `ip`, and says whether it had a session.
    pub fn release(&mut self, ip: PeerIp) -> (r: bool)
        ensures
            r == old(self)@.contains(ip),
            final(self)@ == old(self)@.remove(ip),
    {
        proof {
            use_type_invariant(&*self);
        }
        match self.position(ip) {
            Some(i) => {
                let ghost before = self.connected@;
                assert(before.contains(ip));
                let next: Vec<PeerIp> = copy_without(&self.connected, Some(i));
                assert(next@ == before.remove(i as int));
                assert(next@.no_duplicates());
                self.connected = next;
                assert forall|x: PeerIp| self.connected@.contains(x) <==> before.contains(x) && x
                    != ip by {
                    if self.connected@.contains(x) {
                        let j = choose|j: int| 0 <= j < self.connected@.len() && self.connected@[j] == x;
                        if j < i {
                            assert(before[j] == x);
                        } else {
                            assert(before[j + 1] == x);
                        }
                    }
                    if before.contains(x) && x != ip {
                        let j = choose|j: int| 0 <= j < before.len() && before[j] == x;
                        if j < i {
                            assert(self.connected@[j] == x);
                        } else {
                            assert(self.connected@[j - 1] == x);
                        }
                    }
                }
                assert(self.connected@.to_set() =~= before.to_set().remove(ip));
                true
            },
            None => {
                assert(self@.remove(ip) =~= self@);
                false
            },
        }
    }
}

/// Why an attempt to accept a connection failed.
#[derive(Clone, Copy, Debug, PartialEq, Eq, Structural)]
pub enum AcceptErrorKind {
    ConnectionAborted,
    ConnectionRefused,
    ConnectionReset,
    NotConnected,
    WouldBlock,
    TimedOut,
    Interrupted,
    /// Any other failure.
    Other,
}

impl AcceptErrorKind {
    /// True when the failure concerns one connection only, so that the
    /// listener goes on accepting.
    pub open spec fn transient(self) -> bool {
        self != AcceptErrorKind::Other
    }

    /// Tests whether the listener goes on accepting after this failure.
    pub fn is_accept_error_ok(self) -> (r: bool)
        ensures
            r == self.transient(),
    {
        match self {
            AcceptErrorKind::ConnectionAborted => true,
            AcceptErrorKind::ConnectionRefused => true,
            AcceptErrorKind::ConnectionReset => true,
            AcceptErrorKind::NotConnected => true,
            AcceptErrorKind::WouldBlock => true,
            AcceptErrorKind::TimedOut => true,
            AcceptErrorKind::Interrupted => true,
            AcceptErrorKind::Other => false,
        }
    }
}

/// What an attempt to accept a connection came to.
#[derive(Clone, Copy, Debug, PartialEq, Eq, Structural)]
pub enum AcceptEvent {
    /// A peer connected.
    Connected(PeerIp),
    /// The attempt failed.
    Failed(AcceptErrorKind),
}

/// What the listener does after an attempt to accept a connection.
#[derive(Clone, Copy, Debug, PartialEq, Eq, Structural)]
pub enum AcceptStep {
    /// Start a session on the new connection.
    Serve(PeerIp),
    /// Drop the new connection: its peer has a session already.
    Refuse,
    /// Go on accepting.
    Retry,
    /// Give up; the listener is started again after
    /// [`RESTART_DELAY_SECS`].
    Abort,
}

/// The step that follows `event` when the peers in `connected` have
/// sessions.
pub open spec fn accept_step(connected: Set<PeerIp>, event: AcceptEvent) -> AcceptStep {
    match event {
        AcceptEvent::Connected(ip) => if connected.contains(ip) {
            AcceptStep::Refuse
        } else {
            AcceptStep::Serve(ip)
        },
        AcceptEvent::Failed(kind) => if kind.transient() {
            AcceptStep::Retry
        } else {
            AcceptStep::Abort
        },
    }
}

/// The peers with a session after `event`.
pub open spec fn accept_registers(connected: Set<PeerIp>, event: AcceptEvent) -> Set<PeerIp> {
    match event {
        AcceptEvent::Connected(ip) => connected.insert(ip),
        AcceptEvent::Failed(_) => connected,
    }
}

/// The listening side of the server: its port, its tables and its peers.
pub struct Server {
    port: u16,
    db: DbView,
    connected: Registry,
}

impl Server {
    /// The port to listen on.
    pub closed spec fn spec_port(&self) -> u16 {
        self.port
    }

    /// The tables that the sessions work on.
    pub closed spec fn tables(&self) -> DbView {
        self.db
    }

    /// The peers that have a session.
    pub closed spec fn peers(&self) -> Set<PeerIp> {
        self.connected@
    }

    /// A server on `port` and the tables `db`, without sessions.
    pub fn new(port: u16, db: DbView) -> (r: Self)
        ensures
            r.spec_port() == port,
            r.tables() == db,
            r.peers() == Set::<PeerIp>::empty(),
    {
        Server { port, db, connected: Registry::new() }
    }

    /// The port to listen on.
    pub fn port(&self) -> (r: u16)
        ensures
            r == self.spec_port(),
    {
        self.port
    }

    /// A handler for a new session, on the server's tables.
    pub fn handler(&self) -> (r: Handler)
        ensures
            r.tables() == self.tables(),
    {
        Handler::new(self.db.clone())
    }

    /// Decides what follows an attempt to accept a connection. A peer is
    /// served only if it has no session, and then has one.
    pub fn on_accept(&mut self, event: AcceptEvent) -> (r: AcceptStep)
        ensures
            r == accept_step(old(self).peers(), event),
            final(self).peers() == accept_registers(old(self).peers(), event),
            final(self).spec_port() == old(self).spec_port(),
            final(self).tables() == old(self).tables(),
    {
        match event {
            AcceptEvent::Connected(ip) => {
                if self.connected.register(ip) {
                    AcceptStep::Serve(ip)
                } else {
                    AcceptStep::Refuse
                }
            },
            AcceptEvent::Failed(kind) => {
                if kind.is_accept_error_ok() {
                    AcceptStep::Retry
                } else {
                    AcceptStep::Abort
                }
            },
        }
    }

    /// Ends the session of `ip`.
    pub fn on_disconnect(&mut self, ip: PeerIp)
        ensures
            final(self).peers() == old(self).peers().remove(ip),
            final(self).spec_port() == old(self).spec_port(),
            final(self).tables() == old(self).tables(),
    {
        self.connected.release(ip);
    }
}

/// Seconds that the supervisor waits before it starts the listener again:
/// [`RESTART_DELAY_SECS`] after a listener that gave up, none otherwise.
pub fn restart_delay(gave_up: bool) -> (secs: u64)
    ensures
        secs == if gave_up {
            RESTART_DELAY_SECS
        } else {
            0
        },
{
    if gave_up {
        RESTART_DELAY_SECS
    } else {
        0
    }
}

/// What a read on a connection came to.
#[derive(Debug, PartialEq, Eq)]
pub enum ReadEvent {
    /// These bytes arrived. No bytes at all mean that the peer closed the
    /// connection.
    Data(Vec<u8>),
    /// The peer closed the connection.
    Closed,
    /// The transport failed.
    Failed,
}

/// What a session does after a read.
#[derive(Debug, PartialEq, Eq)]
pub struct ReadStep {
    /// The frames to handle, in order, each before the next read.
    pub frames: Vec<Vec<u8>>,
    /// True when the session goes on reading.
    pub open: bool,
}

/// The frames that a read completes when `pending` waits in the buffer: the
/// whole frames of the bytes at hand; at the end of the stream the
/// unfinished rest, if any; nothing after a failure.
pub open spec fn read_frames(pending: Seq<u8>, event: ReadEvent) -> Seq<Seq<u8>> {
    match event {
        ReadEvent::Data(bytes) => if bytes@.len() > 0 {
            frames_of(pending + bytes@)
        } else if pending.len() > 0 {
            seq![pending]
        } else {
            Seq::empty()
        },
        ReadEvent::Closed => if pending.len() > 0 {
            seq![pending]
        } else {
            Seq::empty()
        },
        ReadEvent::Failed => Seq::empty(),
    }
}

/// What waits in the buffer after a read.
pub open spec fn read_leaves(pending: Seq<u8>, event: ReadEvent) -> Seq<u8> {
    match event {
        ReadEvent::Data(bytes) => if bytes@.len() > 0 {
            rest_of(pending + bytes@)
        } else {
            Seq::empty()
        },
        ReadEvent::Closed => Seq::empty(),
        ReadEvent::Failed => pending,
    }
}

/// True when the session goes on reading after `event`: only bytes keep
/// it open, whatever they hold.
pub open spec fn read_continues(event: ReadEvent) -> bool {
    event matches ReadEvent::Data(bytes) && bytes@.len() > 0
}

/// The reading side of one connection.
pub struct Session {
    buffer: FrameBuffer,
}

impl Session {
    /// The bytes that were read and belong to no whole frame yet.
    pub closed spec fn pending(&self) -> Seq<u8> {
        self.buffer@
    }

    /// A session that has read nothing.
    pub fn new() -> (r: Self)
        ensures
            r.pending() == Seq::<u8>::empty(),
    {
        Session { buffer: FrameBuffer::new() }
    }

    /// Takes in what a read came to, and says which frames are to be handled
    /// and whether to read on.
    pub fn on_read(&mut self, event: ReadEvent) -> (r: ReadStep)
        ensures
            frames_view(r.frames@) == read_frames(old(self).pending(), event),
            r.open == read_continues(event),
            final(self).pending() == read_leaves(old(self).pending(), event),
    {
        match event {
            ReadEvent::Data(bytes) => {
                if bytes.len() > 0 {
                    self.buffer.push(bytes.as_slice());
                    let frames = self.buffer.drain();
                    ReadStep { frames, open: true }
                } else {
                    self.last_frames()
                }
            },
            ReadEvent::Closed => self.last_frames(),
            ReadEvent::Failed => {
                let frames: Vec<Vec<u8>> = Vec::new();
                ReadStep { frames, open: false }
            },
        }
    }

    /// Says whether the session goes on after an attempt to send a response.
    /// It always does: where the bytes did not go out, the next read tells
    /// whether the peer is gone.
    pub fn on_write(&self, sent: bool) -> (open: bool)
        ensures
            open,
    {
        match sent {
            true => true,
            false => true,
        }
    }

    fn last_frames(&mut self) -> (r: ReadStep)
        ensures
            frames_view(r.frames@) == if old(self).pending().len() > 0 {
                seq![old(self).pending()]
            } else {
                Seq::empty()
            },
            !r.open,
            final(self).pending() == Seq::<u8>::empty(),
    {
        let mut frames: Vec<Vec<u8>> = Vec::new();
        if let Some(rest) = self.buffer.take_rest() {
            frames.push(rest);
        }
        ReadStep { frames, open: false }
    }
}

/// What a session makes of one frame.
#[derive(Debug, PartialEq)]
pub enum FrameStep {
    /// The frame is no request: it is dropped, and the session reads on.
    /// The text is the decoder's reason, for the log.
    Discard(String),
    /// The frame is a notification: nothing is called and nothing sent.
    Skip,
    /// The frame is a call, which gets a response.
    Call(Request),
}

/// What becomes of a frame that decodes to `parsed`.
pub open spec fn frame_calls(parsed: Option<RequestView>) -> Option<RequestView> {
    match parsed {
        Some(request) => if request.id is Some {
            Some(request)
        } else {
            None
        },
        None => None,
    }
}

/// Decodes a frame and sorts it: no request, notification, or call.
pub fn read_frame(frame: &[u8]) -> (r: FrameStep)
    ensures
        match parsed_request(payload_of(frame@)) {
            None => r is Discard,
            Some(request) => if request.id is None {
                r is Skip
            } else {
                r matches FrameStep::Call(call) && call@ == request && id_fits(call@.id)
                    && params_distinct(call@.params)
            },
        },
{
    match parse(payload(frame)) {
        Err(error) => FrameStep::Discard(error.to_string()),
        Ok(request) => {
            if request.is_notification() {
                FrameStep::Skip
            } else {
                FrameStep::Call(request)
            }
        },
    }
}

/// The bytes that carry the text `text` of a response: the text and the
/// delimiter.
pub open spec fn framed(text: Option<Seq<u8>>) -> Option<Seq<u8>> {
    match text {
        Some(text) => Some(text.push(EOT)),
        None => None,
    }
}

/// The frame that carries `response`: there is one exactly when the id of
/// the response fits the wire format. What is returned is one frame: it ends
/// with its only delimiter.
pub fn response_frame(response: &Response) -> (r: Option<Vec<u8>>)
    ensures
        r is Some <==> id_fits(response@.id),
        bytes_view(r) == framed(response_text(response@)),
        r matches Some(frame) ==> is_frame(frame@),
{
    match encode_response(response) {
        Some(text) => {
            let mut frame = text;
            frame.push(EOT);
            Some(frame)
        },
        None => None,
    }
}

/// True when `sent` is what a session on the tables `db` may send back for
/// `frame`: nothing
/// for a frame that is no request and for a notification; for a call always
/// something, the frame of a response that the server may give to the call,
/// under the call's id, which fits the wire format.
pub open spec fn frame_answers(db: DbView, frame: Seq<u8>, sent: Option<Seq<u8>>) -> bool {
    match frame_calls(parsed_request(payload_of(frame))) {
        Some(call) => id_fits(call.id) && sent is Some && exists|response: ResponseView|
            {
                &&& request_answers(db, call, response)
                &&& response.id == call.id
                &&& sent == framed(response_text(response))
            },
        None => sent is None,
    }
}

/// Handles one frame from end to end: decodes it, runs the call if it is
/// one, and returns the bytes to send back.
pub fn answer_frame(handler: &Handler, frame: &[u8]) -> (r: Option<Vec<u8>>)
    ensures
        frame_answers(handler.tables(), frame@, bytes_view(r)),
        r matches Some(sent) ==> is_frame(sent@),
{
    match read_frame(frame) {
        FrameStep::Call(request) => {
            let ghost call = request@;
            let response = handler.handle_request(request);
            let sent = response_frame(&response);
            assert(request_answers(handler.tables(), call, response@) && response@.id == call.id && bytes_view(sent)
                == framed(response_text(response@)));
            sent
        },
        FrameStep::Skip => None,
        FrameStep::Discard(_) => None,
    }
}

/// No peer has two sessions at a time. While the peers of the sessions that
/// are alive are those that the server has registered, a peer that has a
/// session is refused, and serving a peer keeps the live sessions distinct.
pub proof fn law_one_session_per_peer(live: Seq<PeerIp>, ip: PeerIp)
    requires
        live.no_duplicates(),
    ensures
        live.contains(ip) ==> accept_step(live.to_set(), AcceptEvent::Connected(ip))
            == AcceptStep::Refuse,
        !live.contains(ip) ==> {
            &&& accept_step(live.to_set(), AcceptEvent::Connected(ip)) == AcceptStep::Serve(ip)
            &&& live.push(ip).no_duplicates()
            &&& live.push(ip).to_set() == accept_registers(
                live.to_set(),
                AcceptEvent::Connected(ip),
            )
        },
{
    if !live.contains(ip) {
        let next = live.push(ip);
        assert forall|i: int, j: int| 0 <= i < next.len() && 0 <= j < next.len() && i != j implies next[i]
            != next[j] by {
            if i < live.len() {
                assert(live.contains(next[i]));
            }
            if j < live.len() {
                assert(live.contains(next[j]));
            }
        }
        assert forall|x: PeerIp| next.contains(x) <==> live.contains(x) || x == ip by {
            if live.contains(x) {
                let j = choose|j: int| 0 <= j < live.len() && live[j] == x;
                assert(next[j] == x);
            }
            if x == ip {
                assert(next[live.len() as int] == x);
            }
        }
    }
}

/// A second connection from a peer is refused while the first lasts, and
/// served again once the first has ended.
pub proof fn law_second_connection_refused(connected: Set<PeerIp>, ip: PeerIp)
    ensures
        ({
            let registered = accept_registers(connected, AcceptEvent::Connected(ip));
            &&& accept_step(registered, AcceptEvent::Connected(ip)) == AcceptStep::Refuse
            &&& accept_registers(registered, AcceptEvent::Connected(ip)) == registered
            &&& accept_step(registered.remove(ip), AcceptEvent::Connected(ip)) == AcceptStep::Serve(
                ip,
            )
        }),
{
    let registered = accept_registers(connected, AcceptEvent::Connected(ip));
    assert(registered.insert(ip) =~= registered);
}

/// A frame that is no request does not end the session: nothing is sent
/// for it, the session reads on, and a frame that follows it in the same
/// bytes is handled as if it had come alone.
pub proof fn law_malformed_frame_skipped(
    db: DbView,
    bad: Seq<u8>,
    next: Seq<u8>,
    sent: Option<Seq<u8>>,
)
    requires
        is_frame(bad),
        is_frame(next),
        parsed_request(payload_of(bad)) is None,
        frame_answers(db, bad, sent),
    ensures
        sent is None,
        frames_of(bad + next) == seq![bad, next],
        rest_of(bad + next) == Seq::<u8>::empty(),
{
    law_frame_then_stream(bad, next);
    law_frame_then_stream(next, Seq::empty());
    lemma_first_delimiter(Seq::<u8>::empty(), 0);
}

/// A notification is never answered, whatever method it names.
pub proof fn law_notification_unanswered(db: DbView, frame: Seq<u8>, sent: Option<Seq<u8>>)
    requires
        parsed_request(payload_of(frame)) matches Some(request) && request.id is None,
        frame_answers(db, frame, sent),
    ensures
        sent is None,
{
}

} // verus!
