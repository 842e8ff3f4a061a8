//! Bookkeeping and decision logic for a WebSocket server that sits on top of
//! the reactor as an example collaborator.
//!
//! The server owns a listening socket registered as a reader; each accepted
//! connection becomes its own object, registered for read and write interest.
//! This module keeps the membership list and the per-connection write-pending
//! queues, and classifies the outcomes of the protocol library's read, write
//! and accept calls into the actions the serving loop takes on them. The
//! sockets themselves, the handshake and the message framing stay outside, in
//! the runtime around the library.

use crate::reactor::{Callback, Core, IoHandler, ObjectId, Token};
use vstd::prelude::*;

verus! {

/// The application's policy for a WebSocket server: which peers to accept,
/// what to greet them with, and how to answer their messages. Every method
/// has the permissive default, so an implementation overrides only what it
/// cares about.
pub trait WebSocketHandler<O>: Sized {
    /// Whether a connection from this peer, its address rendered as text, is
    /// accepted.
    fn acceptable(&mut self, from_address: &str) -> bool {
        true
    }

    /// A message to send to a connection right after its handshake, if any.
    fn welcome_message(&mut self, core: &mut Core<O>) -> Option<String> {
        None
    }

    /// The reply to one received text message, if any.
    fn handle_message(&mut self, message: String, core: &mut Core<O>) -> Option<String> {
        None
    }
}

/// One accepted connection: the id of its object in the reactor, and the
/// messages queued for its next writable edge.
pub struct Connection {
    /// The reactor object the connection's callbacks are bound to.
    pub object_id: ObjectId,
    /// Messages waiting to be flushed on the next writable edge.
    pub pending: Vec<String>,
}

/// The server's bookkeeping: its own object id and the accepted connections,
/// in accept order.
pub struct WebSocketServer {
    object_id: ObjectId,
    connections: Vec<Connection>,
}

impl WebSocketServer {
    /// The id of the server's own object in the reactor.
    pub closed spec fn object_id_spec(&self) -> ObjectId {
        self.object_id
    }

    /// The accepted connections, in accept order.
    pub closed spec fn connections_seq(&self) -> Seq<Connection> {
        self.connections@
    }

    /// Creates a server bound to its reactor object id, with no connections
    /// yet.
    pub fn new(object_id: ObjectId) -> (s: WebSocketServer)
        ensures
            s.object_id_spec() == object_id,
            s.connections_seq() == Seq::<Connection>::empty(),
    {
        WebSocketServer { object_id, connections: Vec::new() }
    }

    /// The verified wiring of a server start: predicts the object id under
    /// which the caller will add the server to the reactor, registers read
    /// interest for that object under a fresh token, and returns the
    /// bookkeeping bound to that id together with the token under which the
    /// caller must register its listening socket with the poller. The caller
    /// adds the server (wrapped in its object type) to the reactor next,
    /// before anything else, so that it lands under the predicted id.
    pub fn start<O>(core: &mut Core<O>, f: Callback) -> (r: (WebSocketServer, Token))
        requires
            old(core).wf(),
        ensures
            final(core).wf(),
            r.0.object_id_spec()@ == old(core).next_id_spec(),
            r.0.connections_seq() == Seq::<Connection>::empty(),
            final(core).handler_present(r.1),
            final(core).handler_value(r.1) == (IoHandler {
                object_id: r.0.object_id_spec(),
                read_fn: Some(f),
                write_fn: None,
            }),
            final(core).objects_seq() == old(core).objects_seq(),
            final(core).reapers_seq() == old(core).reapers_seq(),
            final(core).exit_requested() == old(core).exit_requested(),
    {
        let object_id = core.next_id();
        let token = core.register_reader(object_id, f);
        (WebSocketServer::new(object_id), token)
    }

    /// The id of the server's own object in the reactor.
    pub fn object_id(&self) -> (id: ObjectId)
        ensures
            id == self.object_id_spec(),
    {
        self.object_id
    }

    /// The number of connections currently kept.
    pub fn connection_count(&self) -> (n: usize)
        ensures
            n == self.connections_seq().len(),
    {
        self.connections.len()
    }

    /// Records a newly accepted connection, with an empty pending queue, at
    /// the end of the membership list.
    pub fn add_connection(&mut self, id: ObjectId)
        ensures
            final(self).object_id_spec() == old(self).object_id_spec(),
            final(self).connections_seq().len() == old(self).connections_seq().len() + 1,
            forall|i: int|
                0 <= i < old(self).connections_seq().len() ==> final(self).connections_seq()[i]
                    == old(self).connections_seq()[i],
            final(self).connections_seq().last().object_id == id,
            final(self).connections_seq().last().pending@ == Seq::<String>::empty(),
    {
        self.connections.push(Connection { object_id: id, pending: Vec::new() });
    }

    /// Drops the first connection kept under `id`. Returns whether one was
    /// found; without one, nothing changes.
    pub fn remove_connection(&mut self, id: ObjectId) -> (found: bool)
        ensures
            final(self).object_id_spec() == old(self).object_id_spec(),
            found == (exists|k: int|
                0 <= k < old(self).connections_seq().len() && old(
                    self,
                ).connections_seq()[k].object_id == id),
            found ==> exists|k: int|
                {
                    &&& 0 <= k < old(self).connections_seq().len()
                    &&& old(self).connections_seq()[k].object_id == id
                    &&& forall|j: int|
                        0 <= j < k ==> old(self).connections_seq()[j].object_id != id
                    &&& final(self).connections_seq() == old(self).connections_seq().remove(k)
                },
            !found ==> final(self).connections_seq() == old(self).connections_seq(),
    {
        let n = self.connections.len();
        let mut i: usize = 0;
        while i < n
            invariant
                n == self.connections@.len(),
                i <= n,
                *self == *old(self),
                forall|j: int| 0 <= j < i ==> self.connections@[j].object_id != id,
            decreases n - i,
        {
            if self.connections[i].object_id == id {
                self.connections.remove(i);
                proof {
                    assert((i as int) < old(self).connections_seq().len() && old(
                        self,
                    ).connections_seq()[i as int].object_id == id && (forall|j: int|
                        0 <= j < i as int ==> old(self).connections_seq()[j].object_id != id)
                        && self.connections@ == old(self).connections_seq().remove(i as int));
                }
                return true;
            }
            i = i + 1;
        }
        false
    }

    /// Queues `message` on every connection's write-pending queue, in place:
    /// each queue grows by exactly this message at its back, and nothing else
    /// changes.
    pub fn broadcast(&mut self, message: String)
        ensures
            final(self).object_id_spec() == old(self).object_id_spec(),
            final(self).connections_seq().len() == old(self).connections_seq().len(),
            forall|i: int|
                0 <= i < old(self).connections_seq().len() ==> {
                    &&& (#[trigger] final(self).connections_seq()[i]).object_id == old(
                        self,
                    ).connections_seq()[i].object_id
                    &&& final(self).connections_seq()[i].pending@ == old(
                        self,
                    ).connections_seq()[i].pending@.push(message)
                },
    {
        let n = self.connections.len();
        let mut i: usize = 0;
        while i < n
            invariant
                n == self.connections@.len(),
                i <= n,
                self.object_id == old(self).object_id,
                forall|j: int|
                    i <= j < n ==> #[trigger] self.connections@[j] == old(self).connections@[j],
                forall|j: int|
                    0 <= j < i ==> {
                        &&& (#[trigger] self.connections@[j]).object_id == old(
                            self,
                        ).connections@[j].object_id
                        &&& self.connections@[j].pending@ == old(
                            self,
                        ).connections@[j].pending@.push(message)
                    },
            decreases n - i,
        {
            self.connections[i].pending.push(message.clone());
            i = i + 1;
        }
    }

    /// Hands the messages pending for the first connection kept under `id`
    /// out for flushing, leaving that queue empty. Absent when no connection
    /// is kept under `id`.
    pub fn take_pending(&mut self, id: ObjectId) -> (r: Option<Vec<String>>)
        ensures
            final(self).object_id_spec() == old(self).object_id_spec(),
            match r {
                Some(msgs) => exists|k: int|
                    {
                        &&& 0 <= k < old(self).connections_seq().len()
                        &&& old(self).connections_seq()[k].object_id == id
                        &&& forall|j: int|
                            0 <= j < k ==> old(self).connections_seq()[j].object_id != id
                        &&& msgs == old(self).connections_seq()[k].pending
                        &&& final(self).connections_seq().len() == old(
                            self,
                        ).connections_seq().len()
                        &&& (forall|j: int|
                            0 <= j < old(self).connections_seq().len() && j != k
                                ==> final(self).connections_seq()[j] == old(
                                self,
                            ).connections_seq()[j])
                        &&& final(self).connections_seq()[k].object_id == id
                        &&& final(self).connections_seq()[k].pending@ == Seq::<String>::empty()
                    },
                None => (forall|k: int|
                    0 <= k < old(self).connections_seq().len() ==> old(
                        self,
                    ).connections_seq()[k].object_id != id) && final(self).connections_seq() == old(
                    self,
                ).connections_seq(),
            },
    {
        let n = self.connections.len();
        let mut i: usize = 0;
        while i < n
            invariant
                n == self.connections@.len(),
                i <= n,
                *self == *old(self),
                forall|j: int| 0 <= j < i ==> self.connections@[j].object_id != id,
            decreases n - i,
        {
            if self.connections[i].object_id == id {
                let mut drained: Vec<String> = Vec::new();
                core::mem::swap(&mut self.connections[i].pending, &mut drained);
                proof {
                    assert((i as int) < old(self).connections_seq().len() && old(
                        self,
                    ).connections_seq()[i as int].object_id == id && (forall|j: int|
                        0 <= j < i as int ==> old(self).connections_seq()[j].object_id != id)
                        && drained == old(self).connections_seq()[i as int].pending
                        && self.connections@[i as int].object_id == id
                        && self.connections@[i as int].pending@ == Seq::<String>::empty());
                }
                return Some(drained);
            }
            i = i + 1;
        }
        None
    }
}

/// What one call of the protocol library's message read returned, reduced to
/// the cases the reactor loop distinguishes.
#[derive(Debug, PartialEq, Eq)]
pub enum ReadEvent {
    /// The peer closed the connection in an orderly way.
    Closed,
    /// The socket has no more data now; the drain loop must stop until the
    /// next readable edge.
    IoWouldBlock,
    /// An input/output error other than exhaustion.
    IoFailed,
    /// A protocol error that does not end the connection.
    ProtocolFailed,
    /// A complete text message arrived.
    Text(String),
    /// A complete message of a type the server ignores arrived.
    NonText,
}

/// The action a connection's read loop takes on one read outcome.
#[derive(Debug, PartialEq, Eq)]
pub enum ReadAction {
    /// Remove the connection's object from the reactor and stop draining.
    RemoveAndStop,
    /// Keep the connection and stop draining until the next readable edge.
    Stop,
    /// Keep draining; this outcome delivers nothing.
    KeepDraining,
    /// Hand the message to the application handler, then keep draining.
    Deliver(String),
}

/// The decision of a connection's read loop for one read outcome: an orderly
/// close or a real input/output error removes the connection; exhaustion ends
/// the drain until the next edge; a non-fatal protocol error and an ignored
/// message type keep draining; a text message is delivered.
pub fn classify_read(ev: ReadEvent) -> (a: ReadAction)
    ensures
        ev is Closed ==> a == ReadAction::RemoveAndStop,
        ev is IoWouldBlock ==> a == ReadAction::Stop,
        ev is IoFailed ==> a == ReadAction::RemoveAndStop,
        ev is ProtocolFailed ==> a == ReadAction::KeepDraining,
        ev is Text ==> a == ReadAction::Deliver(ev->Text_0),
        ev is NonText ==> a == ReadAction::KeepDraining,
{
    match ev {
        ReadEvent::Closed => ReadAction::RemoveAndStop,
        ReadEvent::IoWouldBlock => ReadAction::Stop,
        ReadEvent::IoFailed => ReadAction::RemoveAndStop,
        ReadEvent::ProtocolFailed => ReadAction::KeepDraining,
        ReadEvent::Text(s) => ReadAction::Deliver(s),
        ReadEvent::NonText => ReadAction::KeepDraining,
    }
}

/// What one attempt to flush a connection's pending messages returned.
#[derive(Clone, Copy, Debug, PartialEq, Eq, Structural)]
pub enum WriteEvent {
    /// Everything pending went out.
    Flushed,
    /// The socket cannot take more now; what is left waits for the next
    /// writable edge.
    IoWouldBlock,
    /// An input/output error other than exhaustion.
    IoFailed,
    /// The peer closed the connection.
    Closed,
    /// An error that does not end the connection.
    OtherFailed,
}

/// The action a connection's write callback takes on one flush outcome.
#[derive(Clone, Copy, Debug, PartialEq, Eq, Structural)]
pub enum WriteAction {
    /// Keep the connection.
    Keep,
    /// Remove the connection's object from the reactor.
    Remove,
}

/// The decision of a connection's write callback: only a real input/output
/// error or a closed peer removes the connection; exhaustion and non-fatal
/// errors keep it.
pub fn classify_write(ev: WriteEvent) -> (a: WriteAction)
    ensures
        a == WriteAction::Remove <==> (ev is IoFailed || ev is Closed),
{
    match ev {
        WriteEvent::IoFailed => WriteAction::Remove,
        WriteEvent::Closed => WriteAction::Remove,
        _ => WriteAction::Keep,
    }
}

/// What one call of the listener's accept returned.
#[derive(Clone, Copy, Debug, PartialEq, Eq, Structural)]
pub enum AcceptEvent {
    /// A new connection arrived.
    Accepted,
    /// No connection is waiting now; the accept loop stops until the next
    /// readable edge.
    IoWouldBlock,
    /// The listener failed; the server cannot go on.
    Failed,
}

/// The action the server's accept loop takes on one accept outcome.
#[derive(Clone, Copy, Debug, PartialEq, Eq, Structural)]
pub enum AcceptAction {
    /// Perform the handshake and register the new connection.
    Handshake,
    /// Keep the server and stop accepting until the next readable edge.
    Stop,
    /// Remove the server's object from the reactor and stop.
    RemoveAndStop,
}

/// The decision of the server's accept loop for one accept outcome.
pub fn classify_accept(ev: AcceptEvent) -> (a: AcceptAction)
    ensures
        ev is Accepted ==> a == AcceptAction::Handshake,
        ev is IoWouldBlock ==> a == AcceptAction::Stop,
        ev is Failed ==> a == AcceptAction::RemoveAndStop,
{
    match ev {
        AcceptEvent::Accepted => AcceptAction::Handshake,
        AcceptEvent::IoWouldBlock => AcceptAction::Stop,
        AcceptEvent::Failed => AcceptAction::RemoveAndStop,
    }
}

} // verus!
