//! The reactor core: an object store and a handler table built on the slot
//! table, a reaper queue for child processes, and the dispatch of readiness
//! events to user objects.
//!
//! The operating-system side stays outside this crate. A runtime built around
//! [`Core`] registers sources with its readiness poller under the [`Token`]
//! returned by the registration methods, waits, and hands each ready token
//! back in as a plain [`Event`]; it probes children with a non-blocking wait
//! and hands the outcome to the reaper scan. Every decision — which callback
//! to run, what to do when an object or handler has gone away, when the loop
//! must stop — is made here, and verified.

use crate::slot::{occupied_count, Slot, SlotTable};
use std::collections::VecDeque;
use vstd::prelude::*;

verus! {

/// Stable index of a user object in the object store. Equal values denote the
/// same logical object for its entire lifetime.
#[derive(Clone, Copy, Debug, PartialEq, Eq, Hash, Structural)]
pub struct ObjectId(usize);

impl View for ObjectId {
    type V = nat;

    closed spec fn view(&self) -> nat {
        self.0 as nat
    }
}

impl ObjectId {
    /// The index as a plain integer.
    pub fn as_usize(&self) -> (i: usize)
        ensures
            i == self@,
    {
        self.0
    }
}

/// Stable index of a handler in the handler table; the poller identifies
/// ready sources by it.
#[derive(Clone, Copy, Debug, PartialEq, Eq, Hash, Structural)]
pub struct Token(usize);

impl View for Token {
    type V = nat;

    closed spec fn view(&self) -> nat {
        self.0 as nat
    }
}

impl Token {
    /// The index as a plain integer, for registering a source with a poller.
    pub fn as_usize(&self) -> (i: usize)
        ensures
            i == self@,
    {
        self.0
    }

    /// Rebuilds a token from the plain integer a poller reported ready.
    pub fn from_usize(i: usize) -> (t: Token)
        ensures
            t@ == i,
    {
        Token(i)
    }
}

/// Names one registered callback. The reactor passes the callback back to the
/// object's `Handler` method when it fires, so that one object can tell its
/// several registrations apart by the tag it chose for each.
#[derive(Clone, Copy, Debug, PartialEq, Eq, Structural)]
pub struct Callback {
    /// Caller-chosen label, carried through dispatch unchanged.
    pub tag: u64,
}

impl Callback {
    /// Creates a callback with the given tag.
    pub fn new(tag: u64) -> (c: Callback)
        ensures
            c.tag == tag,
    {
        Callback { tag }
    }
}

/// A handler record: the binding of a pollable source to an object and up to
/// two callbacks, one for read readiness and one for write readiness.
#[derive(Clone, Copy, Debug, PartialEq, Eq, Structural)]
pub struct IoHandler {
    /// The object the callbacks are bound to.
    pub object_id: ObjectId,
    /// Callback for read readiness, when read interest was registered.
    pub read_fn: Option<Callback>,
    /// Callback for write readiness, when write interest was registered.
    pub write_fn: Option<Callback>,
}

/// One readiness event, as a poller reports it: a token and the directions
/// that became ready.
#[derive(Clone, Copy, Debug, PartialEq, Eq, Structural)]
pub struct Event {
    /// The token under which the ready source was registered.
    pub token: Token,
    /// Read readiness (on POSIX this includes hang-up, so pipe close arrives
    /// as a readable event).
    pub readable: bool,
    /// Write readiness.
    pub writable: bool,
}

/// One registered child-exit watch: when the child with this process id
/// terminates, the callback fires once on the bound object.
#[derive(Clone, Copy, Debug, PartialEq, Eq, Structural)]
pub struct Reaper {
    /// Process id of the watched child.
    pub pid: i32,
    /// The object the callback is bound to.
    pub object_id: ObjectId,
    /// The callback passed to the object's exit method when the child is
    /// reaped.
    pub callback: Callback,
}

/// The reactor state: handler table, object store, exit flag, and the queue
/// of registered reapers.
pub struct Core<O> {
    io_handlers: SlotTable<IoHandler>,
    objects: SlotTable<O>,
    exit: bool,
    reapers: VecDeque<Reaper>,
}

impl<O> Core<O> {
    /// The slots of the object store.
    pub closed spec fn objects_seq(&self) -> Seq<Slot<O>> {
        self.objects@
    }

    /// The slots of the handler table.
    pub closed spec fn handlers_seq(&self) -> Seq<Slot<IoHandler>> {
        self.io_handlers@
    }

    /// Whether cooperative shutdown has been requested.
    pub closed spec fn exit_requested(&self) -> bool {
        self.exit
    }

    /// The registered reapers, front first.
    pub closed spec fn reapers_seq(&self) -> Seq<Reaper> {
        self.reapers@
    }

    /// Both tables are internally consistent.
    pub closed spec fn wf(&self) -> bool {
        self.io_handlers.wf() && self.objects.wf()
    }

    /// The id the next `add` will assign.
    pub closed spec fn next_id_spec(&self) -> nat {
        self.objects.next_spec()
    }

    /// The token the next registration will assign.
    pub closed spec fn next_token_spec(&self) -> nat {
        self.io_handlers.next_spec()
    }

    /// Whether `id` names a live object that is not out for dispatch.
    pub open spec fn object_present(&self, id: ObjectId) -> bool {
        id@ < self.objects_seq().len() && self.objects_seq()[id@ as int] is Present
    }

    /// The object stored at `id`.
    pub open spec fn object_value(&self, id: ObjectId) -> O
        recommends
            self.object_present(id),
    {
        self.objects_seq()[id@ as int]->Present_0
    }

    /// Whether the object slot at `id` is occupied: live, or out for an
    /// in-flight dispatch.
    pub open spec fn object_slot_occupied(&self, id: ObjectId) -> bool {
        id@ < self.objects_seq().len() && self.objects_seq()[id@ as int].is_occupied()
    }

    /// Whether `t` names a registered handler that is not out for dispatch.
    pub open spec fn handler_present(&self, t: Token) -> bool {
        t@ < self.handlers_seq().len() && self.handlers_seq()[t@ as int] is Present
    }

    /// The handler registered at `t`.
    pub open spec fn handler_value(&self, t: Token) -> IoHandler
        recommends
            self.handler_present(t),
    {
        self.handlers_seq()[t@ as int]->Present_0
    }

    /// Whether the handler table holds no handler at all.
    pub open spec fn handlers_empty(&self) -> bool {
        occupied_count(self.handlers_seq()) == 0
    }

    /// When the loop must stop: shutdown was requested, or nothing is left
    /// to wait for — no handler in the table and no reaper pending.
    pub open spec fn stop_condition(&self) -> bool {
        self.exit_requested() || (self.handlers_empty() && self.reapers_seq().len() == 0)
    }

    /// Creates a reactor with empty tables, no reapers, and the exit flag
    /// clear.
    pub fn new() -> (c: Core<O>)
        ensures
            c.wf(),
            c.objects_seq() == Seq::<Slot<O>>::empty(),
            c.handlers_seq() == Seq::<Slot<IoHandler>>::empty(),
            c.reapers_seq() == Seq::<Reaper>::empty(),
            !c.exit_requested(),
    {
        Core {
            io_handlers: SlotTable::new(),
            objects: SlotTable::new(),
            exit: false,
            reapers: VecDeque::new(),
        }
    }

    /// Predicts the id a subsequent `add` will assign, so that a caller can
    /// register callbacks against an object before inserting it.
    pub fn next_id(&self) -> (id: ObjectId)
        requires
            self.wf(),
        ensures
            id@ == self.next_id_spec(),
            !self.object_slot_occupied(id),
    {
        ObjectId(self.objects.next_index())
    }

    /// Takes ownership of a user object and stores it under the returned id:
    /// the id the last `next_id` predicted. Nothing else changes.
    pub fn add(&mut self, object: O) -> (id: ObjectId)
        requires
            old(self).wf(),
        ensures
            final(self).wf(),
            id@ == old(self).next_id_spec(),
            id@ <= old(self).objects_seq().len(),
            final(self).object_present(id),
            final(self).object_value(id) == object,
            final(self).objects_seq() == if id@ < old(self).objects_seq().len() {
                old(self).objects_seq().update(id@ as int, Slot::Present(object))
            } else {
                old(self).objects_seq().push(Slot::Present(object))
            },
            final(self).handlers_seq() == old(self).handlers_seq(),
            final(self).reapers_seq() == old(self).reapers_seq(),
            final(self).exit_requested() == old(self).exit_requested(),
    {
        ObjectId(self.objects.put(object))
    }

    /// Relinquishes ownership of the object at `id` back to the caller, and
    /// frees the id. Absent when `id` holds no live object; removing an
    /// object that is out for dispatch frees its slot, and the dispatcher
    /// will drop the in-flight value instead of restoring it.
    pub fn remove(&mut self, id: ObjectId) -> (r: Option<O>)
        requires
            old(self).wf(),
        ensures
            final(self).wf(),
            match r {
                Some(v) => old(self).object_present(id) && old(self).object_value(id) == v,
                None => !old(self).object_present(id),
            },
            old(self).object_slot_occupied(id) ==> final(self).objects_seq() == old(
                self,
            ).objects_seq().update(id@ as int, Slot::Empty),
            !old(self).object_slot_occupied(id) ==> final(self).objects_seq() == old(
                self,
            ).objects_seq(),
            final(self).handlers_seq() == old(self).handlers_seq(),
            final(self).reapers_seq() == old(self).reapers_seq(),
            final(self).exit_requested() == old(self).exit_requested(),
    {
        self.objects.take(id.0)
    }

    /// Borrows the object at `id`. Absent when the slot is empty, holds an
    /// object currently out for dispatch, or was never assigned.
    pub fn get(&self, id: ObjectId) -> (r: Option<&O>)
        ensures
            match r {
                Some(p) => self.object_present(id) && self.object_value(id) == *p,
                None => !self.object_present(id),
            },
    {
        self.objects.get(id.0)
    }

    /// Mutably borrows the object at `id`, under the same absence rules as
    /// `get`.
    pub fn get_mut(&mut self, id: ObjectId) -> (r: Option<&mut O>)
        requires
            old(self).wf(),
        ensures
            final(self).wf(),
            match r {
                Some(p) => old(self).object_present(id) && old(self).object_value(id) == *p
                    && final(self).objects_seq() == old(self).objects_seq().update(
                    id@ as int,
                    Slot::Present(*final(p)),
                ),
                None => !old(self).object_present(id) && final(self).objects_seq() == old(
                    self,
                ).objects_seq(),
            },
            final(self).handlers_seq() == old(self).handlers_seq(),
            final(self).reapers_seq() == old(self).reapers_seq(),
            final(self).exit_requested() == old(self).exit_requested(),
    {
        self.objects.get_mut(id.0)
    }

    /// Requests cooperative shutdown: the loop stops at the top of its next
    /// turn. Nothing else changes, and no reactor operation ever clears the
    /// flag again.
    pub fn exit(&mut self)
        ensures
            final(self).wf() == old(self).wf(),
            final(self).exit_requested(),
            final(self).objects_seq() == old(self).objects_seq(),
            final(self).handlers_seq() == old(self).handlers_seq(),
            final(self).reapers_seq() == old(self).reapers_seq(),
    {
        self.exit = true;
    }

    /// Allocates a fresh token and stores the handler record under it. The
    /// caller registers its source with the poller under the returned token.
    fn internal_register(&mut self, handler: IoHandler) -> (t: Token)
        requires
            old(self).wf(),
        ensures
            final(self).wf(),
            t@ == old(self).next_token_spec(),
            t@ <= old(self).handlers_seq().len(),
            final(self).handler_present(t),
            final(self).handler_value(t) == handler,
            final(self).handlers_seq() == if t@ < old(self).handlers_seq().len() {
                old(self).handlers_seq().update(t@ as int, Slot::Present(handler))
            } else {
                old(self).handlers_seq().push(Slot::Present(handler))
            },
            final(self).objects_seq() == old(self).objects_seq(),
            final(self).reapers_seq() == old(self).reapers_seq(),
            final(self).exit_requested() == old(self).exit_requested(),
    {
        Token(self.io_handlers.put(handler))
    }

    /// Registers edge-triggered read interest: when the source registered
    /// under the returned token becomes readable, `f` fires on the object at
    /// `object_id`.
    pub fn register_reader(&mut self, object_id: ObjectId, f: Callback) -> (t: Token)
        requires
            old(self).wf(),
        ensures
            final(self).wf(),
            t@ == old(self).next_token_spec(),
            final(self).handler_present(t),
            final(self).handler_value(t) == (IoHandler {
                object_id,
                read_fn: Some(f),
                write_fn: None,
            }),
            final(self).handlers_seq() == if t@ < old(self).handlers_seq().len() {
                old(self).handlers_seq().update(
                    t@ as int,
                    Slot::Present(IoHandler { object_id, read_fn: Some(f), write_fn: None }),
                )
            } else {
                old(self).handlers_seq().push(
                    Slot::Present(IoHandler { object_id, read_fn: Some(f), write_fn: None }),
                )
            },
            final(self).objects_seq() == old(self).objects_seq(),
            final(self).reapers_seq() == old(self).reapers_seq(),
            final(self).exit_requested() == old(self).exit_requested(),
    {
        self.internal_register(IoHandler { object_id, read_fn: Some(f), write_fn: None })
    }

    /// Registers edge-triggered write interest, as `register_reader` does for
    /// read interest.
    pub fn register_writer(&mut self, object_id: ObjectId, f: Callback) -> (t: Token)
        requires
            old(self).wf(),
        ensures
            final(self).wf(),
            t@ == old(self).next_token_spec(),
            final(self).handler_present(t),
            final(self).handler_value(t) == (IoHandler {
                object_id,
                read_fn: None,
                write_fn: Some(f),
            }),
            final(self).handlers_seq() == if t@ < old(self).handlers_seq().len() {
                old(self).handlers_seq().update(
                    t@ as int,
                    Slot::Present(IoHandler { object_id, read_fn: None, write_fn: Some(f) }),
                )
            } else {
                old(self).handlers_seq().push(
                    Slot::Present(IoHandler { object_id, read_fn: None, write_fn: Some(f) }),
                )
            },
            final(self).objects_seq() == old(self).objects_seq(),
            final(self).reapers_seq() == old(self).reapers_seq(),
            final(self).exit_requested() == old(self).exit_requested(),
    {
        self.internal_register(IoHandler { object_id, read_fn: None, write_fn: Some(f) })
    }

    /// Registers both read and write interest under one token. On an event
    /// that is both readable and writable, the read callback fires before the
    /// write callback.
    pub fn register_reader_writer(
        &mut self,
        object_id: ObjectId,
        f_read: Callback,
        f_write: Callback,
    ) -> (t: Token)
        requires
            old(self).wf(),
        ensures
            final(self).wf(),
            t@ == old(self).next_token_spec(),
            final(self).handler_present(t),
            final(self).handler_value(t) == (IoHandler {
                object_id,
                read_fn: Some(f_read),
                write_fn: Some(f_write),
            }),
            final(self).handlers_seq() == if t@ < old(self).handlers_seq().len() {
                old(self).handlers_seq().update(
                    t@ as int,
                    Slot::Present(
                        IoHandler { object_id, read_fn: Some(f_read), write_fn: Some(f_write) },
                    ),
                )
            } else {
                old(self).handlers_seq().push(
                    Slot::Present(
                        IoHandler { object_id, read_fn: Some(f_read), write_fn: Some(f_write) },
                    ),
                )
            },
            final(self).objects_seq() == old(self).objects_seq(),
            final(self).reapers_seq() == old(self).reapers_seq(),
            final(self).exit_requested() == old(self).exit_requested(),
    {
        self.internal_register(
            IoHandler { object_id, read_fn: Some(f_read), write_fn: Some(f_write) },
        )
    }

    /// Drops the handler at `t`, freeing the token. A callback may call this
    /// on its own token: the dispatcher then sees the slot gone and will not
    /// restore the handler, so no further event for `t` is dispatched.
    pub fn remove_handler(&mut self, t: Token) -> (removed: bool)
        requires
            old(self).wf(),
        ensures
            final(self).wf(),
            removed == old(self).handler_present(t),
            (t@ < old(self).handlers_seq().len() && old(self).handlers_seq()[t@ as int].is_occupied())
                ==> final(self).handlers_seq() == old(self).handlers_seq().update(
                t@ as int,
                Slot::Empty,
            ),
            !(t@ < old(self).handlers_seq().len()
                && old(self).handlers_seq()[t@ as int].is_occupied()) ==> final(self).handlers_seq()
                == old(self).handlers_seq(),
            final(self).objects_seq() == old(self).objects_seq(),
            final(self).reapers_seq() == old(self).reapers_seq(),
            final(self).exit_requested() == old(self).exit_requested(),
    {
        match self.io_handlers.take(t.0) {
            Some(_) => true,
            None => false,
        }
    }

    /// Arranges for the object's exit callback to fire once, on a later
    /// reaper scan, when the child with the given process id has terminated.
    /// The watch joins the back of the reaper queue.
    pub fn register_reaper(&mut self, pid: i32, object_id: ObjectId, f: Callback)
        requires
            old(self).wf(),
        ensures
            final(self).wf(),
            final(self).reapers_seq() == old(self).reapers_seq().push(
                Reaper { pid, object_id, callback: f },
            ),
            final(self).objects_seq() == old(self).objects_seq(),
            final(self).handlers_seq() == old(self).handlers_seq(),
            final(self).exit_requested() == old(self).exit_requested(),
    {
        self.reapers.push_back(Reaper { pid, object_id, callback: f });
    }

    /// Whether a handler is registered and live under `t`.
    pub fn has_handler(&self, t: Token) -> (r: bool)
        ensures
            r == self.handler_present(t),
    {
        match self.io_handlers.get(t.0) {
            Some(_) => true,
            None => false,
        }
    }

    /// The number of handlers in the table, live and in-dispatch together.
    pub fn handler_count(&self) -> (n: usize)
        requires
            self.wf(),
        ensures
            n == occupied_count(self.handlers_seq()),
    {
        self.io_handlers.occupied_len()
    }

    /// Whether a live object is stored under `id`.
    pub fn has_object(&self, id: ObjectId) -> (r: bool)
        ensures
            r == self.object_present(id),
    {
        match self.objects.get(id.0) {
            Some(_) => true,
            None => false,
        }
    }

    /// The number of registered reapers.
    pub fn reaper_count(&self) -> (n: usize)
        ensures
            n == self.reapers_seq().len(),
    {
        self.reapers.len()
    }

    /// The reaper at the front of the queue: the one the next scan step will
    /// probe. Absent when no reaper is registered.
    pub fn front_reaper(&self) -> (r: Option<Reaper>)
        ensures
            match r {
                Some(rp) => self.reapers_seq().len() > 0 && rp == self.reapers_seq()[0],
                None => self.reapers_seq().len() == 0,
            },
    {
        if self.reapers.len() > 0 {
            Some(self.reapers[0])
        } else {
            None
        }
    }

    /// True when the loop must stop: shutdown was requested, or nothing is
    /// left to wait for (no handler in the table and no reaper pending).
    pub fn should_stop(&self) -> (stop: bool)
        requires
            self.wf(),
        ensures
            stop == self.stop_condition(),
    {
        self.exit || (self.io_handlers.is_empty() && self.reapers.len() == 0)
    }
}

/// The outcome of one non-blocking probe of a child process, as the runtime
/// classified it from the operating system's report.
#[derive(Clone, Copy, Debug, PartialEq, Eq, Structural)]
pub enum WaitStatus {
    /// The child has not terminated yet.
    StillRunning,
    /// The child has terminated and was reaped.
    Exited,
    /// The probe failed for a reason other than an interrupted call; the
    /// child's state is unknowable.
    Failed,
}

/// Classifies the return value of a non-blocking, no-hang child wait: zero
/// means the child still runs; a positive value (the child's pid) means it
/// exited and was reaped; a negative value is an error, to be retried when
/// the call was merely interrupted (`None`) and fatal otherwise.
pub fn classify_wait(ret: i32, interrupted: bool) -> (w: Option<WaitStatus>)
    ensures
        ret == 0 ==> w == Some(WaitStatus::StillRunning),
        ret > 0 ==> w == Some(WaitStatus::Exited),
        ret < 0 && interrupted ==> w is None,
        ret < 0 && !interrupted ==> w == Some(WaitStatus::Failed),
{
    if ret == 0 {
        Some(WaitStatus::StillRunning)
    } else if ret > 0 {
        Some(WaitStatus::Exited)
    } else if interrupted {
        None
    } else {
        Some(WaitStatus::Failed)
    }
}

/// A user object's entry points. The reactor stores values of one
/// implementing type (commonly an enum over the application's object kinds)
/// and calls these methods when a registered callback fires; the object is
/// out of the store for the duration of the call, and the callback may call
/// any method of the passed reactor, including ones that mutate the very
/// tables it was dispatched from.
///
/// Every implementation must leave the reactor well-formed and must not clear
/// a requested shutdown; both hold automatically for callbacks that touch the
/// reactor only through its public methods, which all preserve them.
pub trait Handler: Sized {
    /// A read-interest callback registered under `cb` fired.
    fn on_read(&mut self, core: &mut Core<Self>, cb: Callback)
        requires
            old(core).wf(),
        ensures
            final(core).wf(),
            old(core).exit_requested() ==> final(core).exit_requested(),
    ;

    /// A write-interest callback registered under `cb` fired.
    fn on_write(&mut self, core: &mut Core<Self>, cb: Callback)
        requires
            old(core).wf(),
        ensures
            final(core).wf(),
            old(core).exit_requested() ==> final(core).exit_requested(),
    ;

    /// A reaper registered under `cb` saw its child exit.
    fn on_exit(&mut self, core: &mut Core<Self>, cb: Callback)
        requires
            old(core).wf(),
        ensures
            final(core).wf(),
            old(core).exit_requested() ==> final(core).exit_requested(),
    ;
}

impl<O: Handler> Core<O> {
    /// Takes the object at `id` out of the store, runs the requested
    /// callbacks on it, and restores it if its slot still awaits it. Returns
    /// whether the object is still live: false when it was absent to begin
    /// with, or when a callback removed it.
    fn call_on_object(
        &mut self,
        id: ObjectId,
        read_fn: Option<Callback>,
        write_fn: Option<Callback>,
        exit_fn: Option<Callback>,
    ) -> (alive: bool)
        requires
            old(self).wf(),
        ensures
            final(self).wf(),
            old(self).exit_requested() ==> final(self).exit_requested(),
            !old(self).object_present(id) ==> !alive && *final(self) == *old(self),
    {
        let mut obj = match self.objects.take_out(id.as_usize()) {
            Some(obj) => obj,
            None => {
                return false;
            },
        };
        if let Some(cb) = read_fn {
            obj.on_read(self, cb);
        }
        if let Some(cb) = write_fn {
            obj.on_write(self, cb);
        }
        if let Some(cb) = exit_fn {
            obj.on_exit(self, cb);
        }
        self.objects.restore(id.as_usize(), obj)
    }

    /// Dispatches one readiness event: takes the handler at the event's token
    /// and its object out of their slots, runs the read callback (when
    /// registered and the event is readable) and then the write callback
    /// (when registered and the event is writable), and restores what is
    /// still wanted. A token without a live handler is ignored; a handler
    /// whose object is gone is dropped without any callback running.
    pub fn dispatch_event(&mut self, event: Event)
        requires
            old(self).wf(),
        ensures
            final(self).wf(),
            old(self).exit_requested() ==> final(self).exit_requested(),
            !old(self).handler_present(event.token) ==> *final(self) == *old(self),
            old(self).handler_present(event.token) && !old(self).object_present(
                old(self).handler_value(event.token).object_id,
            ) ==> {
                &&& final(self).handlers_seq() == old(self).handlers_seq().update(
                    event.token@ as int,
                    Slot::Empty,
                )
                &&& final(self).objects_seq() == old(self).objects_seq()
                &&& final(self).reapers_seq() == old(self).reapers_seq()
                &&& final(self).exit_requested() == old(self).exit_requested()
            },
    {
        let h = match self.io_handlers.take_out(event.token.as_usize()) {
            Some(h) => h,
            None => {
                return;
            },
        };
        let read_fn = if event.readable {
            h.read_fn
        } else {
            None
        };
        let write_fn = if event.writable {
            h.write_fn
        } else {
            None
        };
        let alive = self.call_on_object(h.object_id, read_fn, write_fn, None);
        if alive {
            self.io_handlers.restore(event.token.as_usize(), h);
        } else {
            self.io_handlers.take(event.token.as_usize());
        }
    }

    /// Dispatches one poll batch, in the order the poller returned the
    /// events.
    pub fn dispatch_batch(&mut self, events: &Vec<Event>)
        requires
            old(self).wf(),
        ensures
            final(self).wf(),
            old(self).exit_requested() ==> final(self).exit_requested(),
    {
        let ghost was_exit: bool = self.exit_requested();
        let mut idx: usize = 0;
        while idx < events.len()
            invariant
                self.wf(),
                was_exit ==> self.exit_requested(),
                idx <= events@.len(),
            decreases events@.len() - idx,
        {
            let event = events[idx];
            self.dispatch_event(event);
            idx = idx + 1;
        }
    }

    /// One step of the reaper scan: pops the front reaper and acts on the
    /// probe outcome the runtime observed for its child. A child still
    /// running sends its reaper to the back of the queue, so a long-lived
    /// child cannot starve later ones; a failed probe drops the reaper; an
    /// exited child fires the exit callback on the bound object — once, since
    /// the entry has left the queue before the callback runs. Returns whether
    /// a callback fired.
    pub fn reap_front(&mut self, status: WaitStatus) -> (fired: bool)
        requires
            old(self).wf(),
            old(self).reapers_seq().len() > 0,
        ensures
            final(self).wf(),
            old(self).exit_requested() ==> final(self).exit_requested(),
            fired == (status is Exited && old(self).object_present(
                old(self).reapers_seq()[0].object_id,
            )),
            status is StillRunning ==> {
                &&& final(self).reapers_seq() == old(self).reapers_seq().drop_first().push(
                    old(self).reapers_seq()[0],
                )
                &&& final(self).objects_seq() == old(self).objects_seq()
                &&& final(self).handlers_seq() == old(self).handlers_seq()
                &&& final(self).exit_requested() == old(self).exit_requested()
            },
            status is Failed ==> {
                &&& final(self).reapers_seq() == old(self).reapers_seq().drop_first()
                &&& final(self).objects_seq() == old(self).objects_seq()
                &&& final(self).handlers_seq() == old(self).handlers_seq()
                &&& final(self).exit_requested() == old(self).exit_requested()
            },
            status is Exited && !old(self).object_present(old(self).reapers_seq()[0].object_id)
                ==> {
                &&& final(self).reapers_seq() == old(self).reapers_seq().drop_first()
                &&& final(self).objects_seq() == old(self).objects_seq()
                &&& final(self).handlers_seq() == old(self).handlers_seq()
                &&& final(self).exit_requested() == old(self).exit_requested()
            },
    {
        let r = self.reapers.pop_front().unwrap();
        match status {
            WaitStatus::StillRunning => {
                self.reapers.push_back(r);
                false
            },
            WaitStatus::Failed => false,
            WaitStatus::Exited => {
                let fired_now = match self.objects.take_out(r.object_id.as_usize()) {
                    Some(mut obj) => {
                        obj.on_exit(self, r.callback);
                        self.objects.restore(r.object_id.as_usize(), obj);
                        true
                    },
                    None => false,
                };
                fired_now
            },
        }
    }
}

} // verus!
