//! The signaling server: where it listens, and the sessions of the clients it
//! has accepted.

use vstd::prelude::*;
use crate::manager::{all_closed, holds, place, ManagerView, SessionManager};
use crate::session::{
    closing, fresh, opening, step, Action, ActionView, Event, Session, SessionView, TrackPlan,
};

verus! {

/// A signaling server.
#[derive(Debug)]
pub struct Server {
    addr: String,
    plan: TrackPlan,
    sessions: SessionManager,
}

/// The mathematical value of a [`Server`].
pub struct ServerView {
    /// The address the server listens at.
    pub addr: Seq<char>,
    /// When the sessions of this server add the shared track.
    pub plan: TrackPlan,
    pub sessions: ManagerView,
}

impl View for Server {
    type V = ServerView;

    closed spec fn view(&self) -> ServerView {
        ServerView { addr: self.addr@, plan: self.plan, sessions: self.sessions@ }
    }
}

/// A step of shutting a server down.
#[derive(Clone, Debug, PartialEq, Eq)]
pub enum ShutdownStep {
    /// Write to the shared track what the queue of encoded frames holds.
    DrainQueue,
    /// Stop the capture pipeline.
    StopCapture,
    /// Do what the closing of the session with this id asks for.
    CloseSession(u64, Vec<Action>),
}

/// The mathematical value of a [`ShutdownStep`].
pub enum ShutdownStepView {
    DrainQueue,
    StopCapture,
    CloseSession(u64, Seq<ActionView>),
}

impl View for ShutdownStep {
    type V = ShutdownStepView;

    open spec fn view(&self) -> ShutdownStepView {
        match self {
            ShutdownStep::DrainQueue => ShutdownStepView::DrainQueue,
            ShutdownStep::StopCapture => ShutdownStepView::StopCapture,
            ShutdownStep::CloseSession(id, actions) => ShutdownStepView::CloseSession(
                *id,
                actions.deep_view(),
            ),
        }
    }
}

impl DeepView for ShutdownStep {
    type V = ShutdownStepView;

    open spec fn deep_view(&self) -> ShutdownStepView {
        self@
    }
}

/// The steps of shutting down a server with the given sessions, in their
/// order: the queue of encoded frames is emptied, the capture is stopped, and
/// then the sessions are closed, in the order of their registration.
pub open spec fn shutdown(entries: Seq<(u64, SessionView)>) -> Seq<ShutdownStepView> {
    seq![ShutdownStepView::DrainQueue, ShutdownStepView::StopCapture] + Seq::new(
        entries.len(),
        |i: int| ShutdownStepView::CloseSession(entries[i].0, closing(entries[i].1).1),
    )
}

/// The address a server listens at when nothing else is asked for: every
/// interface, port 11111.
pub fn default_addr() -> (addr: &'static str)
    ensures
        addr@ == "0.0.0.0:11111"@,
{
    "0.0.0.0:11111"
}

impl Server {
    /// A server without sessions that listens at `addr`. Its sessions hold a
    /// video transceiver until they are connected, and add the shared track
    /// then.
    pub fn new(addr: &str) -> (server: Server)
        ensures
            server@.addr == addr@,
            server@.plan == TrackPlan::WhenConnected,
            server@.sessions.wf(),
            server@.sessions.entries.len() == 0,
            server@.sessions.next_id == 1,
    {
        Server::with_plan(addr, TrackPlan::WhenConnected)
    }

    /// A server without sessions that listens at `addr` and whose sessions
    /// add the shared track as `plan` says.
    pub fn with_plan(addr: &str, plan: TrackPlan) -> (server: Server)
        ensures
            server@.addr == addr@,
            server@.plan == plan,
            server@.sessions.wf(),
            server@.sessions.entries.len() == 0,
            server@.sessions.next_id == 1,
    {
        Server { addr: addr.to_owned(), plan, sessions: SessionManager::new() }
    }

    /// The address the server listens at.
    pub fn addr(&self) -> (addr: &str)
        ensures
            addr@ == self@.addr,
    {
        self.addr.as_str()
    }

    /// The sessions of the server.
    pub fn sessions(&self) -> (sessions: &SessionManager)
        ensures
            sessions@ == self@.sessions,
    {
        &self.sessions
    }

    /// Takes in a client whose socket was upgraded: a new session is made
    /// for it and registered. Returns the id of the session and what the
    /// session asks for at once, or `None` when the ids are used up.
    pub fn accept(&mut self) -> (accepted: Option<(u64, Vec<Action>)>)
        ensures
            old(self)@.sessions.wf() ==> final(self)@.sessions.wf(),
            final(self)@.addr == old(self)@.addr,
            final(self)@.plan == old(self)@.plan,
            match accepted {
                Some((id, actions)) => {
                    &&& id == old(self)@.sessions.next_id
                    &&& final(self)@.sessions.next_id == id + 1
                    &&& final(self)@.sessions.entries == old(self)@.sessions.entries.push(
                        (id, fresh(old(self)@.plan)),
                    )
                    &&& actions.deep_view() == opening(old(self)@.plan)
                },
                None => old(self)@.sessions.next_id == u64::MAX && final(self)@ == old(self)@,
            },
    {
        let (session, actions) = Session::new(self.plan);
        match self.sessions.register(session) {
            Ok(id) => Some((id, actions)),
            Err(_) => None,
        }
    }

    /// Hands an event to the session registered under `id`; see
    /// [`SessionManager::dispatch`].
    pub fn handle(&mut self, id: u64, event: &Event) -> (actions: Option<Vec<Action>>)
        ensures
            old(self)@.sessions.wf() ==> final(self)@.sessions.wf(),
            final(self)@.addr == old(self)@.addr,
            final(self)@.plan == old(self)@.plan,
            final(self)@.sessions.next_id == old(self)@.sessions.next_id,
            match actions {
                Some(actions) => {
                    let before = old(self)@.sessions.entries;
                    let at = place(before, id);
                    let after = step(before[at].1, *event);
                    &&& holds(before, id)
                    &&& actions.deep_view() == after.1
                    &&& after.0.closed ==> final(self)@.sessions.entries == before.remove(at)
                        && (old(self)@.sessions.wf() ==> !holds(final(self)@.sessions.entries, id))
                    &&& !after.0.closed ==> final(self)@.sessions.entries == before.update(
                        at,
                        (id, after.0),
                    )
                },
                None => !holds(old(self)@.sessions.entries, id) && final(self)@ == old(self)@,
            },
    {
        self.sessions.dispatch(id, event)
    }

    /// Shuts the server down: every session is removed and closed. Returns
    /// what is to be done, in order: empty the queue of encoded frames, stop
    /// the capture, and then for each session what its closing asks for.
    pub fn shut_down(&mut self) -> (steps: Vec<ShutdownStep>)
        ensures
            final(self)@.addr == old(self)@.addr,
            final(self)@.plan == old(self)@.plan,
            final(self)@.sessions.entries.len() == 0,
            final(self)@.sessions.next_id == old(self)@.sessions.next_id,
            old(self)@.sessions.wf() ==> final(self)@.sessions.wf(),
            steps.deep_view() == shutdown(old(self)@.sessions.entries),
    {
        let ghost entries = self@.sessions.entries;
        let mut closed = self.sessions.close_all();
        let ghost all = closed.deep_view();
        let total: usize = closed.len();
        let mut steps: Vec<ShutdownStep> = Vec::new();
        steps.push(ShutdownStep::DrainQueue);
        steps.push(ShutdownStep::StopCapture);
        assert(steps.deep_view() =~= seq![
            ShutdownStepView::DrainQueue,
            ShutdownStepView::StopCapture,
        ]);
        let mut done: usize = 0;
        while closed.len() > 0
            invariant
                all == all_closed(entries),
                all.len() == total,
                done + closed.len() == total,
                closed.deep_view() == all.skip(done as int),
                steps.deep_view() == shutdown(entries.take(done as int)),
            decreases closed.len(),
        {
            let ghost before = steps.deep_view();
            let ghost held = closed.deep_view();
            let (id, actions) = closed.remove(0);
            assert(held[0] == all[done as int]);
            assert((id, actions.deep_view()) == held[0]);
            assert(closed.deep_view() =~= held.remove(0));
            assert(closed.deep_view() =~= all.skip(done as int + 1));
            steps.push(ShutdownStep::CloseSession(id, actions));
            assert(steps.deep_view() =~= before.push(
                ShutdownStepView::CloseSession(
                    entries[done as int].0,
                    closing(entries[done as int].1).1,
                ),
            ));
            assert(steps.deep_view() =~= shutdown(entries.take(done as int + 1)));
            done += 1;
        }
        assert(entries.take(done as int) =~= entries);
        steps
    }

    /// Removes and closes the session registered under `id`; see
    /// [`SessionManager::remove`].
    pub fn close(&mut self, id: u64) -> (actions: Option<Vec<Action>>)
        ensures
            old(self)@.sessions.wf() ==> final(self)@.sessions.wf(),
            final(self)@.addr == old(self)@.addr,
            final(self)@.plan == old(self)@.plan,
            final(self)@.sessions.next_id == old(self)@.sessions.next_id,
            old(self)@.sessions.wf() ==> !holds(final(self)@.sessions.entries, id),
            match actions {
                Some(actions) => {
                    let before = old(self)@.sessions.entries;
                    let at = place(before, id);
                    &&& holds(before, id)
                    &&& final(self)@.sessions.entries == before.remove(at)
                    &&& actions.deep_view() == closing(before[at].1).1
                },
                None => !holds(old(self)@.sessions.entries, id) && final(self)@ == old(self)@,
            },
    {
        self.sessions.remove(id)
    }
}

} // verus!
