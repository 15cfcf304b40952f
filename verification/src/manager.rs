//! The session manager: the live sessions of a server, each under an id that
//! is handed out once.

use vstd::prelude::*;
use crate::session::{
    closing, step, Action, ActionView, ConnectionState, Event, Session, SessionView,
};
use crate::signal::{WSMessage, WSMessageView};

verus! {

/// A session and the id it is registered under.
#[derive(Debug)]
struct Entry {
    id: u64,
    session: Session,
}

/// The live sessions of a server.
#[derive(Debug)]
pub struct SessionManager {
    entries: Vec<Entry>,
    next_id: u64,
}

/// The mathematical value of a [`SessionManager`]: the sessions with their
/// ids, in the order of their registration, and the id that comes next.
pub struct ManagerView {
    pub entries: Seq<(u64, SessionView)>,
    pub next_id: u64,
}

/// Whether a session is registered under `id`.
pub open spec fn holds(entries: Seq<(u64, SessionView)>, id: u64) -> bool {
    exists|i: int| 0 <= i < entries.len() && (#[trigger] entries[i]).0 == id
}

/// Whether the first session registered under `id` stands at `at`.
pub open spec fn first_at(entries: Seq<(u64, SessionView)>, id: u64, at: int) -> bool {
    &&& 0 <= at < entries.len()
    &&& entries[at].0 == id
    &&& forall|k: int| 0 <= k < at ==> (#[trigger] entries[k]).0 != id
}

/// Where the session registered under `id` stands, if there is one: the
/// first place, should there be several, which a well-formed manager never
/// has.
pub open spec fn place(entries: Seq<(u64, SessionView)>, id: u64) -> int {
    choose|at: int| first_at(entries, id, at)
}

/// Whether a sample written to the shared track reaches a session: its peer
/// connection is connected and has the track.
pub open spec fn receives(s: SessionView) -> bool {
    s.connection == ConnectionState::Connected && s.track_added
}

/// The ids of the sessions that a sample written to the shared track
/// reaches, in the order of their registration.
pub open spec fn audience(entries: Seq<(u64, SessionView)>) -> Seq<u64>
    decreases entries.len(),
{
    if entries.len() == 0 {
        Seq::empty()
    } else if receives(entries.last().1) {
        audience(entries.drop_last()).push(entries.last().0)
    } else {
        audience(entries.drop_last())
    }
}

/// The sending of one message to every session, in the order of their
/// registration.
pub open spec fn to_all(entries: Seq<(u64, SessionView)>, m: WSMessageView) -> Seq<
    (u64, ActionView),
> {
    Seq::new(entries.len(), |i: int| (entries[i].0, ActionView::Send(m)))
}

/// The closing of every session, in the order of their registration: each
/// id with what the closing of its session asks for.
pub open spec fn all_closed(entries: Seq<(u64, SessionView)>) -> Seq<(u64, Seq<ActionView>)> {
    Seq::new(entries.len(), |i: int| (entries[i].0, closing(entries[i].1).1))
}

impl ManagerView {
    /// Ids grow with the order of registration, and the next id is above all
    /// of them: no id is ever handed out twice.
    pub open spec fn wf(self) -> bool {
        &&& forall|i: int, j: int|
            0 <= i < j < self.entries.len() ==> (#[trigger] self.entries[i]).0 < (
            #[trigger] self.entries[j]).0
        &&& forall|i: int|
            0 <= i < self.entries.len() ==> (#[trigger] self.entries[i]).0 < self.next_id
    }
}

impl View for SessionManager {
    type V = ManagerView;

    closed spec fn view(&self) -> ManagerView {
        ManagerView {
            entries: Seq::new(
                self.entries@.len(),
                |i: int| (self.entries@[i].id, self.entries@[i].session@),
            ),
            next_id: self.next_id,
        }
    }
}

impl SessionManager {
    /// A manager without sessions. The first id it hands out is 1.
    pub fn new() -> (m: SessionManager)
        ensures
            m@.wf(),
            m@.entries.len() == 0,
            m@.next_id == 1,
    {
        SessionManager { entries: Vec::new(), next_id: 1 }
    }

    /// How many sessions are registered.
    pub fn len(&self) -> (n: usize)
        ensures
            n == self@.entries.len(),
    {
        self.entries.len()
    }

    /// Whether no session is registered.
    pub fn is_empty(&self) -> (empty: bool)
        ensures
            empty == (self@.entries.len() == 0),
    {
        self.entries.len() == 0
    }

    /// Where the session registered under `id` stands.
    fn find(&self, id: u64) -> (at: Option<usize>)
        ensures
            match at {
                Some(i) => i < self@.entries.len() && self@.entries[i as int].0 == id && holds(
                    self@.entries,
                    id,
                ) && i == place(self@.entries, id),
                None => !holds(self@.entries, id),
            },
    {
        let mut i: usize = 0;
        while i < self.entries.len()
            invariant
                i <= self.entries.len(),
                forall|k: int| 0 <= k < i ==> (#[trigger] self@.entries[k]).0 != id,
            decreases self.entries.len() - i,
        {
            if self.entries[i].id == id {
                proof {
                    let entries = self@.entries;
                    assert(entries[i as int].0 == id);
                    assert(first_at(entries, id, i as int));
                    let c = place(entries, id);
                    assert(first_at(entries, id, c));
                    if c < i {
                        assert(entries[c].0 != id);
                    } else if i < c {
                        assert(entries[i as int].0 != id);
                    }
                }
                return Some(i);
            }
            i += 1;
        }
        None
    }

    /// Whether a session is registered under `id`.
    pub fn contains(&self, id: u64) -> (found: bool)
        ensures
            found == holds(self@.entries, id),
    {
        self.find(id).is_some()
    }

    /// The session registered under `id`, if there is one.
    pub fn session(&self, id: u64) -> (session: Option<&Session>)
        ensures
            match session {
                Some(s) => holds(self@.entries, id) && s@ == self@.entries[place(
                    self@.entries,
                    id,
                )].1,
                None => !holds(self@.entries, id),
            },
    {
        match self.find(id) {
            Some(at) => Some(&self.entries[at].session),
            None => None,
        }
    }

    /// The ids of the registered sessions, in the order of their
    /// registration.
    pub fn ids(&self) -> (ids: Vec<u64>)
        ensures
            ids@ == Seq::new(self@.entries.len(), |i: int| self@.entries[i].0),
    {
        let mut ids: Vec<u64> = Vec::new();
        let mut i: usize = 0;
        while i < self.entries.len()
            invariant
                i <= self.entries.len(),
                ids@ == Seq::new(i as nat, |k: int| self@.entries[k].0),
            decreases self.entries.len() - i,
        {
            ids.push(self.entries[i].id);
            assert(ids@ =~= Seq::new((i + 1) as nat, |k: int| self@.entries[k].0));
            i += 1;
        }
        ids
    }

    /// Registers a session under the next id and returns that id. When the
    /// ids are used up the session is handed back.
    pub fn register(&mut self, session: Session) -> (id: Result<u64, Session>)
        ensures
            old(self)@.wf() ==> final(self)@.wf(),
            match id {
                Ok(id) => {
                    &&& id == old(self)@.next_id
                    &&& id < u64::MAX
                    &&& final(self)@.next_id == id + 1
                    &&& final(self)@.entries == old(self)@.entries.push((id, session@))
                    &&& old(self)@.wf() ==> !holds(old(self)@.entries, id)
                },
                Err(back) => {
                    &&& old(self)@.next_id == u64::MAX
                    &&& back == session
                    &&& final(self)@ == old(self)@
                },
            },
    {
        if self.next_id == u64::MAX {
            return Err(session);
        }
        let id = self.next_id;
        let ghost pushed = session@;
        self.entries.push(Entry { id, session });
        self.next_id = id + 1;
        assert(self@.entries =~= old(self)@.entries.push((id, pushed)));
        Ok(id)
    }

    /// Removes the session registered under `id` and closes it. Returns what
    /// the closing asks for, or `None` if no session is registered under
    /// `id`.
    pub fn remove(&mut self, id: u64) -> (actions: Option<Vec<Action>>)
        ensures
            old(self)@.wf() ==> final(self)@.wf(),
            final(self)@.next_id == old(self)@.next_id,
            old(self)@.wf() ==> !holds(final(self)@.entries, id),
            match actions {
                Some(actions) => {
                    let at = place(old(self)@.entries, id);
                    &&& holds(old(self)@.entries, id)
                    &&& final(self)@.entries == old(self)@.entries.remove(at)
                    &&& actions.deep_view() == closing(old(self)@.entries[at].1).1
                },
                None => !holds(old(self)@.entries, id) && final(self)@ == old(self)@,
            },
    {
        match self.find(id) {
            None => None,
            Some(at) => {
                let mut entry = self.entries.remove(at);
                assert(self@.entries =~= old(self)@.entries.remove(at as int));
                let actions = entry.session.close();
                Some(actions)
            },
        }
    }

    /// Hands an event to the session registered under `id` and returns what
    /// the session asks for, or `None` if no session is registered under
    /// `id`. A session that the event closes leaves the manager.
    pub fn dispatch(&mut self, id: u64, event: &Event) -> (actions: Option<Vec<Action>>)
        ensures
            old(self)@.wf() ==> final(self)@.wf(),
            final(self)@.next_id == old(self)@.next_id,
            match actions {
                Some(actions) => {
                    let at = place(old(self)@.entries, id);
                    let after = step(old(self)@.entries[at].1, *event);
                    &&& holds(old(self)@.entries, id)
                    &&& actions.deep_view() == after.1
                    &&& after.0.closed ==> final(self)@.entries == old(self)@.entries.remove(at)
                        && (old(self)@.wf() ==> !holds(final(self)@.entries, id))
                    &&& !after.0.closed ==> final(self)@.entries == old(self)@.entries.update(
                        at,
                        (id, after.0),
                    )
                },
                None => !holds(old(self)@.entries, id) && final(self)@ == old(self)@,
            },
    {
        match self.find(id) {
            None => None,
            Some(at) => {
                let mut entry = self.entries.remove(at);
                assert(self@.entries =~= old(self)@.entries.remove(at as int));
                let actions = entry.session.handle(event);
                if !entry.session.is_closed() {
                    let ghost stepped = entry.session@;
                    self.entries.insert(at, entry);
                    assert(self@.entries =~= old(self)@.entries.update(at as int, (id, stepped)));
                }
                Some(actions)
            },
        }
    }

    /// Removes and closes every session, for the server to shut down.
    /// Returns, in the order of registration, each id with what the closing
    /// of its session asks for. The ids stay used.
    pub fn close_all(&mut self) -> (closed: Vec<(u64, Vec<Action>)>)
        ensures
            final(self)@.entries.len() == 0,
            final(self)@.next_id == old(self)@.next_id,
            old(self)@.wf() ==> final(self)@.wf(),
            closed.deep_view() == all_closed(old(self)@.entries),
    {
        let ghost all = self@.entries;
        let mut closed: Vec<(u64, Vec<Action>)> = Vec::new();
        let total: usize = self.entries.len();
        let mut done: usize = 0;
        while self.entries.len() > 0
            invariant
                all.len() == total,
                done + self.entries.len() == total,
                self@.entries == all.skip(done as int),
                self@.next_id == old(self)@.next_id,
                closed.deep_view() == all_closed(all.take(done as int)),
            decreases self.entries.len(),
        {
            let ghost before = closed.deep_view();
            let ghost held = self@.entries;
            let mut entry = self.entries.remove(0);
            assert(held[0] == all[done as int]);
            assert((entry.id, entry.session@) == held[0]);
            assert(self@.entries =~= held.remove(0));
            assert(self@.entries =~= all.skip(done as int + 1));
            let actions = entry.session.close();
            closed.push((entry.id, actions));
            assert(closed.deep_view() =~= before.push(
                (all[done as int].0, closing(all[done as int].1).1),
            ));
            assert(closed.deep_view() =~= all_closed(all.take(done as int + 1)));
            done += 1;
        }
        assert(all.take(done as int) =~= all);
        closed
    }

    /// The ids of the sessions that a sample written to the shared track
    /// reaches.
    pub fn recipients(&self) -> (ids: Vec<u64>)
        ensures
            ids@ == audience(self@.entries),
    {
        let mut ids: Vec<u64> = Vec::new();
        let mut i: usize = 0;
        while i < self.entries.len()
            invariant
                i <= self.entries.len(),
                ids@ == audience(self@.entries.take(i as int)),
            decreases self.entries.len() - i,
        {
            assert(self@.entries.take(i as int + 1).drop_last() =~= self@.entries.take(i as int));
            let session = &self.entries[i].session;
            if session.has_track() {
                match session.connection() {
                    ConnectionState::Connected => {
                        ids.push(self.entries[i].id);
                    },
                    _ => {},
                }
            }
            i += 1;
        }
        assert(self@.entries.take(i as int) =~= self@.entries);
        ids
    }

    /// Addresses one signaling message to every registered session: the
    /// sends to make, each with the id of its session, in the order of
    /// registration.
    pub fn broadcast_signaling(&self, message: &WSMessage) -> (sends: Vec<(u64, Action)>)
        ensures
            sends.deep_view() == to_all(self@.entries, message@),
    {
        let mut sends: Vec<(u64, Action)> = Vec::new();
        let mut i: usize = 0;
        while i < self.entries.len()
            invariant
                i <= self.entries.len(),
                sends.deep_view() == to_all(self@.entries.take(i as int), message@),
            decreases self.entries.len() - i,
        {
            let ghost before = sends.deep_view();
            let copy = WSMessage::new(message.event.as_str(), message.payload.as_str());
            sends.push((self.entries[i].id, Action::Send(copy)));
            assert(sends.deep_view() =~= before.push(
                (self@.entries[i as int].0, ActionView::Send(message@)),
            ));
            assert(sends.deep_view() =~= to_all(self@.entries.take(i as int + 1), message@));
            i += 1;
        }
        assert(self@.entries.take(i as int) =~= self@.entries);
        sends
    }
}

/// A sample written to the shared track reaches the sessions whose peer
/// connection is connected and has the track, and no others: none that is
/// closed, in particular.
pub proof fn lemma_audience_is_connected(entries: Seq<(u64, SessionView)>, id: u64)
    ensures
        audience(entries).contains(id) <==> exists|i: int|
            0 <= i < entries.len() && (#[trigger] entries[i]).0 == id && receives(entries[i].1),
    decreases entries.len(),
{
    if entries.len() > 0 {
        let earlier = entries.drop_last();
        lemma_audience_is_connected(earlier, id);
        let last = entries.last();
        if audience(entries).contains(id) {
            if receives(last.1) && last.0 == id {
                assert(entries[entries.len() - 1].0 == id);
            } else {
                if receives(last.1) {
                    let k = choose|k: int|
                        0 <= k < audience(entries).len() && audience(entries)[k] == id;
                    assert(audience(earlier)[k] == id);
                }
                assert(audience(earlier).contains(id));
                let i = choose|i: int|
                    0 <= i < earlier.len() && (#[trigger] earlier[i]).0 == id
                        && receives(earlier[i].1);
                assert(entries[i] == earlier[i]);
            }
        }
        if exists|i: int|
            0 <= i < entries.len() && (#[trigger] entries[i]).0 == id && receives(entries[i].1) {
            let i = choose|i: int|
                0 <= i < entries.len() && (#[trigger] entries[i]).0 == id
                    && receives(entries[i].1);
            if i == entries.len() - 1 {
                assert(audience(entries).last() == id);
            } else {
                assert(earlier[i] == entries[i]);
                assert(audience(earlier).contains(id));
                let k = choose|k: int|
                    0 <= k < audience(earlier).len() && audience(earlier)[k] == id;
                assert(audience(entries)[k] == id);
            }
        }
    }
}

/// Where a session is registered under an id, `place` is the first place
/// where one stands: it lies within the entries, and the entry there has the
/// id.
pub proof fn lemma_place(entries: Seq<(u64, SessionView)>, id: u64)
    requires
        holds(entries, id),
    ensures
        first_at(entries, id, place(entries, id)),
        0 <= place(entries, id) < entries.len(),
        entries[place(entries, id)].0 == id,
{
    let some = choose|i: int| 0 <= i < entries.len() && (#[trigger] entries[i]).0 == id;
    lemma_first_below(entries, id, some);
}

/// If the id stands at `at`, it has a first place at or before `at`.
proof fn lemma_first_below(entries: Seq<(u64, SessionView)>, id: u64, at: int)
    requires
        0 <= at < entries.len(),
        entries[at].0 == id,
    ensures
        exists|first: int| first_at(entries, id, first),
    decreases at,
{
    if exists|k: int| 0 <= k < at && (#[trigger] entries[k]).0 == id {
        let k = choose|k: int| 0 <= k < at && (#[trigger] entries[k]).0 == id;
        lemma_first_below(entries, id, k);
    } else {
        assert(first_at(entries, id, at));
    }
}

} // verus!
