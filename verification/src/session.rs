//! The session store: for each user, the history of the conversation with
//! that user.

use crate::conversation::{recent, recent_turns, turns, ConversationTurn, Turn};
use vstd::prelude::*;

verus! {

/// One user's conversation.
struct Session {
    user: String,
    history: Vec<ConversationTurn>,
}

/// The history that `sessions` holds for `user`, where it holds one.
pub open spec fn history_of(sessions: Map<Seq<char>, Seq<Turn>>, user: Seq<char>) -> Seq<Turn> {
    if sessions.contains_key(user) {
        sessions[user]
    } else {
        Seq::empty()
    }
}

/// The sessions with an entry for `user`: the one there is, or an empty one.
pub open spec fn ensured(sessions: Map<Seq<char>, Seq<Turn>>, user: Seq<char>) -> Map<
    Seq<char>,
    Seq<Turn>,
> {
    if sessions.contains_key(user) {
        sessions
    } else {
        sessions.insert(user, Seq::empty())
    }
}

/// The sessions with `exchange` appended to the history of `user`, whose
/// entry is made where there is none.
pub open spec fn appended(
    sessions: Map<Seq<char>, Seq<Turn>>,
    user: Seq<char>,
    exchange: Seq<Turn>,
) -> Map<Seq<char>, Seq<Turn>> {
    sessions.insert(user, history_of(sessions, user) + exchange)
}

/// The sessions with the history of `user` cut down to its `keep` most
/// recent turns. A user without an entry gets none.
pub open spec fn truncated(sessions: Map<Seq<char>, Seq<Turn>>, user: Seq<char>, keep: nat) -> Map<
    Seq<char>,
    Seq<Turn>,
> {
    if sessions.contains_key(user) {
        sessions.insert(user, recent(sessions[user], keep))
    } else {
        sessions
    }
}

/// The sessions with the history of `user` emptied. The entry stays; a user
/// without an entry gets none.
pub open spec fn cleared(sessions: Map<Seq<char>, Seq<Turn>>, user: Seq<char>) -> Map<
    Seq<char>,
    Seq<Turn>,
> {
    if sessions.contains_key(user) {
        sessions.insert(user, Seq::empty())
    } else {
        sessions
    }
}

/// Whether no user has two of the `sessions`.
spec fn distinct_users(sessions: Seq<Session>) -> bool {
    forall|i: int, j: int|
        0 <= i < j < sessions.len() ==> (#[trigger] sessions[i]).user@ != (
        #[trigger] sessions[j]).user@
}

/// Whether the session at `slot` is that of `user`.
spec fn is_slot_of(sessions: Seq<Session>, user: Seq<char>, slot: int) -> bool {
    0 <= slot < sessions.len() && sessions[slot].user@ == user
}

/// The map from each user of `sessions` to that user's history.
spec fn histories(sessions: Seq<Session>) -> Map<Seq<char>, Seq<Turn>> {
    Map::new(
        |user: Seq<char>| exists|slot: int| is_slot_of(sessions, user, slot),
        |user: Seq<char>| turns(sessions[choose|slot: int| is_slot_of(sessions, user, slot)].history@),
    )
}

/// The session at `slot` is what the map holds for its user.
proof fn lemma_histories_at(sessions: Seq<Session>, slot: int)
    requires
        distinct_users(sessions),
        0 <= slot < sessions.len(),
    ensures
        histories(sessions).contains_key(sessions[slot].user@),
        histories(sessions)[sessions[slot].user@] == turns(sessions[slot].history@),
{
    let user = sessions[slot].user@;
    assert(is_slot_of(sessions, user, slot));
    let chosen = choose|s: int| is_slot_of(sessions, user, s);
    assert(chosen == slot) by {
        if chosen < slot {
            assert(sessions[chosen].user@ != sessions[slot].user@);
        } else if slot < chosen {
            assert(sessions[slot].user@ != sessions[chosen].user@);
        }
    }
}

/// Replacing one session's history replaces that user's entry of the map.
proof fn lemma_histories_update(before: Seq<Session>, after: Seq<Session>, slot: int)
    requires
        distinct_users(before),
        0 <= slot < before.len(),
        after.len() == before.len(),
        forall|i: int| 0 <= i < before.len() ==> (#[trigger] after[i]).user@ == before[i].user@,
        forall|i: int|
            0 <= i < before.len() && i != slot ==> (#[trigger] after[i]).history@
                == before[i].history@,
    ensures
        distinct_users(after),
        histories(after) == histories(before).insert(
            before[slot].user@,
            turns(after[slot].history@),
        ),
{
    assert(distinct_users(after)) by {
        assert forall|i: int, j: int| 0 <= i < j < after.len() implies (#[trigger] after[i]).user@
            != (#[trigger] after[j]).user@ by {
            assert(before[i].user@ != before[j].user@);
        }
    }
    let expected = histories(before).insert(before[slot].user@, turns(after[slot].history@));
    assert forall|user: Seq<char>| histories(after).contains_key(user) implies #[trigger] expected.contains_key(user)
        && expected[user] == histories(after)[user] by {
        let s = choose|s: int| is_slot_of(after, user, s);
        assert(is_slot_of(before, user, s));
        lemma_histories_at(after, s);
        lemma_histories_at(before, s);
    }
    assert forall|user: Seq<char>| expected.contains_key(user) implies #[trigger] histories(after).contains_key(user) by {
        if user == before[slot].user@ {
            assert(is_slot_of(after, user, slot));
        } else {
            let s = choose|s: int| is_slot_of(before, user, s);
            assert(is_slot_of(after, user, s));
        }
    }
    assert(histories(after) =~= expected);
}

/// A session for a user who had none adds that user's entry to the map.
proof fn lemma_histories_push(before: Seq<Session>, session: Session)
    requires
        distinct_users(before),
        !histories(before).contains_key(session.user@),
    ensures
        distinct_users(before.push(session)),
        histories(before.push(session)) == histories(before).insert(
            session.user@,
            turns(session.history@),
        ),
{
    let after = before.push(session);
    assert(distinct_users(after)) by {
        assert forall|i: int, j: int| 0 <= i < j < after.len() implies (#[trigger] after[i]).user@
            != (#[trigger] after[j]).user@ by {
            if j < before.len() {
                assert(before[i].user@ != before[j].user@);
            } else {
                assert(is_slot_of(before, before[i].user@, i));
            }
        }
    }
    let expected = histories(before).insert(session.user@, turns(session.history@));
    assert forall|user: Seq<char>| histories(after).contains_key(user) implies #[trigger] expected.contains_key(user)
        && expected[user] == histories(after)[user] by {
        let s = choose|s: int| is_slot_of(after, user, s);
        lemma_histories_at(after, s);
        if s < before.len() {
            assert(is_slot_of(before, user, s));
            lemma_histories_at(before, s);
        }
    }
    assert forall|user: Seq<char>| expected.contains_key(user) implies #[trigger] histories(after).contains_key(user) by {
        if user == session.user@ {
            assert(is_slot_of(after, user, before.len() as int));
        } else {
            let s = choose|s: int| is_slot_of(before, user, s);
            assert(is_slot_of(after, user, s));
        }
    }
    assert(histories(after) =~= expected);
}

/// The conversation histories of all users, by user identifier. A user's
/// entry is made on the first message and stays for good; its turns stand in
/// the order in which they were appended, oldest first.
pub struct SessionStore {
    sessions: Vec<Session>,
}

impl View for SessionStore {
    type V = Map<Seq<char>, Seq<Turn>>;

    closed spec fn view(&self) -> Map<Seq<char>, Seq<Turn>> {
        histories(self.sessions@)
    }
}

impl SessionStore {
    #[verifier::type_invariant]
    spec fn well_formed(self) -> bool {
        distinct_users(self.sessions@)
    }

    /// A store without users.
    pub fn new() -> (store: Self)
        ensures
            store@ == Map::<Seq<char>, Seq<Turn>>::empty(),
    {
        let store = SessionStore { sessions: Vec::new() };
        assert(store@ =~= Map::<Seq<char>, Seq<Turn>>::empty());
        store
    }

    /// Takes the sessions out and leaves none behind.
    fn take(&mut self) -> (sessions: Vec<Session>)
        ensures
            sessions == old(self).sessions,
            final(self).sessions@ == Seq::<Session>::empty(),
    {
        let mut sessions: Vec<Session> = Vec::new();
        core::mem::swap(&mut self.sessions, &mut sessions);
        sessions
    }

    /// Where the session of `user` stands.
    fn slot(&self, user: &str) -> (found: Option<usize>)
        ensures
            match found {
                Some(slot) => is_slot_of(self.sessions@, user@, slot as int),
                None => !self@.contains_key(user@),
            },
    {
        let key = user.to_owned();
        let mut at: usize = 0;
        while at < self.sessions.len()
            invariant
                at <= self.sessions.len(),
                key@ == user@,
                forall|i: int| 0 <= i < at ==> !is_slot_of(self.sessions@, user@, i),
            decreases self.sessions.len() - at,
        {
            if self.sessions[at].user == key {
                return Some(at);
            }
            at += 1;
        }
        None
    }

    /// Whether `user` has an entry.
    pub fn contains(&self, user: &str) -> (held: bool)
        ensures
            held == self@.contains_key(user@),
    {
        proof {
            use_type_invariant(self);
        }
        match self.slot(user) {
            Some(slot) => {
                proof {
                    lemma_histories_at(self.sessions@, slot as int);
                }
                true
            },
            None => false,
        }
    }

    /// The history of `user`, where the user has an entry.
    pub fn get(&self, user: &str) -> (history: Option<&Vec<ConversationTurn>>)
        ensures
            match history {
                Some(found) => self@.contains_key(user@) && turns(found@) == self@[user@],
                None => !self@.contains_key(user@),
            },
    {
        proof {
            use_type_invariant(self);
        }
        match self.slot(user) {
            Some(slot) => {
                proof {
                    lemma_histories_at(self.sessions@, slot as int);
                }
                Some(&self.sessions[slot].history)
            },
            None => None,
        }
    }

    /// A copy of the `keep` most recent turns of `user`, oldest first. The
    /// store stays as it is.
    pub fn snapshot(&self, user: &str, keep: usize) -> (tail: Vec<ConversationTurn>)
        ensures
            turns(tail@) == recent(history_of(self@, user@), keep as nat),
    {
        match self.get(user) {
            Some(history) => recent_turns(history, keep),
            None => {
                let tail: Vec<ConversationTurn> = Vec::new();
                assert(turns(tail@) =~= recent(Seq::<Turn>::empty(), keep as nat));
                tail
            },
        }
    }

    /// Makes an empty entry for `user` unless the user has one.
    pub fn ensure(&mut self, user: &str)
        ensures
            final(self)@ == ensured(old(self)@, user@),
    {
        proof {
            use_type_invariant(&*self);
        }
        if self.slot(user).is_none() {
            let session = Session { user: user.to_owned(), history: Vec::new() };
            proof {
                lemma_histories_push(self.sessions@, session);
                assert(turns(session.history@) =~= Seq::<Turn>::empty());
            }
            let mut sessions = self.take();
            sessions.push(session);
            self.sessions = sessions;
        }
    }

    /// Appends `exchange` to the history of `user`, whose entry is made if
    /// there is none.
    pub fn append(&mut self, user: &str, exchange: Vec<ConversationTurn>)
        ensures
            final(self)@ == appended(old(self)@, user@, turns(exchange@)),
    {
        proof {
            use_type_invariant(&*self);
        }
        let mut exchange = exchange;
        let ghost added = exchange@;
        match self.slot(user) {
            Some(slot) => {
                let mut sessions = self.take();
                let ghost before = sessions@;
                sessions[slot].history.append(&mut exchange);
                proof {
                    lemma_histories_at(before, slot as int);
                    lemma_histories_update(before, sessions@, slot as int);
                    assert(turns(sessions@[slot as int].history@) =~= turns(
                        before[slot as int].history@,
                    ) + turns(added));
                }
                self.sessions = sessions;
            },
            None => {
                let session = Session { user: user.to_owned(), history: exchange };
                proof {
                    lemma_histories_push(self.sessions@, session);
                    assert(turns(session.history@) =~= Seq::<Turn>::empty() + turns(added));
                }
                let mut sessions = self.take();
                sessions.push(session);
                self.sessions = sessions;
            },
        }
    }

    /// Cuts the history of `user` down to its `keep` most recent turns,
    /// which stay in their order. A user without an entry gets none.
    pub fn truncate(&mut self, user: &str, keep: usize)
        ensures
            final(self)@ == truncated(old(self)@, user@, keep as nat),
    {
        proof {
            use_type_invariant(&*self);
        }
        match self.slot(user) {
            Some(slot) => {
                let mut sessions = self.take();
                let ghost before = sessions@;
                let held = sessions[slot].history.len();
                if held > keep {
                    let tail = sessions[slot].history.split_off(held - keep);
                    sessions[slot].history = tail;
                }
                proof {
                    lemma_histories_at(before, slot as int);
                    lemma_histories_update(before, sessions@, slot as int);
                    assert(turns(sessions@[slot as int].history@) =~= recent(
                        turns(before[slot as int].history@),
                        keep as nat,
                    ));
                }
                self.sessions = sessions;
            },
            None => {},
        }
    }

    /// Empties the history of `user`. The entry itself stays; a user without
    /// an entry gets none.
    pub fn clear(&mut self, user: &str)
        ensures
            final(self)@ == cleared(old(self)@, user@),
    {
        proof {
            use_type_invariant(&*self);
        }
        match self.slot(user) {
            Some(slot) => {
                let mut sessions = self.take();
                let ghost before = sessions@;
                sessions[slot].history.clear();
                proof {
                    lemma_histories_update(before, sessions@, slot as int);
                    assert(turns(sessions@[slot as int].history@) =~= Seq::<Turn>::empty());
                }
                self.sessions = sessions;
            },
            None => {},
        }
    }
}

} // verus!
