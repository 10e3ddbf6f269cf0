//! The core's collaborators held in memory: a user table with one row per
//! identity, an append-only message ledger, and a sink that keeps the
//! diagnostics it is given.

use vstd::prelude::*;
use crate::diagnostic::{Diagnostic, DiagnosticView};
use crate::model::{Identity, Message, MessageView, User, UserView};
use crate::state::State;

verus! {

/// The refusal of an insert whose key is already taken.
#[derive(Clone, Copy, Debug, PartialEq, Eq)]
pub struct AlreadyExists;

/// Whether some row of `rows` belongs to `id`.
spec fn holds(rows: Seq<User>, id: Identity) -> bool {
    exists|i: int| 0 <= i < rows.len() && (#[trigger] rows[i]).identity == id
}

/// Where the row of `id` stands in `rows`, if `rows` holds one.
spec fn position(rows: Seq<User>, id: Identity) -> int {
    choose|i: int| 0 <= i < rows.len() && (#[trigger] rows[i]).identity == id
}

/// No two rows of `rows` belong to the same identity.
spec fn distinct(rows: Seq<User>) -> bool {
    forall|i: int, j: int|
        0 <= i < j < rows.len() ==> (#[trigger] rows[i]).identity != (#[trigger] rows[j]).identity
}

/// The rows as a table keyed by identity.
spec fn table(rows: Seq<User>) -> Map<Identity, UserView> {
    Map::new(|id: Identity| holds(rows, id), |id: Identity| rows[position(rows, id)]@)
}

/// The ledger rows as mathematical values, in the same order.
spec fn ledger(rows: Seq<Message>) -> Seq<MessageView> {
    Seq::new(rows.len(), |i: int| rows[i]@)
}

/// The diagnostics as mathematical values, in the same order.
spec fn records(rows: Seq<Diagnostic>) -> Seq<DiagnosticView> {
    Seq::new(rows.len(), |i: int| rows[i]@)
}

/// In a table without duplicates, the row at index `i` is the row of its
/// identity.
proof fn lemma_table_at(rows: Seq<User>, i: int)
    requires
        distinct(rows),
        0 <= i < rows.len(),
    ensures
        table(rows).contains_key(rows[i].identity),
        table(rows)[rows[i].identity] == rows[i]@,
        position(rows, rows[i].identity) == i,
{
    let id = rows[i].identity;
    assert(holds(rows, id));
    let p = position(rows, id);
    assert(0 <= p < rows.len() && rows[p].identity == id);
    if p < i {
        assert(rows[p].identity != rows[i].identity);
    } else if i < p {
        assert(rows[i].identity != rows[p].identity);
    }
}

/// Every row of a table sits under its own identity.
proof fn lemma_table_keyed(rows: Seq<User>)
    ensures
        forall|id: Identity| #[trigger]
            table(rows).contains_key(id) ==> table(rows)[id].identity == id,
{
    assert forall|id: Identity| #[trigger] table(rows).contains_key(id) implies table(rows)[id].identity
        == id by {
        assert(holds(rows, id));
        let p = position(rows, id);
        assert(rows[p].identity == id);
    }
}

/// Appending the row of an identity that the table does not hold adds that
/// row to the table and changes nothing else.
proof fn lemma_table_push(rows: Seq<User>, row: User)
    requires
        distinct(rows),
        !holds(rows, row.identity),
    ensures
        distinct(rows.push(row)),
        table(rows.push(row)) == table(rows).insert(row.identity, row@),
{
    let after = rows.push(row);
    assert forall|i: int, j: int| 0 <= i < j < after.len() implies (#[trigger] after[i]).identity != (
    #[trigger] after[j]).identity by {
        if j < rows.len() {
            assert(rows[i].identity != rows[j].identity);
        } else {
            assert(after[i] == rows[i]);
            assert(rows[i].identity != row.identity);
        }
    }
    let expected = table(rows).insert(row.identity, row@);
    assert forall|id: Identity| table(after).contains_key(id) == expected.contains_key(id) by {
        if holds(after, id) {
            let p = position(after, id);
            if p < rows.len() {
                assert(rows[p].identity == id);
            }
        }
        if holds(rows, id) {
            let p = position(rows, id);
            assert(after[p].identity == id);
        }
        if id == row.identity {
            assert(after[rows.len() as int].identity == id);
        }
    }
    assert forall|id: Identity| table(after).contains_key(id) implies table(after)[id]
        == expected[id] by {
        let p = position(after, id);
        assert(0 <= p < after.len() && after[p].identity == id);
        lemma_table_at(after, p);
        if p < rows.len() {
            assert(after[p] == rows[p]);
            lemma_table_at(rows, p);
        }
    }
    assert(table(after) =~= expected);
}

/// Replacing the row at index `i` by a row of the same identity replaces that
/// identity's row in the table and changes nothing else.
proof fn lemma_table_update(rows: Seq<User>, i: int, row: User)
    requires
        distinct(rows),
        0 <= i < rows.len(),
        row.identity == rows[i].identity,
    ensures
        distinct(rows.update(i, row)),
        table(rows.update(i, row)) == table(rows).insert(row.identity, row@),
{
    let after = rows.update(i, row);
    assert forall|a: int, b: int| 0 <= a < b < after.len() implies (#[trigger] after[a]).identity != (
    #[trigger] after[b]).identity by {
        assert(rows[a].identity != rows[b].identity);
    }
    let expected = table(rows).insert(row.identity, row@);
    assert forall|id: Identity| table(after).contains_key(id) == expected.contains_key(id) by {
        if holds(after, id) {
            let p = position(after, id);
            assert(rows[p].identity == id);
        }
        if holds(rows, id) {
            let p = position(rows, id);
            assert(after[p].identity == id);
        }
        if id == row.identity {
            assert(after[i].identity == id);
        }
    }
    assert forall|id: Identity| table(after).contains_key(id) implies table(after)[id]
        == expected[id] by {
        let p = position(after, id);
        assert(0 <= p < after.len() && after[p].identity == id);
        lemma_table_at(after, p);
        if p != i {
            assert(after[p] == rows[p]);
            lemma_table_at(rows, p);
        }
    }
    assert(table(after) =~= expected);
}

/// A table without duplicates has as many keys as rows.
proof fn lemma_table_len(rows: Seq<User>)
    requires
        distinct(rows),
    ensures
        table(rows).dom().finite(),
        table(rows).dom().len() == rows.len(),
    decreases rows.len(),
{
    if rows.len() == 0 {
        assert(table(rows).dom() =~= Set::<Identity>::empty());
    } else {
        let front = rows.drop_last();
        let last = rows.last();
        assert forall|i: int, j: int| 0 <= i < j < front.len() implies (#[trigger] front[i]).identity != (
        #[trigger] front[j]).identity by {
            assert(rows[i].identity != rows[j].identity);
        }
        if holds(front, last.identity) {
            let p = position(front, last.identity);
            assert(rows[p].identity != rows[rows.len() - 1].identity);
        }
        lemma_table_len(front);
        lemma_table_push(front, last);
        assert(front.push(last) =~= rows);
        assert(table(rows).dom() =~= table(front).dom().insert(last.identity));
    }
}

/// The user table, the message ledger and the diagnostic sink, in memory.
pub struct Backend {
    users: Vec<User>,
    messages: Vec<Message>,
    diagnostics: Vec<Diagnostic>,
}

impl View for Backend {
    type V = State;

    closed spec fn view(&self) -> State {
        State {
            users: table(self.users@),
            messages: ledger(self.messages@),
            diagnostics: records(self.diagnostics@),
        }
    }
}

impl Backend {
    /// The user table holds at most one row per identity.
    pub closed spec fn wf(&self) -> bool {
        distinct(self.users@)
    }

    /// A backend that holds nothing.
    pub fn new() -> (backend: Backend)
        ensures
            backend.wf(),
            backend@ == State::empty(),
    {
        let backend = Backend { users: Vec::new(), messages: Vec::new(), diagnostics: Vec::new() };
        assert(backend@.users =~= Map::empty());
        assert(backend@.messages =~= Seq::empty());
        assert(backend@.diagnostics =~= Seq::empty());
        backend
    }

    /// Every row of the user table sits under its own identity.
    pub proof fn lemma_keyed_by_identity(&self)
        ensures
            self@.keyed_by_identity(),
    {
        lemma_table_keyed(self.users@);
    }

    /// The index of the row of `key` in the user table.
    fn find(&self, key: &Identity) -> (found: Option<usize>)
        ensures
            match found {
                Some(i) => i < self.users@.len() && self.users@[i as int].identity == *key,
                None => !holds(self.users@, *key),
            },
    {
        let mut i: usize = 0;
        while i < self.users.len()
            invariant
                i <= self.users@.len(),
                forall|j: int| 0 <= j < i ==> (#[trigger] self.users@[j]).identity != *key,
            decreases self.users@.len() - i,
        {
            if self.users[i].identity.same(key) {
                return Some(i);
            }
            i += 1;
        }
        None
    }

    /// A snapshot of the row of `key`, if the user table holds one.
    pub fn get_user(&self, key: &Identity) -> (row: Option<User>)
        requires
            self.wf(),
        ensures
            match row {
                Some(user) => self@.users.contains_key(*key) && user@ == self@.users[*key],
                None => !self@.users.contains_key(*key),
            },
    {
        match self.find(key) {
            Some(i) => {
                proof {
                    lemma_table_at(self.users@, i as int);
                }
                Some(self.users[i].clone())
            },
            None => None,
        }
    }

    /// Adds `row` to the user table, unless its identity already has a row:
    /// then nothing changes and the insert is refused.
    pub fn insert_user(&mut self, row: User) -> (r: Result<(), AlreadyExists>)
        requires
            old(self).wf(),
        ensures
            final(self).wf(),
            r is Err <==> old(self)@.users.contains_key(row.identity),
            r is Err ==> final(self)@ == old(self)@,
            r is Ok ==> final(self)@ == (State {
                users: old(self)@.users.insert(row.identity, row@),
                ..old(self)@
            }),
    {
        match self.find(&row.identity) {
            Some(_) => Err(AlreadyExists),
            None => {
                proof {
                    lemma_table_push(self.users@, row);
                }
                self.users.push(row);
                Ok(())
            },
        }
    }

    /// Puts `row` in the place of the row of `key`. The table changes only if
    /// `key` has a row and `row` belongs to `key`: a row never moves to
    /// another identity. Says whether the table changed.
    pub fn replace_user(&mut self, key: &Identity, row: User) -> (replaced: bool)
        requires
            old(self).wf(),
        ensures
            final(self).wf(),
            replaced <==> old(self)@.users.contains_key(*key) && row.identity == *key,
            !replaced ==> final(self)@ == old(self)@,
            replaced ==> final(self)@ == (State {
                users: old(self)@.users.insert(*key, row@),
                ..old(self)@
            }),
    {
        if !row.identity.same(key) {
            return false;
        }
        match self.find(key) {
            Some(i) => {
                proof {
                    lemma_table_update(self.users@, i as int, row);
                }
                self.users.set(i, row);
                true
            },
            None => false,
        }
    }

    /// Appends `row` to the ledger: it becomes the last row, and the rows
    /// before it stay as they are.
    pub fn insert_message(&mut self, row: Message)
        ensures
            final(self).wf() == old(self).wf(),
            final(self)@ == (State { messages: old(self)@.messages.push(row@), ..old(self)@ }),
    {
        self.messages.push(row);
        assert(ledger(self.messages@) =~= ledger(old(self).messages@).push(row@));
    }

    /// Hands `diagnostic` to the sink, which keeps it after those it already
    /// has.
    pub fn emit(&mut self, diagnostic: Diagnostic)
        ensures
            final(self).wf() == old(self).wf(),
            final(self)@ == (State {
                diagnostics: old(self)@.diagnostics.push(diagnostic@),
                ..old(self)@
            }),
    {
        self.diagnostics.push(diagnostic);
        assert(records(self.diagnostics@) =~= records(old(self).diagnostics@).push(diagnostic@));
    }

    /// How many rows the user table holds.
    pub fn user_count(&self) -> (n: usize)
        requires
            self.wf(),
        ensures
            self@.users.dom().finite(),
            n == self@.users.dom().len(),
    {
        proof {
            lemma_table_len(self.users@);
        }
        self.users.len()
    }

    /// How many rows the ledger holds.
    pub fn message_count(&self) -> (n: usize)
        ensures
            n == self@.messages.len(),
    {
        self.messages.len()
    }

    /// A snapshot of the ledger row at `index`, counted from the oldest; none
    /// if the ledger is shorter.
    pub fn message_at(&self, index: usize) -> (row: Option<Message>)
        ensures
            match row {
                Some(message) => index < self@.messages.len() && message@ == self@.messages[index as int],
                None => index >= self@.messages.len(),
            },
    {
        if index < self.messages.len() {
            Some(self.messages[index].clone())
        } else {
            None
        }
    }

    /// How many diagnostics the sink holds.
    pub fn diagnostic_count(&self) -> (n: usize)
        ensures
            n == self@.diagnostics.len(),
    {
        self.diagnostics.len()
    }

    /// A copy of the diagnostic at `index`, counted from the oldest; none if
    /// the sink holds fewer.
    pub fn diagnostic_at(&self, index: usize) -> (d: Option<Diagnostic>)
        ensures
            match d {
                Some(diagnostic) => index < self@.diagnostics.len() && diagnostic@
                    == self@.diagnostics[index as int],
                None => index >= self@.diagnostics.len(),
            },
    {
        if index < self.diagnostics.len() {
            Some(self.diagnostics[index].clone())
        } else {
            None
        }
    }
}

} // verus!
