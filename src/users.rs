//! The users table: one record per registered user, and an in-memory store
//! of such records that keeps usernames unique and never reuses an id.

use vstd::prelude::*;

use crate::auth::Error;

verus! {

/// One stored user: its id, its username and the Argon2 digest of its password.
#[derive(Debug, Clone)]
pub struct Model {
    pub id: i64,
    pub username: String,
    pub password_hash: String,
}

/// The mathematical value of a stored user.
pub struct UserEntry {
    pub id: int,
    pub username: Seq<char>,
    pub password_hash: Seq<char>,
}

impl View for Model {
    type V = UserEntry;

    open spec fn view(&self) -> UserEntry {
        UserEntry { id: self.id as int, username: self.username@, password_hash: self.password_hash@ }
    }
}

/// The contents of a store: its records in order of insertion, and the id
/// that the next inserted record receives.
pub struct StoreModel {
    pub entries: Seq<UserEntry>,
    pub next_id: int,
}

impl StoreModel {
    /// Some record carries the username `name`, compared exactly.
    pub open spec fn has_username(self, name: Seq<char>) -> bool {
        exists|i: int| 0 <= i < self.entries.len() && #[trigger] self.entries[i].username == name
    }

    /// The record with username `name`, if any.
    pub open spec fn named(self, name: Seq<char>) -> Option<UserEntry> {
        if self.has_username(name) {
            Some(
                self.entries[choose|i: int|
                    0 <= i < self.entries.len() && #[trigger] self.entries[i].username == name],
            )
        } else {
            None
        }
    }

    /// Some record carries the id `id`.
    pub open spec fn has_id(self, id: int) -> bool {
        exists|i: int| 0 <= i < self.entries.len() && #[trigger] self.entries[i].id == id
    }

    /// The record with id `id`, if any.
    pub open spec fn with_id(self, id: int) -> Option<UserEntry> {
        if self.has_id(id) {
            Some(
                self.entries[choose|i: int|
                    0 <= i < self.entries.len() && #[trigger] self.entries[i].id == id],
            )
        } else {
            None
        }
    }

    /// Usernames are unique; ids are positive, strictly increasing in order
    /// of insertion and below the next id, which fits an `i64`.
    pub open spec fn wf(self) -> bool {
        &&& 1 <= self.next_id <= i64::MAX
        &&& forall|i: int| 0 <= i < self.entries.len() ==> 1 <= #[trigger] self.entries[i].id < self.next_id
        &&& forall|i: int, j: int|
            0 <= i < j < self.entries.len() ==> #[trigger] self.entries[i].id < #[trigger] self.entries[j].id
        &&& forall|i: int, j: int|
            0 <= i < j < self.entries.len() ==> #[trigger] self.entries[i].username != #[trigger] self.entries[j].username
    }

    /// An id is left for one more record.
    pub open spec fn can_insert(self) -> bool {
        self.next_id < i64::MAX
    }

    /// The store after inserting `name` with digest `hash` unless the name
    /// is already taken, in which case nothing changes.
    pub open spec fn with_user(self, name: Seq<char>, hash: Seq<char>) -> StoreModel {
        if self.has_username(name) {
            self
        } else {
            StoreModel {
                entries: self.entries.push(UserEntry { id: self.next_id, username: name, password_hash: hash }),
                next_id: self.next_id + 1,
            }
        }
    }

    /// In a well-formed store the record found by name is the one at its index.
    pub proof fn lemma_named_at(self, i: int)
        requires
            self.wf(),
            0 <= i < self.entries.len(),
        ensures
            self.named(self.entries[i].username) == Some(self.entries[i]),
    {
        let name = self.entries[i].username;
        assert(self.has_username(name));
        let j = choose|j: int| 0 <= j < self.entries.len() && #[trigger] self.entries[j].username == name;
        if j < i {
            assert(self.entries[j].username != self.entries[i].username);
        } else if i < j {
            assert(self.entries[i].username != self.entries[j].username);
        }
    }

    /// In a well-formed store the record found by id is the one at its index.
    pub proof fn lemma_with_id_at(self, i: int)
        requires
            self.wf(),
            0 <= i < self.entries.len(),
        ensures
            self.with_id(self.entries[i].id) == Some(self.entries[i]),
    {
        let id = self.entries[i].id;
        assert(self.has_id(id));
        let j = choose|j: int| 0 <= j < self.entries.len() && #[trigger] self.entries[j].id == id;
        if j < i {
            assert(self.entries[j].id < self.entries[i].id);
        } else if i < j {
            assert(self.entries[i].id < self.entries[j].id);
        }
    }
}

/// Adding a user to a well-formed store that has the name or an id left
/// gives a well-formed store that has the name.
pub proof fn lemma_with_user_wf(s: StoreModel, name: Seq<char>, hash: Seq<char>)
    requires
        s.wf(),
        s.has_username(name) || s.can_insert(),
    ensures
        s.with_user(name, hash).wf(),
        s.with_user(name, hash).has_username(name),
{
    if !s.has_username(name) {
        let t = s.with_user(name, hash);
        let n = s.entries.len() as int;
        assert(t.entries[n].username == name);
        assert forall|i: int, j: int| 0 <= i < j < t.entries.len() implies #[trigger] t.entries[i].username
            != #[trigger] t.entries[j].username by {
            if j == n {
                assert(s.entries[i].username != name);
            } else {
                assert(s.entries[i] == t.entries[i] && s.entries[j] == t.entries[j]);
            }
        }
        assert forall|i: int, j: int| 0 <= i < j < t.entries.len() implies #[trigger] t.entries[i].id
            < #[trigger] t.entries[j].id by {
            if j == n {
                assert(s.entries[i].id < s.next_id);
            } else {
                assert(s.entries[i] == t.entries[i] && s.entries[j] == t.entries[j]);
            }
        }
    }
}

/// What `insert_if_absent` did.
#[derive(Debug, Clone, Copy, PartialEq, Eq, Structural)]
pub enum InsertOutcome {
    Inserted,
    AlreadyExists,
}

/// What inserting a username does, given the record already stored under
/// it: a taken name is left alone, a free one is inserted.
pub fn insert_outcome_for(existing: Option<&Model>) -> (r: InsertOutcome)
    ensures
        r == match existing {
            Some(_) => InsertOutcome::AlreadyExists,
            None => InsertOutcome::Inserted,
        },
{
    match existing {
        Some(_) => InsertOutcome::AlreadyExists,
        None => InsertOutcome::Inserted,
    }
}

/// An in-memory credential store.
pub struct UserStore {
    records: Vec<Model>,
    next_id: i64,
}

impl View for UserStore {
    type V = StoreModel;

    closed spec fn view(&self) -> StoreModel {
        StoreModel { entries: self.records@.map_values(|m: Model| m@), next_id: self.next_id as int }
    }
}

impl UserStore {
    #[verifier::type_invariant]
    pub open spec fn inv(&self) -> bool {
        self@.wf()
    }

    /// An empty store whose first record will get id 1.
    pub fn new() -> (s: UserStore)
        ensures
            s@.wf(),
            s@.entries.len() == 0,
            s@.next_id == 1,
    {
        UserStore { records: Vec::new(), next_id: 1 }
    }

    /// The number of stored records.
    pub fn len(&self) -> (r: usize)
        ensures
            self@.wf(),
            r == self@.entries.len(),
    {
        proof {
            use_type_invariant(self);
        }
        self.records.len()
    }

    /// The record whose username equals `name` exactly.
    pub fn find_by_username(&self, name: &String) -> (r: Option<&Model>)
        ensures
            self@.wf(),
            match r {
                Some(m) => self@.named(name@) == Some(m@),
                None => !self@.has_username(name@),
            },
    {
        proof {
            use_type_invariant(self);
        }
        let mut i: usize = 0;
        while i < self.records.len()
            invariant
                0 <= i <= self.records@.len(),
                self@.wf(),
                self@.entries.len() == self.records@.len(),
                forall|k: int| 0 <= k < i ==> (#[trigger] self@.entries[k]).username != name@,
            decreases self.records@.len() - i,
        {
            if self.records[i].username == *name {
                proof {
                    self@.lemma_named_at(i as int);
                }
                return Some(&self.records[i]);
            }
            i += 1;
        }
        None
    }

    /// The record whose id is `id`.
    pub fn find_by_id(&self, id: i64) -> (r: Option<&Model>)
        ensures
            self@.wf(),
            match r {
                Some(m) => self@.with_id(id as int) == Some(m@),
                None => !self@.has_id(id as int),
            },
    {
        proof {
            use_type_invariant(self);
        }
        let mut i: usize = 0;
        while i < self.records.len()
            invariant
                0 <= i <= self.records@.len(),
                self@.wf(),
                self@.entries.len() == self.records@.len(),
                forall|k: int| 0 <= k < i ==> (#[trigger] self@.entries[k]).id != id,
            decreases self.records@.len() - i,
        {
            if self.records[i].id == id {
                proof {
                    self@.lemma_with_id_at(i as int);
                }
                return Some(&self.records[i]);
            }
            i += 1;
        }
        None
    }

    /// Inserts a record for `username` unless one exists. A taken username
    /// leaves the store untouched; so does a store with no id left, which is
    /// a store failure.
    pub fn insert_if_absent(&mut self, username: String, password_hash: String) -> (r: Result<InsertOutcome, Error>)
        ensures
            old(self)@.wf(),
            final(self)@.wf(),
            old(self)@.has_username(username@) ==> r == Ok::<InsertOutcome, Error>(InsertOutcome::AlreadyExists),
            !old(self)@.has_username(username@) && !old(self)@.can_insert() ==> r == Err::<InsertOutcome, Error>(Error::StoreError),
            !old(self)@.has_username(username@) && old(self)@.can_insert() ==> r == Ok::<InsertOutcome, Error>(InsertOutcome::Inserted),
            r == Ok::<InsertOutcome, Error>(InsertOutcome::Inserted) ==> final(self)@ == old(self)@.with_user(username@, password_hash@),
            r != Ok::<InsertOutcome, Error>(InsertOutcome::Inserted) ==> final(self)@ == old(self)@,
    {
        proof {
            use_type_invariant(&*self);
        }
        if insert_outcome_for(self.find_by_username(&username)) == InsertOutcome::AlreadyExists {
            return Ok(InsertOutcome::AlreadyExists);
        }
        if self.next_id == i64::MAX {
            return Err(Error::StoreError);
        }
        let id = self.next_id;
        let ghost before = self@;
        let mut records = Vec::new();
        std::mem::swap(&mut records, &mut self.records);
        let record = Model { id, username, password_hash };
        let ghost added = record@;
        records.push(record);
        proof {
            assert(records@.map_values(|m: Model| m@) =~= before.entries.push(added));
        }
        *self = UserStore { records, next_id: id + 1 };
        Ok(InsertOutcome::Inserted)
    }
}

} // verus!
