//! The authentication backend: the sole judge of whether a credential pair is
//! valid and whether an id denotes a real user.

use vstd::prelude::*;
use vstd::utf8::encode_utf8;

use crate::password::{hash_password, password_check, verify_password};
use crate::users::{lemma_with_user_wf, Model, StoreModel, UserEntry, UserStore};

verus! {

/// A failure that is not a soft "no such user" or "wrong password".
#[derive(Debug, Clone, Copy, PartialEq, Eq, Structural)]
pub enum Error {
    /// A stored digest cannot be parsed: the stored data is corrupt.
    MalformedDigest,
    /// The hasher could not produce a digest.
    HashError,
    /// The credential store failed.
    StoreError,
}

/// A verified or session-bound principal.
#[derive(Debug, Clone)]
pub struct User {
    pub id: i64,
    pub username: String,
}

/// The mathematical value of a `User`.
pub struct Identity {
    pub id: int,
    pub username: Seq<char>,
}

impl View for User {
    type V = Identity;

    open spec fn view(&self) -> Identity {
        Identity { id: self.id as int, username: self.username@ }
    }
}

impl PartialEq for User {
    fn eq(&self, other: &User) -> (r: bool) {
        self.id == other.id && self.username == other.username
    }
}

impl vstd::std_specs::cmp::PartialEqSpecImpl for User {
    open spec fn obeys_eq_spec() -> bool {
        true
    }

    open spec fn eq_spec(&self, other: &User) -> bool {
        self.id == other.id && self.username@ == other.username@
    }
}

/// A username and a plaintext password, as submitted at login. It has no
/// `Debug`, so that the password cannot end up in a log.
#[derive(Clone)]
pub struct Credentials {
    pub username: String,
    pub password: String,
}

/// The identity that a stored record denotes.
pub open spec fn identity_of(e: UserEntry) -> Identity {
    Identity { id: e.id, username: e.username }
}

/// The login result for `record` once its digest was checked with outcome `check`.
pub open spec fn login_result(record: UserEntry, check: Result<bool, Error>) -> Result<Option<Identity>, Error> {
    match check {
        Err(e) => Err(e),
        Ok(true) => Ok(Some(identity_of(record))),
        Ok(false) => Ok(None),
    }
}

/// The login result for `name` and `password` against the store `s`: an
/// unknown name and a wrong password both give `Ok(None)`.
pub open spec fn login_outcome(s: StoreModel, name: Seq<char>, password: Seq<u8>) -> Result<Option<Identity>, Error> {
    match s.named(name) {
        None => Ok(None),
        Some(e) => login_result(e, password_check(password, e.password_hash)),
    }
}

/// The identity that `id` denotes in the store `s`, if any.
pub open spec fn load_outcome(s: StoreModel, id: int) -> Option<Identity> {
    match s.with_id(id) {
        Some(e) => Some(identity_of(e)),
        None => None,
    }
}

/// The mathematical value of a login result.
pub open spec fn result_view(r: Result<Option<User>, Error>) -> Result<Option<Identity>, Error> {
    match r {
        Ok(Some(u)) => Ok(Some(u@)),
        Ok(None) => Ok(None),
        Err(e) => Err(e),
    }
}

/// The identity of a stored record.
pub fn user_from_record(record: &Model) -> (u: User)
    ensures
        u@ == identity_of(record@),
{
    User { id: record.id, username: record.username.clone() }
}

/// Decides a login once the record's digest was checked: a match gives the
/// record's identity, a mismatch gives `None`, an error is passed on.
pub fn identity_after_check(record: &Model, check: Result<bool, Error>) -> (r: Result<Option<User>, Error>)
    ensures
        result_view(r) == login_result(record@, check),
{
    match check {
        Err(e) => Err(e),
        Ok(true) => Ok(Some(user_from_record(record))),
        Ok(false) => Ok(None),
    }
}

/// Checks `password` against the record found for a username, if one was:
/// no record and a wrong password both give `Ok(None)`; a malformed stored
/// digest is an error.
pub fn check_credentials(record: Option<&Model>, password: &str) -> (r: Result<Option<User>, Error>)
    ensures
        result_view(r) == match record {
            None => Ok(None),
            Some(m) => login_result(m@, password_check(encode_utf8(password@), m.password_hash@)),
        },
{
    match record {
        None => Ok(None),
        Some(m) => {
            let check = verify_password(password, m.password_hash.as_str());
            identity_after_check(m, check)
        },
    }
}

/// The authentication backend over a credential store.
pub struct Backend {
    store: UserStore,
}

impl View for Backend {
    type V = StoreModel;

    closed spec fn view(&self) -> StoreModel {
        self.store@
    }
}

impl Backend {
    /// A backend over `store`.
    pub fn new(store: UserStore) -> (b: Backend)
        ensures
            b@ == store@,
    {
        Backend { store }
    }

    /// The store behind this backend.
    pub fn store(&self) -> (s: &UserStore)
        ensures
            s@ == self@,
    {
        &self.store
    }

    /// Creates `username` with a fresh hash of `password` unless the name is
    /// taken, in which case the store is left as it was and the call still
    /// succeeds. Fails with `HashError` when the password is too long to hash
    /// and with `StoreError` when the store has no id left; either way
    /// nothing changes.
    pub fn create_user(&mut self, username: String, password: &str) -> (r: Result<(), Error>)
        ensures
            old(self)@.wf(),
            final(self)@.wf(),
            r == Ok::<(), Error>(()) || r == Err::<(), Error>(Error::HashError) || r == Err::<(), Error>(Error::StoreError),
            r is Err ==> final(self)@ == old(self)@,
            r == Err::<(), Error>(Error::StoreError) ==> !old(self)@.has_username(username@) && !old(self)@.can_insert(),
            !old(self)@.has_username(username@) && !old(self)@.can_insert() ==> r is Err,
            (old(self)@.has_username(username@) || old(self)@.can_insert()) && encode_utf8(password@).len()
                <= 0xFFFF_FFFF ==> r is Ok,
            r is Ok && old(self)@.has_username(username@) ==> final(self)@ == old(self)@,
            r is Ok && !old(self)@.has_username(username@) ==> {
                let h = final(self)@.entries.last().password_hash;
                &&& final(self)@ == old(self)@.with_user(username@, h)
                &&& password_check(encode_utf8(password@), h) == Ok::<bool, Error>(true)
            },
    {
        proof {
            use_type_invariant(&self.store);
        }
        let password_hash = match hash_password(password) {
            Ok(d) => d,
            Err(e) => return Err(e),
        };
        match self.store.insert_if_absent(username, password_hash) {
            Ok(_) => Ok(()),
            Err(e) => Err(e),
        }
    }

    /// The identity for `credentials`, if its username is stored and its
    /// password matches the stored digest. An unknown username and a wrong
    /// password give the same `Ok(None)`; a malformed stored digest gives
    /// `Err(MalformedDigest)`.
    pub fn authenticate(&self, credentials: Credentials) -> (r: Result<Option<User>, Error>)
        ensures
            self@.wf(),
            result_view(r) == login_outcome(self@, credentials.username@, encode_utf8(credentials.password@)),
    {
        let found = self.store.find_by_username(&credentials.username);
        check_credentials(found, credentials.password.as_str())
    }

    /// The identity with id `user_id`, if a record carries it.
    pub fn get_user(&self, user_id: i64) -> (r: Option<User>)
        ensures
            self@.wf(),
            match r {
                Some(u) => load_outcome(self@, user_id as int) == Some(u@),
                None => load_outcome(self@, user_id as int) is None,
            },
    {
        match self.store.find_by_id(user_id) {
            Some(m) => Some(user_from_record(m)),
            None => None,
        }
    }
}

/// An unknown username and a wrong password for a known one give the same
/// login result, `Ok(None)`: a caller cannot tell them apart.
pub proof fn lemma_unknown_and_wrong_password_agree(s: StoreModel, name: Seq<char>, password: Seq<u8>)
    requires
        s.wf(),
    ensures
        !s.has_username(name) ==> login_outcome(s, name, password) == Ok::<Option<Identity>, Error>(None),
        (s.named(name) matches Some(e) && password_check(password, e.password_hash) == Ok::<bool, Error>(false))
            ==> login_outcome(s, name, password) == Ok::<Option<Identity>, Error>(None),
{
}

/// Creating a username twice, with any two digests, leaves exactly one
/// record with that username.
pub proof fn lemma_one_record_per_username(s: StoreModel, name: Seq<char>, h1: Seq<char>, h2: Seq<char>)
    requires
        s.wf(),
        s.has_username(name) || s.can_insert(),
    ensures
        ({
            let t = s.with_user(name, h1).with_user(name, h2);
            &&& t.wf()
            &&& t.has_username(name)
            &&& forall|i: int, j: int|
                0 <= i < t.entries.len() && 0 <= j < t.entries.len() && #[trigger] t.entries[i].username == name
                    && #[trigger] t.entries[j].username == name ==> i == j
        }),
{
    lemma_with_user_wf(s, name, h1);
    let s1 = s.with_user(name, h1);
    lemma_with_user_wf(s1, name, h2);
    let t = s1.with_user(name, h2);
    assert forall|i: int, j: int|
        0 <= i < t.entries.len() && 0 <= j < t.entries.len() && #[trigger] t.entries[i].username == name
            && #[trigger] t.entries[j].username == name implies i == j by {
        if i < j {
            assert(t.entries[i].username != t.entries[j].username);
        } else if j < i {
            assert(t.entries[j].username != t.entries[i].username);
        }
    }
}

/// After a new username is created with a digest of `password`, creating it
/// again with any other digest changes nothing, and `password` still logs in
/// as the identity that the first creation assigned.
pub proof fn lemma_create_again_keeps_first(
    s: StoreModel,
    name: Seq<char>,
    h1: Seq<char>,
    h2: Seq<char>,
    password: Seq<u8>,
)
    requires
        s.wf(),
        !s.has_username(name),
        s.can_insert(),
        password_check(password, h1) == Ok::<bool, Error>(true),
    ensures
        s.with_user(name, h1).with_user(name, h2) == s.with_user(name, h1),
        s.with_user(name, h1).named(name) == Some(UserEntry { id: s.next_id, username: name, password_hash: h1 }),
        login_outcome(s.with_user(name, h1).with_user(name, h2), name, password)
            == Ok::<Option<Identity>, Error>(Some(Identity { id: s.next_id, username: name })),
{
    lemma_with_user_wf(s, name, h1);
    let s1 = s.with_user(name, h1);
    s1.lemma_named_at(s.entries.len() as int);
}

/// An identity that login returns is found again by its id.
pub proof fn lemma_login_then_load(s: StoreModel, name: Seq<char>, password: Seq<u8>)
    requires
        s.wf(),
        login_outcome(s, name, password) matches Ok(Some(_)),
    ensures
        login_outcome(s, name, password) matches Ok(Some(u)) && load_outcome(s, u.id) == Some(u),
{
    let j = choose|j: int| 0 <= j < s.entries.len() && #[trigger] s.entries[j].username == name;
    s.lemma_with_id_at(j);
}

} // verus!
