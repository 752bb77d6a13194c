//! A small user registry: users with a lifecycle status, an in-memory
//! repository keyed by user id, and simple validation helpers.
use std::collections::HashMap;
use vstd::prelude::*;

use crate::text::{chars_of, seq_contains, string_from_str, str_concat};

verus! {

broadcast use vstd::std_specs::hash::group_hash_axioms;

/// Identifier of a user.
pub type UserId = u64;

/// Lifecycle status of a user.
#[derive(Debug)]
pub enum Status {
    Active,
    Inactive,
    Pending,
    Suspended { reason: String },
}

/// What equality of two statuses means: same variant, and for a suspension
/// the same reason text.
pub open spec fn status_eq(a: Status, b: Status) -> bool {
    match (a, b) {
        (Status::Active, Status::Active) => true,
        (Status::Inactive, Status::Inactive) => true,
        (Status::Pending, Status::Pending) => true,
        (Status::Suspended { reason: r1 }, Status::Suspended { reason: r2 }) => r1@ == r2@,
        _ => false,
    }
}

impl Clone for Status {
    fn clone(&self) -> (r: Self)
        ensures
            r == *self,
    {
        match self {
            Status::Active => Status::Active,
            Status::Inactive => Status::Inactive,
            Status::Pending => Status::Pending,
            Status::Suspended { reason } => Status::Suspended { reason: reason.clone() },
        }
    }
}

impl PartialEq for Status {
    fn eq(&self, other: &Self) -> (r: bool) {
        match (self, other) {
            (Status::Active, Status::Active) => true,
            (Status::Inactive, Status::Inactive) => true,
            (Status::Pending, Status::Pending) => true,
            (Status::Suspended { reason: r1 }, Status::Suspended { reason: r2 }) => *r1 == *r2,
            _ => false,
        }
    }
}

impl vstd::std_specs::cmp::PartialEqSpecImpl for Status {
    open spec fn obeys_eq_spec() -> bool {
        true
    }

    open spec fn eq_spec(&self, other: &Self) -> bool {
        status_eq(*self, *other)
    }
}

impl Status {
    /// The text shown for a status: the variant name, and for a suspension
    /// `"Suspended: "` followed by the reason.
    pub open spec fn display_spec(self) -> Seq<char> {
        match self {
            Status::Active => "Active"@,
            Status::Inactive => "Inactive"@,
            Status::Pending => "Pending"@,
            Status::Suspended { reason } => "Suspended: "@ + reason@,
        }
    }

    /// Renders the status as text.
    pub fn to_display_string(&self) -> (r: String)
        ensures
            r@ == self.display_spec(),
    {
        match self {
            Status::Active => string_from_str("Active"),
            Status::Inactive => string_from_str("Inactive"),
            Status::Pending => string_from_str("Pending"),
            Status::Suspended { reason } => str_concat("Suspended: ", reason.as_str()),
        }
    }
}

/// Errors reported by the repository and by validation.
#[derive(Debug)]
pub enum Error {
    NotFound(String),
    InvalidInput(String),
    DatabaseError(String),
}

/// A registered user.
#[derive(Debug)]
pub struct User {
    pub id: UserId,
    pub name: String,
    pub email: String,
    pub status: Status,
    pub created_at: i64,
}

impl Clone for User {
    fn clone(&self) -> (r: Self)
        ensures
            r == *self,
    {
        User {
            id: self.id,
            name: self.name.clone(),
            email: self.email.clone(),
            status: self.status.clone(),
            created_at: self.created_at,
        }
    }
}

/// Seconds since the Unix epoch, now (chrono `Utc::now().timestamp()`).
/// The value depends on the clock, so nothing is stated of it.
#[verifier::external_body]
fn unix_timestamp_now() -> i64 {
    chrono::Utc::now().timestamp()
}

/// A user passes validation when the name is non-empty and the email holds an `@`.
pub open spec fn user_valid(u: User) -> bool {
    u.name@.len() > 0 && u.email@.contains('@')
}

impl User {
    /// Creates an active user; the creation time is the current clock time.
    pub fn new(id: UserId, name: String, email: String) -> (r: Self)
        ensures
            r.id == id,
            r.name == name,
            r.email == email,
            r.status == Status::Active,
    {
        User { id, name, email, status: Status::Active, created_at: unix_timestamp_now() }
    }

    /// Seconds since the Unix epoch at which the user was created.
    pub fn created_at(&self) -> (r: i64)
        ensures
            r == self.created_at,
    {
        self.created_at
    }

    pub fn is_active(&self) -> (r: bool)
        ensures
            r == (self.status is Active),
    {
        matches!(self.status, Status::Active)
    }

    pub fn suspend(&mut self, reason: String)
        ensures
            final(self).status == (Status::Suspended { reason }),
            final(self).id == old(self).id,
            final(self).name == old(self).name,
            final(self).email == old(self).email,
            final(self).created_at == old(self).created_at,
    {
        self.status = Status::Suspended { reason };
    }
}

/// Something that can check its own consistency.
pub trait Validator {
    fn validate(&self) -> Result<(), Error>;
}

impl Validator for User {
    fn validate(&self) -> (r: Result<(), Error>)
        ensures
            r is Ok <==> user_valid(*self),
            self.name@.len() == 0 ==> (r matches Err(Error::InvalidInput(m))
                && m@ == "Name cannot be empty"@),
            self.name@.len() > 0 && !self.email@.contains('@') ==> (r matches Err(
                Error::InvalidInput(m),
            ) && m@ == "Invalid email format"@),
    {
        let name = chars_of(self.name.as_str());
        if name.len() == 0 {
            return Err(Error::InvalidInput(string_from_str("Name cannot be empty")));
        }
        let email = chars_of(self.email.as_str());
        if !seq_contains(&email, '@') {
            return Err(Error::InvalidInput(string_from_str("Invalid email format")));
        }
        Ok(())
    }
}

/// A store of entities keyed by user id.
pub trait Repository<T> {
    fn find_by_id(&self, id: UserId) -> Result<Option<T>, Error>;

    fn save(&mut self, entity: T) -> Result<T, Error>;

    fn delete(&mut self, id: UserId) -> Result<bool, Error>;
}

/// Users keyed by id, plus the next id to hand out.
pub struct UserRepository {
    users: HashMap<UserId, User>,
    next_id: UserId,
}

impl UserRepository {
    /// The stored users, keyed by id.
    pub closed spec fn users(self) -> Map<UserId, User> {
        self.users@
    }

    /// The id the next created user receives.
    pub closed spec fn next_id_spec(self) -> UserId {
        self.next_id
    }

    /// Every stored user is stored under its own id.
    pub open spec fn wf(self) -> bool {
        forall|k: UserId| #[trigger] self.users().contains_key(k) ==> self.users()[k].id == k
    }

    pub fn new() -> (r: Self)
        ensures
            r.users() == Map::<UserId, User>::empty(),
            r.next_id_spec() == 1,
            r.wf(),
    {
        UserRepository { users: HashMap::new(), next_id: 1 }
    }

    /// Takes the next id, builds an active user from it and stores the user
    /// if it passes validation. The id is consumed either way.
    pub fn create_user(&mut self, name: String, email: String) -> (r: Result<User, Error>)
        requires
            old(self).next_id_spec() < u64::MAX,
            old(self).wf(),
        ensures
            final(self).wf(),
            final(self).next_id_spec() == old(self).next_id_spec() + 1,
            r is Ok <==> (name@.len() > 0 && email@.contains('@')),
            name@.len() == 0 ==> (r matches Err(Error::InvalidInput(m))
                && m@ == "Name cannot be empty"@),
            name@.len() > 0 && !email@.contains('@') ==> (r matches Err(Error::InvalidInput(m))
                && m@ == "Invalid email format"@),
            match r {
                Ok(u) => {
                    &&& u.id == old(self).next_id_spec()
                    &&& u.name == name
                    &&& u.email == email
                    &&& u.status == Status::Active
                    &&& final(self).users() == old(self).users().insert(u.id, u)
                },
                Err(_) => final(self).users() == old(self).users(),
            },
    {
        let id = self.next_id;
        self.next_id = self.next_id + 1;
        let user = User::new(id, name, email);
        match user.validate() {
            Err(e) => Err(e),
            Ok(()) => {
                self.users.insert(id, user.clone());
                Ok(user)
            },
        }
    }

    /// All stored users whose status is active, each once.
    pub fn get_active_users(&self) -> (r: Vec<User>)
        requires
            self.wf(),
        ensures
            r@.no_duplicates(),
            forall|u: User| #[trigger] r@.contains(u) <==> (self.users().values().contains(u)
                && u.status is Active),
    {
        let mut out: Vec<User> = Vec::new();
        let ghost vals = vstd::std_specs::iter::IteratorSpec::remaining(&vstd::std_specs::hash::spec_values_iter(&self.users));
        proof {
            lemma_keyed_values_len(self.users@);
            vals.unref().lemma_no_dup_set_cardinality();
        }
        let ghost mut n: int = 0;
        for u in it: self.users.values()
            invariant
                it.seq() == vals,
                n == it.index(),
                it.seq().unref().to_set() == self.users@.values(),
                vals.unref().no_duplicates(),
                out@.no_duplicates(),
                forall|x: User| #[trigger] out@.contains(x) ==> x.status is Active && exists|j: int|
                    #![trigger it.seq()[j]] 0 <= j < it.index() && *it.seq()[j] == x,
                forall|j: int| #![trigger it.seq()[j]] 0 <= j < it.index() && (*it.seq()[j]).status is Active
                    ==> out@.contains(*it.seq()[j]),
        {
            let ghost idx = it.index();
            proof {
                assert(it.seq()[idx] == u);
            }
            if u.is_active() {
                let c = u.clone();
                let ghost old_out = out@;
                proof {
                    if old_out.contains(c) {
                        let j = choose|j: int| #![trigger it.seq()[j]] 0 <= j < idx && *it.seq()[j] == c;
                        assert(vals.unref()[j] == vals.unref()[idx]);
                    }
                }
                out.push(c);
                proof {
                    assert(out@[old_out.len() as int] == c);
                    assert forall|x: User| #[trigger] out@.contains(x) implies x.status is Active
                        && exists|j: int| #![trigger it.seq()[j]] 0 <= j < idx + 1 && *it.seq()[j] == x by {
                        if x != c {
                            assert(old_out.contains(x));
                        }
                    }
                    assert forall|j: int| #![trigger it.seq()[j]] 0 <= j < idx + 1 && (*it.seq()[j]).status is Active
                        implies out@.contains(*it.seq()[j]) by {
                        if j < idx {
                            assert(old_out.contains(*it.seq()[j]));
                            let k = choose|k: int| 0 <= k < old_out.len() && old_out[k] == *it.seq()[j];
                            assert(out@[k] == *it.seq()[j]);
                        }
                    }
                }
            }
            proof {
                n = n + 1;
            }
        }
        proof {
            assert forall|x: User| #[trigger] out@.contains(x) <==> (self.users@.values().contains(x)
                && x.status is Active) by {
                if self.users@.values().contains(x) && x.status is Active {
                    assert(vals.unref().to_set().contains(x));
                    let j = choose|j: int| 0 <= j < vals.unref().len() && vals.unref()[j] == x;
                    assert(*vals[j] == x);
                }
                if out@.contains(x) {
                    let j = choose|j: int| #![trigger vals[j]] 0 <= j < n && *vals[j] == x;
                    assert(vals.unref()[j] == x);
                    assert(vals.unref().to_set().contains(x));
                }
            }
        }
        out
    }
}

/// In a map whose every value is keyed by its own id, distinct keys hold
/// distinct values, so there are as many values as keys.
proof fn lemma_keyed_values_len(m: Map<UserId, User>)
    requires
        m.dom().finite(),
        forall|k: UserId| #[trigger] m.contains_key(k) ==> m[k].id == k,
    ensures
        m.values().len() == m.dom().len(),
{
    let f = |k: UserId| m[k];
    assert(m.dom().map(f) =~= m.values());
    vstd::set_lib::lemma_map_size(m.dom(), m.values(), f);
}

/// How one call changes the id a repository hands out next: `create_user`
/// raises it by one, `save` and `delete` keep it.
pub open spec fn next_id_moves(before: UserRepository, after: UserRepository) -> bool {
    after.next_id_spec() == before.next_id_spec() || after.next_id_spec()
        == before.next_id_spec() + 1
}

/// Ids are never reused: along any run of calls on one repository, a user
/// created at a later step gets a larger id than one created at an earlier
/// step. `states[k]` is the repository before call `k`; the call at `i` is a
/// `create_user`, which hands out `states[i].next_id_spec()`, and a
/// `create_user` at `j` would hand out `states[j].next_id_spec()`.
pub proof fn ids_are_never_reused(states: Seq<UserRepository>, i: int, j: int)
    requires
        0 <= i < j < states.len(),
        forall|k: int| 0 <= k < states.len() - 1 ==> #[trigger] next_id_moves(states[k], states[k + 1]),
        states[i + 1].next_id_spec() == states[i].next_id_spec() + 1,
    ensures
        states[j].next_id_spec() > states[i].next_id_spec(),
    decreases j - i,
{
    if j > i + 1 {
        ids_are_never_reused(states, i, j - 1);
        let k = j - 1;
        assert(next_id_moves(states[k], states[k + 1]));
        assert(k + 1 == j);
    }
}

impl Repository<User> for UserRepository {
    fn find_by_id(&self, id: UserId) -> (r: Result<Option<User>, Error>)
        ensures
            r == (if self.users().contains_key(id) {
                Ok::<Option<User>, Error>(Some(self.users()[id]))
            } else {
                Ok::<Option<User>, Error>(None)
            }),
    {
        match self.users.get(&id) {
            Some(u) => Ok(Some(u.clone())),
            None => Ok(None),
        }
    }

    fn save(&mut self, entity: User) -> (r: Result<User, Error>)
        ensures
            r is Ok <==> user_valid(entity),
            r is Ok ==> r == Ok::<User, Error>(entity) && final(self).users() == old(
                self,
            ).users().insert(entity.id, entity),
            r is Err ==> final(self).users() == old(self).users(),
            final(self).next_id_spec() == old(self).next_id_spec(),
    {
        match entity.validate() {
            Err(e) => Err(e),
            Ok(()) => {
                self.users.insert(entity.id, entity.clone());
                Ok(entity)
            },
        }
    }

    fn delete(&mut self, id: UserId) -> (r: Result<bool, Error>)
        ensures
            r == Ok::<bool, Error>(old(self).users().contains_key(id)),
            final(self).users() == old(self).users().remove(id),
            final(self).next_id_spec() == old(self).next_id_spec(),
    {
        let removed = self.users.remove(&id);
        Ok(removed.is_some())
    }
}

/// An email looks valid when it holds both an `@` and a `.`.
pub fn validate_email(email: &str) -> (r: bool)
    ensures
        r == (email@.contains('@') && email@.contains('.')),
{
    let cs = chars_of(email);
    seq_contains(&cs, '@') && seq_contains(&cs, '.')
}

/// The hash the standard library's default hasher gives a string
/// (`DefaultHasher::new()` fed through `str`'s `Hash`). Every hasher made
/// by `DefaultHasher::new` hashes alike, so the value depends on the string
/// alone; the algorithm itself is left unspecified by std.
pub uninterp spec fn default_hash(s: Seq<char>) -> u64;

/// Hashes a string with the standard library's default hasher
/// (`BuildHasher::hash_one` of a fresh `DefaultHasher`: a new hasher fed the
/// string, then finished). The result is the one `default_hash` names.
#[verifier::external_body]
pub fn calculate_hash(input: &str) -> (r: u64)
    ensures
        r == default_hash(input@),
{
    std::hash::BuildHasher::hash_one(&std::hash::BuildHasherDefault::<std::collections::hash_map::DefaultHasher>::default(), input)
}

/// The first item for which the predicate answered `true`, if any.
pub fn find_first<'a, T, F>(items: &'a [T], predicate: F) -> (r: Option<&'a T>) where
    F: Fn(&T) -> bool,

    requires
        forall|i: int| 0 <= i < items@.len() ==> predicate.requires((&items@[i],)),
    ensures
        match r {
            Some(x) => exists|i: int|
                {
                    &&& 0 <= i < items@.len()
                    &&& *x == items@[i]
                    &&& predicate.ensures((&items@[i],), true)
                    &&& forall|j: int| 0 <= j < i ==> predicate.ensures((&items@[j],), false)
                },
            None => forall|j: int| 0 <= j < items@.len() ==> predicate.ensures((&items@[j],), false),
        },
{
    let mut i: usize = 0;
    while i < items.len()
        invariant
            i <= items@.len(),
            forall|k: int| 0 <= k < items@.len() ==> predicate.requires((&items@[k],)),
            forall|j: int| 0 <= j < i ==> predicate.ensures((&items@[j],), false),
        decreases items@.len() - i,
    {
        if predicate(&items[i]) {
            return Some(&items[i]);
        }
        i = i + 1;
    }
    None
}


/// A created user is found under its id.
pub proof fn created_user_is_found(users: Map<UserId, User>, u: User)
    ensures
        users.insert(u.id, u).contains_key(u.id),
        users.insert(u.id, u)[u.id] == u,
{
}

/// A deleted user is no longer found, and the other users stay.
pub proof fn deleted_user_is_gone(users: Map<UserId, User>, id: UserId)
    ensures
        !users.remove(id).contains_key(id),
        forall|k: UserId| k != id && users.contains_key(k) ==> #[trigger] users.remove(id).contains_key(k) && users.remove(id)[k]
            == users[k],
{
}

} // verus!
