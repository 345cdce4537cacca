use vstd::prelude::*;
use crate::model::{Role, User, UserSummary};

verus! {

/// Why a record was not added.
#[derive(Debug, Clone, Copy, PartialEq, Eq, Structural)]
pub enum InsertError {
    /// Another record already has the email.
    DuplicateEmail,
    /// Every identifier has been handed out.
    IdsExhausted,
}

/// The accounts of the service, in order of registration.
pub struct Registry {
    users: Vec<User>,
    next_id: i32,
}

pub ghost struct RegistryView {
    pub users: Seq<User>,
    pub next_id: i32,
}

/// Whether some record of `users` has the email `e`.
pub open spec fn has_email(users: Seq<User>, e: Seq<char>) -> bool {
    exists|i: int| 0 <= i < users.len() && (#[trigger] users[i]).email@ == e
}

/// No two records share an email.
pub open spec fn emails_unique(users: Seq<User>) -> bool {
    forall|i: int, j: int|
        0 <= i < users.len() && 0 <= j < users.len() && i != j ==> (#[trigger] users[i]).email@
            != (#[trigger] users[j]).email@
}

/// Identifiers are positive, below the next one, and increase in order of insertion.
pub open spec fn ids_ordered(users: Seq<User>, next_id: i32) -> bool {
    &&& next_id >= 1
    &&& forall|i: int| 0 <= i < users.len() ==> 1 <= (#[trigger] users[i]).id < next_id
    &&& forall|i: int, j: int|
        0 <= i < j < users.len() ==> (#[trigger] users[i]).id < (#[trigger] users[j]).id
}

pub open spec fn registry_wf(v: RegistryView) -> bool {
    emails_unique(v.users) && ids_ordered(v.users, v.next_id)
}

/// What inserting a record with email `e` gives: the new identifier, or why not.
pub open spec fn insert_outcome(v: RegistryView, e: Seq<char>) -> Result<i32, InsertError> {
    if has_email(v.users, e) {
        Err(InsertError::DuplicateEmail)
    } else if v.next_id == i32::MAX {
        Err(InsertError::IdsExhausted)
    } else {
        Ok(v.next_id)
    }
}

/// The registry after `u` was added with the next identifier.
pub open spec fn added(v: RegistryView, u: User) -> RegistryView {
    RegistryView { users: v.users.push(u), next_id: (v.next_id + 1) as i32 }
}

/// Once an email was registered, a second insertion of it is refused: of two
/// insertions of one fresh email, exactly one succeeds and the other reports the
/// duplicate, and no two records ever share an email.
pub proof fn lemma_second_insert_refused(v: RegistryView, first: User, e: Seq<char>)
    requires
        registry_wf(v),
        insert_outcome(v, first.email@) is Ok,
        first.id == v.next_id,
        e == first.email@,
    ensures
        registry_wf(added(v, first)),
        insert_outcome(added(v, first), e) == Err::<i32, InsertError>(InsertError::DuplicateEmail),
{
    let w = added(v, first);
    assert(w.users[v.users.len() as int] == first);
    lemma_added_wf(v, first);
}

proof fn lemma_added_wf(v: RegistryView, u: User)
    requires
        registry_wf(v),
        !has_email(v.users, u.email@),
        v.next_id < i32::MAX,
        u.id == v.next_id,
    ensures
        registry_wf(added(v, u)),
{
    let w = added(v, u);
    let n = v.users.len() as int;
    assert forall|i: int, j: int|
        0 <= i < w.users.len() && 0 <= j < w.users.len() && i != j implies (#[trigger] w.users[i]).email@
            != (#[trigger] w.users[j]).email@ by {
        if i == n {
            assert(v.users[j] == w.users[j]);
        } else if j == n {
            assert(v.users[i] == w.users[i]);
        } else {
            assert(v.users[i] == w.users[i] && v.users[j] == w.users[j]);
        }
    }
    assert forall|i: int| 0 <= i < w.users.len() implies 1 <= (#[trigger] w.users[i]).id < w.next_id by {
        if i < n {
            assert(v.users[i] == w.users[i]);
        }
    }
    assert forall|i: int, j: int| 0 <= i < j < w.users.len() implies (#[trigger] w.users[i]).id < (
    #[trigger] w.users[j]).id by {
        assert(v.users[i] == w.users[i]);
        if j < n {
            assert(v.users[j] == w.users[j]);
        }
    }
}

impl View for Registry {
    type V = RegistryView;

    closed spec fn view(&self) -> RegistryView {
        RegistryView { users: self.users@, next_id: self.next_id }
    }
}

impl Registry {
    pub open spec fn wf(&self) -> bool {
        registry_wf(self@)
    }

    /// An empty registry; the first identifier is 1.
    pub fn new() -> (r: Registry)
        ensures
            r.wf(),
            r@.users.len() == 0,
            r@.next_id == 1,
    {
        Registry { users: Vec::new(), next_id: 1 }
    }

    /// Number of records.
    pub fn len(&self) -> (r: usize)
        ensures
            r == self@.users.len(),
    {
        self.users.len()
    }

    /// Adds a record under the next identifier, unless the email is already taken
    /// or no identifier is left; the registry is unchanged on failure.
    pub fn insert(
        &mut self,
        email: String,
        first_name: String,
        last_name: String,
        password_hash: String,
        role: Role,
    ) -> (r: Result<i32, InsertError>)
        requires
            old(self).wf(),
        ensures
            final(self).wf(),
            r == insert_outcome(old(self)@, email@),
            r is Ok ==> final(self)@ == added(
                old(self)@,
                (User { id: old(self)@.next_id, email, first_name, last_name, password: password_hash, role }),
            ),
            r is Err ==> final(self)@ == old(self)@,
    {
        if self.find_index(email.as_str()).is_some() {
            return Err(InsertError::DuplicateEmail);
        }
        if self.next_id == i32::MAX {
            return Err(InsertError::IdsExhausted);
        }
        let id = self.next_id;
        let u = User { id, email, first_name, last_name, password: password_hash, role };
        proof {
            lemma_added_wf(self@, u);
        }
        self.users.push(u);
        self.next_id = id + 1;
        Ok(id)
    }

    /// Position of the record with the email, if any.
    fn find_index(&self, email: &str) -> (r: Option<usize>)
        ensures
            r is None <==> !has_email(self@.users, email@),
            r matches Some(i) ==> i < self@.users.len() && self@.users[i as int].email@ == email@,
    {
        let target = email.to_owned();
        let mut i: usize = 0;
        while i < self.users.len()
            invariant
                i <= self.users@.len(),
                target@ == email@,
                forall|k: int| 0 <= k < i ==> (#[trigger] self.users@[k]).email@ != email@,
            decreases self.users@.len() - i,
        {
            if self.users[i].email == target {
                return Some(i);
            }
            i = i + 1;
        }
        None
    }

    /// A copy of the record with the email. With emails unique, it is the one record
    /// that has it.
    pub fn find_by_email(&self, email: &str) -> (r: Option<User>)
        requires
            self.wf(),
        ensures
            r is None <==> !has_email(self@.users, email@),
            r matches Some(u) ==> exists|i: int|
                0 <= i < self@.users.len() && self@.users[i] == u && u.email@ == email@,
    {
        match self.find_index(email) {
            Some(i) => Some(self.users[i].copy_record()),
            None => None,
        }
    }

    /// A snapshot of the public part of every record, in order of registration.
    pub fn list(&self) -> (r: Vec<UserSummary>)
        ensures
            r@.len() == self@.users.len(),
            forall|i: int|
                0 <= i < r@.len() ==> summarizes(#[trigger] r@[i], self@.users[i]),
    {
        let mut out: Vec<UserSummary> = Vec::new();
        let mut i: usize = 0;
        while i < self.users.len()
            invariant
                i <= self.users@.len(),
                out@.len() == i,
                forall|k: int| 0 <= k < i ==> summarizes(#[trigger] out@[k], self.users@[k]),
            decreases self.users@.len() - i,
        {
            out.push(self.users[i].summary());
            i = i + 1;
        }
        out
    }
}

/// `s` shows the public fields of `u`.
pub open spec fn summarizes(s: UserSummary, u: User) -> bool {
    &&& s.id == u.id
    &&& s.email@ == u.email@
    &&& s.first_name@ == u.first_name@
    &&& s.last_name@ == u.last_name@
    &&& s.role == u.role
}

} // verus!
