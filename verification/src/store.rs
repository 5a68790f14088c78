use vstd::prelude::*;

verus! {

use crate::errors::ServiceError;
use crate::model::{User, UserView};

/// The first user whose id equals `id`, if any.
pub open spec fn spec_find_by_id(users: Seq<UserView>, id: Seq<char>) -> Option<UserView>
    decreases users.len(),
{
    if users.len() == 0 {
        None
    } else if users[0].id == id {
        Some(users[0])
    } else {
        spec_find_by_id(users.drop_first(), id)
    }
}

/// The first user whose email equals `email`, if any.
pub open spec fn spec_find_by_email(users: Seq<UserView>, email: Seq<char>) -> Option<UserView>
    decreases users.len(),
{
    if users.len() == 0 {
        None
    } else if users[0].email == email {
        Some(users[0])
    } else {
        spec_find_by_email(users.drop_first(), email)
    }
}

/// A lookup by id misses exactly when no stored user carries the id.
pub proof fn lemma_find_by_id_none(users: Seq<UserView>, id: Seq<char>)
    ensures
        spec_find_by_id(users, id) is None <==> forall|k: int|
            0 <= k < users.len() ==> users[k].id != id,
    decreases users.len(),
{
    if users.len() > 0 {
        lemma_find_by_id_none(users.drop_first(), id);
        if spec_find_by_id(users, id) is None {
            assert forall|k: int| 0 <= k < users.len() implies users[k].id != id by {
                if k >= 1 {
                    assert(users[k] == users.drop_first()[k - 1]);
                    assert(users.drop_first()[k - 1].id != id);
                }
            }
        }
        if forall|k: int| 0 <= k < users.len() ==> users[k].id != id {
            assert forall|k: int|
                0 <= k < users.drop_first().len() implies users.drop_first()[k].id != id by {
                assert(users.drop_first()[k] == users[k + 1]);
                assert(users[k + 1].id != id);
            }
            assert(users[0].id != id);
        }
    }
}

/// A lookup by email misses exactly when no stored user carries the email.
pub proof fn lemma_find_by_email_none(users: Seq<UserView>, email: Seq<char>)
    ensures
        spec_find_by_email(users, email) is None <==> forall|k: int|
            0 <= k < users.len() ==> users[k].email != email,
    decreases users.len(),
{
    if users.len() > 0 {
        lemma_find_by_email_none(users.drop_first(), email);
        if spec_find_by_email(users, email) is None {
            assert forall|k: int| 0 <= k < users.len() implies users[k].email != email by {
                if k >= 1 {
                    assert(users[k] == users.drop_first()[k - 1]);
                    assert(users.drop_first()[k - 1].email != email);
                }
            }
        }
        if forall|k: int| 0 <= k < users.len() ==> users[k].email != email {
            assert forall|k: int|
                0 <= k < users.drop_first().len() implies users.drop_first()[k].email
                != email by {
                assert(users.drop_first()[k] == users[k + 1]);
                assert(users[k + 1].email != email);
            }
            assert(users[0].email != email);
        }
    }
}

/// The persistence collaborator's contract made concrete: an in-memory table
/// of user rows in which ids and emails are unique. The service consumes it
/// only through lookup by id, lookup by email, and insert.
pub struct UserStore {
    users: Vec<User>,
}

impl View for UserStore {
    type V = Seq<UserView>;

    closed spec fn view(&self) -> Seq<UserView> {
        self.users@.map_values(|u: User| u@)
    }
}

impl UserStore {
    /// Ids and emails are pairwise distinct.
    pub open spec fn wf(&self) -> bool {
        forall|i: int, j: int|
            0 <= i < j < self@.len() ==> self@[i].id != self@[j].id && self@[i].email
                != self@[j].email
    }

    /// An empty store.
    pub fn new() -> (r: UserStore)
        ensures
            r@ == Seq::<UserView>::empty(),
            r.wf(),
    {
        let r = UserStore { users: Vec::new() };
        assert(r@ =~= Seq::<UserView>::empty());
        r
    }

    /// Looks a user up by id; returns a copy of the matching row.
    pub fn find_by_id(&self, id: &String) -> (r: Option<User>)
        ensures
            match r {
                Some(u) => spec_find_by_id(self@, id@) == Some(u@),
                None => spec_find_by_id(self@, id@) is None,
            },
    {
        let n = self.users.len();
        assert(self@.skip(0) =~= self@);
        for i in 0..n
            invariant
                n == self.users.len(),
                spec_find_by_id(self@, id@) == spec_find_by_id(self@.skip(i as int), id@),
        {
            proof {
                assert(self@.skip(i as int).drop_first() =~= self@.skip(i + 1));
                assert(self@.skip(i as int)[0] == self@[i as int]);
                assert(self@[i as int] == self.users@[i as int]@);
            }
            if self.users[i].id == *id {
                return Some(self.users[i].duplicate());
            }
        }
        assert(self@.skip(n as int) =~= Seq::<UserView>::empty());
        None
    }

    /// Looks a user up by email; returns a copy of the matching row.
    pub fn find_by_email(&self, email: &String) -> (r: Option<User>)
        ensures
            match r {
                Some(u) => spec_find_by_email(self@, email@) == Some(u@),
                None => spec_find_by_email(self@, email@) is None,
            },
    {
        let n = self.users.len();
        assert(self@.skip(0) =~= self@);
        for i in 0..n
            invariant
                n == self.users.len(),
                spec_find_by_email(self@, email@) == spec_find_by_email(
                    self@.skip(i as int),
                    email@,
                ),
        {
            proof {
                assert(self@.skip(i as int).drop_first() =~= self@.skip(i + 1));
                assert(self@.skip(i as int)[0] == self@[i as int]);
                assert(self@[i as int] == self.users@[i as int]@);
            }
            if self.users[i].email == *email {
                return Some(self.users[i].duplicate());
            }
        }
        assert(self@.skip(n as int) =~= Seq::<UserView>::empty());
        None
    }

    /// Inserts a row. Fails with a storage fault, leaving the store
    /// unchanged, exactly when the row's email or id is already taken; the
    /// email case is the uniqueness violation a duplicate registration hits.
    pub fn insert(&mut self, user: User) -> (r: Result<(), ServiceError>)
        requires
            old(self).wf(),
        ensures
            final(self).wf(),
            match r {
                Ok(()) => final(self)@ == old(self)@ + seq![user@] && spec_find_by_email(
                    old(self)@,
                    user@.email,
                ) is None && spec_find_by_id(old(self)@, user@.id) is None,
                Err(e) => final(self)@ == old(self)@ && e == ServiceError::Storage && !(
                spec_find_by_email(old(self)@, user@.email) is None && spec_find_by_id(
                    old(self)@,
                    user@.id,
                ) is None),
            },
    {
        let existing_email = self.find_by_email(&user.email);
        if existing_email.is_some() {
            return Err(ServiceError::Storage);
        }
        let existing_id = self.find_by_id(&user.id);
        if existing_id.is_some() {
            return Err(ServiceError::Storage);
        }
        proof {
            lemma_find_by_email_none(self@, user@.email);
            lemma_find_by_id_none(self@, user@.id);
        }
        self.users.push(user);
        proof {
            assert(self@ =~= old(self)@ + seq![user@]);
        }
        Ok(())
    }
}

} // verus!
