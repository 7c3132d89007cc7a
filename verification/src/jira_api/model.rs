//! What the synchronisation flows share: the ways a flow can fail, and the
//! directory of users that have already been looked up.

use crate::jira_api::user::JiraUser;
use crate::text::eq_ignoring_case;
use crate::text::same_ignoring_case;
use crate::text::str_eq;
use vstd::prelude::*;

verus! {

/// Why a synchronisation flow stopped without a result.
#[derive(Clone, Copy, Debug, PartialEq, Eq, Structural)]
pub enum SyncError {
    /// The text of the message cannot be handed to the Markdown converter.
    Markup,
    /// The matching engine refused one of the patterns.
    Pattern,
    /// A call to one of the two systems failed.
    UpstreamRequestFailure,
    /// Something that has to exist was not there: the ticket of a thread
    /// that a reply belongs to, or a ticket right after its creation.
    NotFound,
    /// The flow was handed an outcome it had not asked for.
    OutOfOrder,
}

/// The users looked up so far, oldest first. Users are only ever added.
pub struct UserDirectory {
    pub users: Vec<JiraUser>,
}

/// `at` is the first user with the account id `id`.
pub open spec fn is_first_with_id(users: Seq<JiraUser>, id: Seq<char>, at: int) -> bool {
    &&& 0 <= at < users.len()
    &&& users[at].account_id@ == id
    &&& forall|j: int| 0 <= j < at ==> (#[trigger] users[j]).account_id@ != id
}

/// The user has an address, and it is `email`, letter case aside.
pub open spec fn has_email(user: JiraUser, email: Seq<char>) -> bool {
    user.email_address matches Some(address) && same_ignoring_case(address@, email)
}

/// `at` is the first user whose address is `email`, letter case aside.
pub open spec fn is_first_having_email(users: Seq<JiraUser>, email: Seq<char>, at: int) -> bool {
    &&& 0 <= at < users.len()
    &&& has_email(users[at], email)
    &&& forall|j: int| 0 <= j < at ==> !has_email(#[trigger] users[j], email)
}

impl View for UserDirectory {
    type V = Seq<JiraUser>;

    open spec fn view(&self) -> Seq<JiraUser> {
        self.users@
    }
}

impl UserDirectory {
    /// A directory that knows nobody.
    pub fn new() -> (r: Self)
        ensures
            r@ == Seq::<JiraUser>::empty(),
    {
        UserDirectory { users: Vec::new() }
    }

    /// The first known user with the account id `id`.
    pub fn find_user_by_id(&self, id: &str) -> (r: Option<JiraUser>)
        ensures
            match r {
                Some(user) => exists|at: int| is_first_with_id(self@, id@, at) && user == self@[at],
                None => forall|j: int| 0 <= j < self@.len() ==> (#[trigger] self@[j]).account_id@ != id@,
            },
    {
        let mut k: usize = 0;
        while k < self.users.len()
            invariant
                k <= self.users.len(),
                forall|j: int| 0 <= j < k ==> (#[trigger] self@[j]).account_id@ != id@,
            decreases self.users.len() - k,
        {
            if str_eq(self.users[k].account_id.as_str(), id) {
                assert(is_first_with_id(self@, id@, k as int));
                return Some(self.users[k].clone());
            }
            k += 1;
        }
        None
    }

    /// The first known user whose address is `email`, letter case aside. A
    /// user without an address is never a hit.
    pub fn get_jira_user_by_email(&self, email: &str) -> (r: Option<JiraUser>)
        ensures
            match r {
                Some(user) => exists|at: int|
                    is_first_having_email(self@, email@, at) && user == self@[at],
                None => forall|j: int| 0 <= j < self@.len() ==> !has_email(#[trigger] self@[j], email@),
            },
    {
        let mut k: usize = 0;
        while k < self.users.len()
            invariant
                k <= self.users.len(),
                forall|j: int| 0 <= j < k ==> !has_email(#[trigger] self@[j], email@),
            decreases self.users.len() - k,
        {
            let hit = match &self.users[k].email_address {
                Some(address) => eq_ignoring_case(address.as_str(), email),
                None => false,
            };
            if hit {
                assert(is_first_having_email(self@, email@, k as int));
                return Some(self.users[k].clone());
            }
            k += 1;
        }
        None
    }

    /// Adds a user that was looked up. Nothing known before is lost or moved.
    pub fn remember(&mut self, user: JiraUser)
        ensures
            final(self)@ == old(self)@.push(user),
    {
        self.users.push(user);
    }
}

} // verus!
