//! Ticket-system users and the paged search for one by e-mail address.

use crate::text::eq_ignoring_case;
use crate::text::same_ignoring_case;
use vstd::prelude::*;

verus! {

/// A user of the ticket system.
pub struct JiraUser {
    pub account_id: String,
    pub display_name: Option<String>,
    pub email_address: Option<String>,
}

impl Clone for JiraUser {
    fn clone(&self) -> (r: Self)
        ensures
            r == *self,
    {
        JiraUser {
            account_id: self.account_id.clone(),
            display_name: self.display_name.clone(),
            email_address: self.email_address.clone(),
        }
    }
}

/// Users are listed this many at a time.
pub const PAGE_SIZE: u64 = 50;

/// The address a listed user is compared by: a user without one counts as
/// having the empty address.
pub open spec fn listed_email(user: JiraUser) -> Seq<char> {
    match user.email_address {
        Some(address) => address@,
        None => Seq::empty(),
    }
}

/// `at` is the first user of the page whose address is `email`, letter case
/// aside.
pub open spec fn is_first_with_email(users: Seq<JiraUser>, email: Seq<char>, at: int) -> bool {
    &&& 0 <= at < users.len()
    &&& same_ignoring_case(listed_email(users[at]), email)
    &&& forall|j: int| 0 <= j < at ==> !same_ignoring_case(listed_email(#[trigger] users[j]), email)
}

/// No user of the page has the address `email`.
pub open spec fn none_with_email(users: Seq<JiraUser>, email: Seq<char>) -> bool {
    forall|j: int| 0 <= j < users.len() ==> !same_ignoring_case(listed_email(#[trigger] users[j]), email)
}

/// The first user of a page whose address is `email`, letter case aside.
pub fn find_in_page(users: &Vec<JiraUser>, email: &str) -> (r: Option<usize>)
    ensures
        match r {
            Some(at) => is_first_with_email(users@, email@, at as int),
            None => none_with_email(users@, email@),
        },
{
    let mut at: usize = 0;
    while at < users.len()
        invariant
            at <= users.len(),
            forall|j: int| 0 <= j < at ==> !same_ignoring_case(listed_email(#[trigger] users@[j]), email@),
        decreases users.len() - at,
    {
        let hit = match &users[at].email_address {
            Some(address) => eq_ignoring_case(address.as_str(), email),
            None => eq_ignoring_case("", email),
        };
        if hit {
            proof {
                reveal_strlit("");
                assert(""@ =~= Seq::<char>::empty());
            }
            return Some(at);
        }
        proof {
            reveal_strlit("");
            assert(""@ =~= Seq::<char>::empty());
        }
        at += 1;
    }
    None
}

/// Progress of a search through the user listing: how many full pages have
/// been read without a hit.
pub struct UserSearch {
    pub pages_read: u64,
}

/// What a search does after a page has been read.
pub enum UserSearchStep {
    /// The user was on the page.
    Found(JiraUser),
    /// The page had users but not this one: read the page that starts here.
    ReadPage { start_at: u64, max_results: u64 },
    /// The listing is exhausted.
    NotFound,
}

impl UserSearch {
    /// The offset of the page to read next.
    pub open spec fn next_offset(self) -> int {
        self.pages_read * PAGE_SIZE
    }

    /// Begins a search: nothing has been read, and the first page is asked
    /// for.
    pub fn new() -> (r: (UserSearch, UserSearchStep))
        ensures
            r.0.pages_read == 0,
            r.1 == (UserSearchStep::ReadPage { start_at: 0, max_results: PAGE_SIZE }),
    {
        (
            UserSearch { pages_read: 0 },
            UserSearchStep::ReadPage { start_at: 0, max_results: PAGE_SIZE },
        )
    }

    /// Takes the page that was read at the current offset. An empty page ends
    /// the search without a result; a page holding a user with the address
    /// `email` (letter case aside) ends it with the first such user; any
    /// other page moves the search one page on.
    pub fn on_page(&mut self, users: Vec<JiraUser>, email: &str) -> (r: UserSearchStep)
        requires
            (old(self).pages_read + 1) * PAGE_SIZE <= u64::MAX,
        ensures
            users@.len() == 0 ==> r == UserSearchStep::NotFound && *final(self) == *old(self),
            users@.len() > 0 && none_with_email(users@, email@) ==> {
                &&& final(self).pages_read == old(self).pages_read + 1
                &&& r == (UserSearchStep::ReadPage {
                    start_at: (final(self).next_offset()) as u64,
                    max_results: PAGE_SIZE,
                })
            },
            users@.len() > 0 && !none_with_email(users@, email@) ==> {
                &&& *final(self) == *old(self)
                &&& r matches UserSearchStep::Found(user)
                &&& exists|at: int| is_first_with_email(users@, email@, at) && user == users@[at]
            },
    {
        if users.len() == 0 {
            return UserSearchStep::NotFound;
        }
        match find_in_page(&users, email) {
            Some(at) => {
                let mut users = users;
                let user = users.swap_remove(at);
                UserSearchStep::Found(user)
            },
            None => {
                self.pages_read = self.pages_read + 1;
                UserSearchStep::ReadPage {
                    start_at: self.pages_read * PAGE_SIZE,
                    max_results: PAGE_SIZE,
                }
            },
        }
    }
}

/// The account id that a finished search reports: that of the user found,
/// or the empty string.
pub fn get_jira_user_id(outcome: &Option<JiraUser>) -> (r: String)
    ensures
        r@ == match outcome {
            Some(user) => user.account_id@,
            None => Seq::<char>::empty(),
        },
{
    match outcome {
        Some(user) => user.account_id.clone(),
        None => String::new(),
    }
}

} // verus!
