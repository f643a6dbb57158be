//! The identity under which this client takes part in the chat.

use vstd::prelude::*;
use vstd::string::*;

verus! {

/// The local participant: a name and the avatar shown beside it.
#[derive(Clone, Debug, PartialEq, Eq)]
pub struct User {
    pub username: String,
    pub avatar: String,
}

impl Default for User {
    /// A user without a name yet, with the stock avatar.
    fn default() -> (user: Self)
        ensures
            user.username@ == Seq::<char>::empty(),
            user.avatar@ == "alex"@,
    {
        User { username: String::new(), avatar: String::from_str("alex") }
    }
}

} // verus!
