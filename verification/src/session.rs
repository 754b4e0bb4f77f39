use vstd::prelude::*;

use crate::users::User;

verus! {

/// Rebuilds a user from the fields a session transport hands back: a user
/// exists exactly when all three fields could be extracted.
pub fn get_session(id: Option<i32>, username: Option<String>, password_hash: Option<String>) -> (r:
    Option<User>)
    ensures
        r is Some <==> (id is Some && username is Some && password_hash is Some),
        r matches Some(u) ==> ((id matches Some(i) && u.id == i) && (username matches Some(n)
            && u.username == n) && (password_hash matches Some(h) && u.password_hash == h)),
{
    match (id, username, password_hash) {
        (Some(id), Some(username), Some(password_hash)) => Some(
            User { id, username, password_hash },
        ),
        _ => None,
    }
}

} // verus!
