use vstd::prelude::*;

verus! {

/// The sender of a chat message.
pub struct User {
    pub id: i64,
    pub first_name: String,
    pub last_name: Option<String>,
    pub username: Option<String>,
}

/// The directory and URL segment under which a sender's files are kept: the
/// sender's handle, or `anonymous` for a sender without one.
pub open spec fn user_segment(user: User) -> Seq<char> {
    match user.username {
        Some(handle) => handle@,
        None => "anonymous"@,
    }
}

/// The sender's segment, as a `String`.
pub fn get_username(user: &User) -> (r: String)
    ensures
        r@ == user_segment(*user),
{
    match &user.username {
        Some(name) => name.clone(),
        None => String::from_str("anonymous"),
    }
}

} // verus!

verus! {

/// A sender's segment is `anonymous` exactly when the sender has no handle,
/// and otherwise it is the handle as given (for senders whose handle is not
/// itself `anonymous`).
pub proof fn law_user_segment(user: User)
    requires
        user.username matches Some(h) ==> h@ != "anonymous"@,
    ensures
        (user_segment(user) == "anonymous"@) <==> user.username is None,
        user.username matches Some(h) ==> user_segment(user) == h@,
{
}

} // verus!
