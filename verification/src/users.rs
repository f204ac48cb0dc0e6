//! The authenticated user, as the current-user operation reports it.

use vstd::prelude::*;
use crate::json::{Json, JsonV, get_str_field, get_u32_field, str_field, u32_field};

verus! {

pub struct User {
    pub id: u32,
    pub login: String,
}

/// The mathematical image of a [`User`].
pub struct UserV {
    pub id: u32,
    pub login: Seq<char>,
}

impl View for User {
    type V = UserV;

    open spec fn view(&self) -> UserV {
        UserV { id: self.id, login: self.login@ }
    }
}

/// Whether `j` has the JSON shape of a user record.
pub open spec fn is_user_json(j: JsonV) -> bool {
    u32_field(j, "id"@) is Some && str_field(j, "login"@) is Some
}

/// How a decoded user relates to its JSON record.
pub open spec fn user_matches_json(u: UserV, j: JsonV) -> bool {
    Some(u.id) == u32_field(j, "id"@) && Some(u.login) == str_field(j, "login"@)
}

/// Decodes a user record; `None` exactly when the shape is wrong.
pub fn user_from_json(j: &Json) -> (r: Option<User>)
    ensures
        (r matches Some(u) ==> is_user_json(j@) && user_matches_json(u@, j@)),
        (r is None ==> !is_user_json(j@)),
{
    let id = match get_u32_field(j, "id") {
        Some(x) => x,
        None => {
            return None;
        },
    };
    let login = match get_str_field(j, "login") {
        Some(s) => s.clone(),
        None => {
            return None;
        },
    };
    Some(User { id: id, login: login })
}

} // verus!
