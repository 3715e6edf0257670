use vstd::prelude::*;

use crate::cookies::{lookup, Cookies};

verus! {

/// The name of the cookie that carries the session token.
pub const SESSION_COOKIE_NAME: &'static str = "session";

/// The session token among the request's cookies, if there is one.
pub fn get_session_token(cookies: &Cookies) -> (r: Option<String>)
    requires
        cookies.wf(),
    ensures
        match lookup(cookies@, SESSION_COOKIE_NAME@) {
            Some(v) => r matches Some(s) && s@ == v,
            None => r is None,
        },
{
    cookies.get(SESSION_COOKIE_NAME)
}

} // verus!
