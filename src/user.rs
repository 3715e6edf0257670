use vstd::prelude::*;

verus! {

/// A signed-in user, known by the name that an authentication provider gave.
#[derive(Clone, Debug)]
pub struct User {
    pub id: i64,
    pub name: String,
    pub provider: String,
}

} // verus!
