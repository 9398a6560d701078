use vstd::prelude::*;

verus! {

/// A user record as it is stored by the credential backend.
pub struct User<'a> {
    pub id: Option<i32>,
    pub username: &'a str,
    pub pwd: &'a str,
}

/// The credentials that a login request carries.
pub struct LoginPayload<'a> {
    pub username: &'a str,
    pub pwd: &'a str,
}

/// The stored password of one user, as the backend returns it.
#[derive(Debug)]
pub struct UserPassword {
    pub pwd: String,
}

impl<'a> User<'a> {
    /// A user with the given id, name and password.
    pub fn new(id: Option<i32>, username: &'a str, pwd: &'a str) -> (r: User<'a>)
        ensures
            r.id == id,
            r.username == username,
            r.pwd == pwd,
    {
        User { id, username, pwd }
    }
}

impl<'a> LoginPayload<'a> {
    /// The credentials of a login attempt.
    pub fn new(username: &'a str, pwd: &'a str) -> (r: LoginPayload<'a>)
        ensures
            r.username == username,
            r.pwd == pwd,
    {
        LoginPayload { username, pwd }
    }
}

} // verus!
