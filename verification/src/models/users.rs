//! Users and the records exchanged about them.

use crate::ids::Uuid;
use crate::time::Timestamp;
use vstd::prelude::*;

verus! {

/// A row of the user table.
#[derive(Debug, PartialEq)]
pub struct User {
    pub id: String,
    pub first_name: String,
    pub last_name: String,
    pub email: String,
    pub password: String,
    pub created_at: Timestamp,
    pub updated_at: Timestamp,
}

/// A user that is about to be stored, the password still in the clear.
#[derive(Debug)]
pub struct NewUser {
    pub id: String,
    pub first_name: String,
    pub last_name: String,
    pub email: String,
    pub password: String,
}

/// The new values of a user.
#[derive(Debug)]
pub struct UpdateUser {
    pub id: String,
    pub first_name: String,
    pub last_name: String,
    pub email: String,
}

/// A user who has signed in.
#[derive(Debug)]
pub struct AuthUser {
    pub id: String,
    pub email: String,
}

/// A user as shown to callers.
#[derive(Debug, PartialEq)]
pub struct UserResponse {
    pub id: Uuid,
    pub first_name: String,
    pub last_name: String,
    pub email: String,
}

/// Several users as shown to callers.
#[derive(Debug, PartialEq)]
pub struct UsersResponse(pub Vec<UserResponse>);

/// What a caller sends to have a user made.
#[derive(Debug)]
pub struct CreateUserRequest {
    pub first_name: String,
    pub last_name: String,
    pub email: String,
    pub password: String,
}

/// What a caller sends to have a user changed.
#[derive(Debug)]
pub struct UpdateUserRequest {
    pub first_name: String,
    pub last_name: String,
    pub email: String,
}

/// A user row as contracts see it.
pub struct UserView {
    pub id: Seq<char>,
    pub first_name: Seq<char>,
    pub last_name: Seq<char>,
    pub email: Seq<char>,
    pub password: Seq<char>,
    pub created_at: Timestamp,
    pub updated_at: Timestamp,
}

impl View for User {
    type V = UserView;

    open spec fn view(&self) -> UserView {
        UserView {
            id: self.id@,
            first_name: self.first_name@,
            last_name: self.last_name@,
            email: self.email@,
            password: self.password@,
            created_at: self.created_at,
            updated_at: self.updated_at,
        }
    }
}

impl User {
    /// The row for a new user: the fields of `user`, with `password` in
    /// place of the one in the clear, and the two given times.
    pub fn stamped(
        user: NewUser,
        password: String,
        created_at: Timestamp,
        updated_at: Timestamp,
    ) -> (row: User)
        ensures
            row@ == (UserView {
                id: user.id@,
                first_name: user.first_name@,
                last_name: user.last_name@,
                email: user.email@,
                password: password@,
                created_at,
                updated_at,
            }),
    {
        User {
            id: user.id,
            first_name: user.first_name,
            last_name: user.last_name,
            email: user.email,
            password,
            created_at,
            updated_at,
        }
    }

    /// The row for a new user, stamped with the clock's reading at the
    /// time of the call. `password` is the stored form of the user's
    /// password. The two times are read one after the other and may differ.
    pub fn registered(user: NewUser, password: String) -> (row: User)
        ensures
            row@.id == user.id@,
            row@.first_name == user.first_name@,
            row@.last_name == user.last_name@,
            row@.email == user.email@,
            row@.password == password@,
    {
        let created_at = Timestamp::now();
        let updated_at = Timestamp::now();
        User::stamped(user, password, created_at, updated_at)
    }
}

} // verus!
