use vstd::prelude::*;

verus! {

/// A row of the `users` table.
#[derive(Debug)]
pub struct User {
    pub username: String,
    pub email: String,
    pub password: String,
}

/// The three text fields of a user record or of a request payload that carries all three.
pub struct UserView {
    pub username: Seq<char>,
    pub email: Seq<char>,
    pub password: Seq<char>,
}

impl View for User {
    type V = UserView;

    open spec fn view(&self) -> UserView {
        UserView { username: self.username@, email: self.email@, password: self.password@ }
    }
}

impl User {
    /// A field-by-field copy.
    pub fn copied(&self) -> (r: User)
        ensures
            r@ == self@,
    {
        User {
            username: self.username.clone(),
            email: self.email.clone(),
            password: self.password.clone(),
        }
    }
}

/// The envelope of every request body: `{ "user": ... }`.
pub struct In<T> {
    pub user: T,
}

/// Body of `PUT /users/{username}`.
#[derive(Debug)]
pub struct UserUpdate {
    pub username: String,
    pub email: String,
    pub password: String,
}

impl View for UserUpdate {
    type V = UserView;

    open spec fn view(&self) -> UserView {
        UserView { username: self.username@, email: self.email@, password: self.password@ }
    }
}

/// Body of `POST /users/register`.
#[derive(Debug)]
pub struct UserRegister {
    pub username: String,
    pub email: String,
    pub password: String,
}

impl View for UserRegister {
    type V = UserView;

    open spec fn view(&self) -> UserView {
        UserView { username: self.username@, email: self.email@, password: self.password@ }
    }
}

/// Body of `POST /users/login`.
#[derive(Debug)]
pub struct UserLogin {
    pub username: String,
    pub password: String,
}

pub struct LoginView {
    pub username: Seq<char>,
    pub password: Seq<char>,
}

impl View for UserLogin {
    type V = LoginView;

    open spec fn view(&self) -> LoginView {
        LoginView { username: self.username@, password: self.password@ }
    }
}

} // verus!
