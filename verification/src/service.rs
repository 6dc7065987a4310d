//! Registration and login.
//!
//! Each operation is a small state machine. It is told what happened (an
//! [`Event`]) and answers with what to do next (an [`Action`]): put a
//! request to the store, or reply to the client. It never waits and never
//! performs I/O, so the caller is free to run it on whatever connection and
//! runtime it has:
//!
//! ```text
//! state = Start, event = Request
//! loop:
//!     (state, action) = register(state, user, event)
//!     Ask(request)   -> event = what the store said to `request`
//!     Reply(outcome) -> answer the client with status_code(outcome); stop
//! ```
//!
//! Hashing and verifying are the only steps whose results are not plain
//! functions of what the machine can see in its arguments. [`register_step`]
//! and [`login_step`] are the machines with those results passed in;
//! [`register`] and [`login`] compute them and step.

use crate::password::{accepts, fresh_hash, hash, hashable, verify, MAX_PASSWORD_LEN};
use crate::store::{Event, EventView, StoreRequest, StoreRequestView};
use vstd::prelude::*;

verus! {

/// A username and a password, as a client sends them.
#[derive(Clone, Debug, PartialEq, Eq)]
pub struct Credentials {
    pub username: String,
    pub password: String,
}

/// [`Credentials`] with the strings as sequences of characters.
pub struct CredentialsView {
    pub username: Seq<char>,
    pub password: Seq<char>,
}

impl View for Credentials {
    type V = CredentialsView;

    open spec fn view(&self) -> CredentialsView {
        CredentialsView { username: self.username@, password: self.password@ }
    }
}

impl CredentialsView {
    /// The bytes that are hashed: the password in UTF-8.
    pub open spec fn password_bytes(self) -> Seq<u8> {
        vstd::utf8::encode_utf8(self.password)
    }
}

/// How a request ended.
#[derive(Clone, Copy, Debug, PartialEq, Eq, Structural)]
pub enum Outcome {
    /// Registration: the record is written.
    Created,
    /// Login: the password verifies against the record.
    Authenticated,
    /// Registration: the username has a record already.
    DuplicateUser,
    /// Login: the username has no record, or an empty one.
    UnknownUser,
    /// Login: the password does not verify against the record.
    InvalidCredentials,
    /// The store could not be reached, or answered something else than it
    /// was asked.
    StoreUnavailable,
    /// The password could not be hashed.
    HashingFailure,
}

/// What the caller is to do next.
#[derive(Clone, Debug, PartialEq, Eq)]
pub enum Action {
    /// Put the request to the store and come back with its answer.
    Ask(StoreRequest),
    /// Answer the client; the request is over.
    Reply(Outcome),
}

/// An [`Action`] with its strings as sequences of characters.
pub enum ActionView {
    Ask(StoreRequestView),
    Reply(Outcome),
}

impl View for Action {
    type V = ActionView;

    open spec fn view(&self) -> ActionView {
        match *self {
            Action::Ask(request) => ActionView::Ask(request@),
            Action::Reply(outcome) => ActionView::Reply(outcome),
        }
    }
}

/// Where a registration stands.
#[derive(Clone, Copy, Debug, PartialEq, Eq, Structural)]
pub enum RegisterState {
    /// Nothing asked yet.
    Start,
    /// Asked whether the username is taken.
    Checking,
    /// Asked to write the record.
    Storing,
    /// Over, with this outcome.
    Finished(Outcome),
}

/// Where a login stands.
#[derive(Clone, Copy, Debug, PartialEq, Eq, Structural)]
pub enum LoginState {
    /// Nothing asked yet.
    Start,
    /// Asked for the record.
    Fetching,
    /// Over, with this outcome.
    Finished(Outcome),
}

/// The HTTP status that answers each outcome.
pub open spec fn status_of(outcome: Outcome) -> u16 {
    match outcome {
        Outcome::Created => 201,
        Outcome::Authenticated => 200,
        Outcome::DuplicateUser => 400,
        Outcome::UnknownUser => 400,
        Outcome::InvalidCredentials => 401,
        Outcome::StoreUnavailable => 503,
        Outcome::HashingFailure => 500,
    }
}

/// The HTTP status that answers `outcome`: 201 for a new record, 200 for a
/// login, 400 for a taken or an unknown username, 401 for a wrong password,
/// and a server error where the store (503) or the hashing (500) failed.
pub fn status_code(outcome: Outcome) -> (code: u16)
    ensures
        code == status_of(outcome),
{
    match outcome {
        Outcome::Created => 201,
        Outcome::Authenticated => 200,
        Outcome::DuplicateUser => 400,
        Outcome::UnknownUser => 400,
        Outcome::InvalidCredentials => 401,
        Outcome::StoreUnavailable => 503,
        Outcome::HashingFailure => 500,
    }
}

/// A registration that ends with `outcome`.
pub open spec fn registration_over(outcome: Outcome) -> (RegisterState, ActionView) {
    (RegisterState::Finished(outcome), ActionView::Reply(outcome))
}

/// A login that ends with `outcome`.
pub open spec fn login_over(outcome: Outcome) -> (LoginState, ActionView) {
    (LoginState::Finished(outcome), ActionView::Reply(outcome))
}

/// One step of a registration. `hashed` is what hashing the password gave,
/// `None` where it failed; it is read only when the store has just said
/// that the username is free.
///
/// * `Start`: ask whether the username is taken.
/// * `Checking`: taken ends the request with `DuplicateUser`. Free asks the
///   store to write the encoding under the username, or ends with
///   `HashingFailure` where there is none.
/// * `Storing`: written ends the request with `Created`.
/// * A failed store, or an answer to another question, ends the request
///   with `StoreUnavailable`.
/// * `Finished`: the outcome stays.
pub open spec fn register_next(
    state: RegisterState,
    user: CredentialsView,
    event: EventView,
    hashed: Option<Seq<char>>,
) -> (RegisterState, ActionView) {
    match state {
        RegisterState::Start => (
            RegisterState::Checking,
            ActionView::Ask(StoreRequestView::Exists { key: user.username }),
        ),
        RegisterState::Checking => match event {
            EventView::Exists(true) => registration_over(Outcome::DuplicateUser),
            EventView::Exists(false) => match hashed {
                Some(encoding) => (
                    RegisterState::Storing,
                    ActionView::Ask(StoreRequestView::Put { key: user.username, value: encoding }),
                ),
                None => registration_over(Outcome::HashingFailure),
            },
            _ => registration_over(Outcome::StoreUnavailable),
        },
        RegisterState::Storing => match event {
            EventView::Stored => registration_over(Outcome::Created),
            _ => registration_over(Outcome::StoreUnavailable),
        },
        RegisterState::Finished(outcome) => registration_over(outcome),
    }
}

/// One step of a login. `verified` says whether the password verifies
/// against the record that the store returned; it is read only when there is
/// a record and it is not empty.
///
/// * `Start`: ask for the record under the username.
/// * `Fetching`: no record, or an empty one, ends the request with
///   `UnknownUser`; otherwise it ends with `Authenticated` or
///   `InvalidCredentials` as `verified` says.
/// * A failed store, or an answer to another question, ends the request
///   with `StoreUnavailable`.
/// * `Finished`: the outcome stays.
pub open spec fn login_next(
    state: LoginState,
    user: CredentialsView,
    event: EventView,
    verified: bool,
) -> (LoginState, ActionView) {
    match state {
        LoginState::Start => (
            LoginState::Fetching,
            ActionView::Ask(StoreRequestView::Get { key: user.username }),
        ),
        LoginState::Fetching => match event {
            EventView::Value(Some(record)) => if record.len() == 0 {
                login_over(Outcome::UnknownUser)
            } else if verified {
                login_over(Outcome::Authenticated)
            } else {
                login_over(Outcome::InvalidCredentials)
            },
            EventView::Value(None) => login_over(Outcome::UnknownUser),
            _ => login_over(Outcome::StoreUnavailable),
        },
        LoginState::Finished(outcome) => login_over(outcome),
    }
}

/// Whether a registration in `state`, told `event`, needs the password's
/// hash to go on.
pub open spec fn wants_hash(state: RegisterState, event: EventView) -> bool {
    state is Checking && event matches EventView::Exists(false)
}

/// Whether `hashed` can be what hashing `password` gives: an encoding fresh
/// for it, or nothing where Argon2 does not take the password.
pub open spec fn hash_yields(password: Seq<u8>, hashed: Option<Seq<char>>) -> bool {
    match hashed {
        Some(encoding) => hashable(password) && fresh_hash(encoding, password),
        None => !hashable(password),
    }
}

/// The encoding that `action` asks the store to write, if it asks for that.
pub open spec fn written(action: ActionView) -> Option<Seq<char>> {
    match action {
        ActionView::Ask(StoreRequestView::Put { key, value }) => Some(value),
        _ => None,
    }
}

/// Whether the password of `user` verifies against the record that `event`
/// carries.
pub open spec fn verifies(user: CredentialsView, event: EventView) -> bool {
    event matches EventView::Value(Some(record)) && accepts(record, user.password_bytes())
}

/// One step of a registration, with the result of hashing handed in.
pub fn register_step(
    state: RegisterState,
    new_user: &Credentials,
    event: &Event,
    hashed: Option<String>,
) -> (next: (RegisterState, Action))
    ensures
        (next.0, next.1@) == register_next(
            state,
            new_user@,
            event@,
            match hashed {
                Some(encoding) => Some(encoding@),
                None => None,
            },
        ),
{
    let outcome = match state {
        RegisterState::Start => {
            let key = new_user.username.clone();
            return (RegisterState::Checking, Action::Ask(StoreRequest::Exists { key }));
        },
        RegisterState::Checking => match event {
            Event::Exists(true) => Outcome::DuplicateUser,
            Event::Exists(false) => match hashed {
                Some(value) => {
                    let key = new_user.username.clone();
                    return (RegisterState::Storing, Action::Ask(StoreRequest::Put { key, value }));
                },
                None => Outcome::HashingFailure,
            },
            _ => Outcome::StoreUnavailable,
        },
        RegisterState::Storing => match event {
            Event::Stored => Outcome::Created,
            _ => Outcome::StoreUnavailable,
        },
        RegisterState::Finished(outcome) => outcome,
    };
    (RegisterState::Finished(outcome), Action::Reply(outcome))
}

/// One step of a registration.
///
/// Steps as [`register_next`] says. When the store has just said that the
/// username is free, the password is hashed under a fresh salt and the
/// store is asked to write the encoding; a password too long for Argon2
/// ends the request with `HashingFailure` instead. The salt is drawn
/// anew in every call, so the contract names the encoding by where it ends
/// up: in the request that the action carries.
///
/// Asking and writing are two requests to the store, and nothing holds the
/// store between them: see [`crate::lifecycle::lemma_registrations_can_race`].
pub fn register(state: RegisterState, new_user: &Credentials, event: &Event) -> (next: (
    RegisterState,
    Action,
))
    ensures
        (next.0, next.1@) == register_next(state, new_user@, event@, written(next.1@)),
        wants_hash(state, event@) ==> hash_yields(new_user@.password_bytes(), written(next.1@)),
{
    let needed = match state {
        RegisterState::Checking => match event {
            Event::Exists(false) => true,
            _ => false,
        },
        _ => false,
    };
    let hashed = if needed {
        let password = new_user.password.as_str().as_bytes();
        if password.len() <= MAX_PASSWORD_LEN {
            Some(hash(password))
        } else {
            None
        }
    } else {
        None
    };
    register_step(state, new_user, event, hashed)
}

/// One step of a login, with the result of verifying handed in.
pub fn login_step(
    state: LoginState,
    credentials: &Credentials,
    event: &Event,
    verified: bool,
) -> (next: (LoginState, Action))
    ensures
        (next.0, next.1@) == login_next(state, credentials@, event@, verified),
{
    let outcome = match state {
        LoginState::Start => {
            let key = credentials.username.clone();
            return (LoginState::Fetching, Action::Ask(StoreRequest::Get { key }));
        },
        LoginState::Fetching => match event {
            Event::Value(Some(record)) => {
                if record.as_str().is_empty() {
                    Outcome::UnknownUser
                } else if verified {
                    Outcome::Authenticated
                } else {
                    Outcome::InvalidCredentials
                }
            },
            Event::Value(None) => Outcome::UnknownUser,
            _ => Outcome::StoreUnavailable,
        },
        LoginState::Finished(outcome) => outcome,
    };
    (LoginState::Finished(outcome), Action::Reply(outcome))
}

/// One step of a login.
///
/// Steps as [`login_next`] says, with the password verified against the
/// record that the store returned.
pub fn login(state: LoginState, credentials: &Credentials, event: &Event) -> (next: (
    LoginState,
    Action,
))
    ensures
        (next.0, next.1@) == login_next(
            state,
            credentials@,
            event@,
            verifies(credentials@, event@),
        ),
{
    let verified = match state {
        LoginState::Fetching => match event {
            Event::Value(Some(record)) => !record.as_str().is_empty() && verify(
                record.as_str(),
                credentials.password.as_str().as_bytes(),
            ),
            _ => false,
        },
        _ => false,
    };
    login_step(state, credentials, event, verified)
}

} // verus!
