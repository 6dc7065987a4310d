//! Whole requests against a working store.
//!
//! [`register_run`] and [`login_run`] are the state machines of
//! [`crate::service`], started on a request and driven to their reply by a
//! store that answers as [`answer`] says. [`registration`] and
//! [`authentication`] say in closed form what such a run comes to, and
//! [`lemma_registration_run`] and [`lemma_authentication_run`] prove it.
//!
//! The remaining lemmas are the laws of a credential's life: a name is
//! registered once, its password logs in, another one does not, a name never
//! registered is unknown, and no request changes a record that exists.

use crate::password::accepts;
use crate::service::{
    hash_yields, login_next, register_next, verifies, ActionView, CredentialsView, LoginState,
    Outcome, RegisterState,
};
use crate::store::{answer, EventView, Records, StoreRequestView};
use vstd::prelude::*;

verus! {

/// Drives a registration from `state` and `event` until it replies, a
/// working store answering each request. `hashed` is what hashing the
/// password gives, `rounds` bounds the requests put to the store. The result
/// is the records afterwards and the outcome, or `None` where the machine
/// has not replied within the bound.
pub open spec fn drive_register(
    records: Records,
    user: CredentialsView,
    state: RegisterState,
    event: EventView,
    hashed: Option<Seq<char>>,
    rounds: nat,
) -> Option<(Records, Outcome)>
    decreases rounds,
{
    let (next, action) = register_next(state, user, event, hashed);
    match action {
        ActionView::Reply(outcome) => Some((records, outcome)),
        ActionView::Ask(request) => if rounds == 0 {
            None
        } else {
            let (after, reply) = answer(records, request);
            drive_register(after, user, next, reply, hashed, (rounds - 1) as nat)
        },
    }
}

/// Drives a login from `state` and `event` until it replies, a working
/// store answering each request. `rounds` bounds the requests put to the
/// store. The result is the records afterwards and the outcome, or `None`
/// where the machine has not replied within the bound.
pub open spec fn drive_login(
    records: Records,
    user: CredentialsView,
    state: LoginState,
    event: EventView,
    rounds: nat,
) -> Option<(Records, Outcome)>
    decreases rounds,
{
    let (next, action) = login_next(state, user, event, verifies(user, event));
    match action {
        ActionView::Reply(outcome) => Some((records, outcome)),
        ActionView::Ask(request) => if rounds == 0 {
            None
        } else {
            let (after, reply) = answer(records, request);
            drive_login(after, user, next, reply, (rounds - 1) as nat)
        },
    }
}

/// A whole registration of `user` on a working store that holds `records`:
/// the machine from its start, with the two requests it may put to the
/// store.
pub open spec fn register_run(
    records: Records,
    user: CredentialsView,
    hashed: Option<Seq<char>>,
) -> Option<(Records, Outcome)> {
    drive_register(records, user, RegisterState::Start, EventView::Request, hashed, 2)
}

/// A whole login of `user` on a working store that holds `records`: the
/// machine from its start, with the one request it may put to the store.
pub open spec fn login_run(records: Records, user: CredentialsView) -> Option<(Records, Outcome)> {
    drive_login(records, user, LoginState::Start, EventView::Request, 1)
}

/// What registering `user` comes to on a working store that holds
/// `records`, when hashing the password gives `hashed`: the records
/// afterwards, and the outcome.
///
/// A username that has a record keeps it and the request ends with
/// `DuplicateUser`. Otherwise the encoding is written under the username
/// and the request ends with `Created`; without an encoding nothing is
/// written and it ends with `HashingFailure`.
pub open spec fn registration(
    records: Records,
    user: CredentialsView,
    hashed: Option<Seq<char>>,
) -> (Records, Outcome) {
    if records.dom().contains(user.username) {
        (records, Outcome::DuplicateUser)
    } else {
        match hashed {
            Some(encoding) => (records.insert(user.username, encoding), Outcome::Created),
            None => (records, Outcome::HashingFailure),
        }
    }
}

/// What logging `user` in comes to on a working store that holds `records`.
///
/// Without a record, or with an empty one, the request ends with
/// `UnknownUser`; otherwise with `Authenticated` where the record verifies
/// the password and with `InvalidCredentials` where it does not.
pub open spec fn authentication(records: Records, user: CredentialsView) -> Outcome {
    if !records.dom().contains(user.username) || records[user.username].len() == 0 {
        Outcome::UnknownUser
    } else if accepts(records[user.username], user.password_bytes()) {
        Outcome::Authenticated
    } else {
        Outcome::InvalidCredentials
    }
}

/// A whole registration replies, and comes to what [`registration`] says.
/// More rounds than two change nothing.
pub proof fn lemma_registration_run(
    records: Records,
    user: CredentialsView,
    hashed: Option<Seq<char>>,
    rounds: nat,
)
    requires
        rounds >= 2,
    ensures
        register_run(records, user, hashed) == Some(registration(records, user, hashed)),
        drive_register(records, user, RegisterState::Start, EventView::Request, hashed, rounds)
            == register_run(records, user, hashed),
{
    reveal_with_fuel(drive_register, 3);
}

/// A whole login replies, leaves the records as they are, and comes to what
/// [`authentication`] says. More rounds than one change nothing.
pub proof fn lemma_authentication_run(records: Records, user: CredentialsView, rounds: nat)
    requires
        rounds >= 1,
    ensures
        login_run(records, user) == Some((records, authentication(records, user))),
        drive_login(records, user, LoginState::Start, EventView::Request, rounds) == login_run(
            records,
            user,
        ),
{
    reveal_with_fuel(drive_login, 2);
}

/// A registration of `first` that went through, whether it wrote the record
/// or found one.
pub open spec fn registered(
    records: Records,
    first: CredentialsView,
    hashed: Option<Seq<char>>,
    after: Records,
) -> bool {
    register_run(records, first, hashed) == Some((after, Outcome::Created)) || register_run(
        records,
        first,
        hashed,
    ) == Some((after, Outcome::DuplicateUser))
}

/// A name is registered once. After a registration that went through,
/// registering the same name again ends with `DuplicateUser` and leaves the
/// records as they are, whatever the second password.
pub proof fn lemma_second_registration_is_refused(
    records: Records,
    first: CredentialsView,
    hashed_first: Option<Seq<char>>,
    after: Records,
    second: CredentialsView,
    hashed_second: Option<Seq<char>>,
)
    requires
        registered(records, first, hashed_first, after),
        second.username == first.username,
    ensures
        register_run(after, second, hashed_second) == Some((after, Outcome::DuplicateUser)),
{
    lemma_registration_run(records, first, hashed_first, 2);
    lemma_registration_run(after, second, hashed_second, 2);
}

/// After a registration that wrote the record, logging in with the same
/// username and password ends with `Authenticated`.
pub proof fn lemma_login_after_registration(
    records: Records,
    user: CredentialsView,
    hashed: Option<Seq<char>>,
    after: Records,
)
    requires
        hash_yields(user.password_bytes(), hashed),
        register_run(records, user, hashed) == Some((after, Outcome::Created)),
    ensures
        login_run(after, user) == Some((after, Outcome::Authenticated)),
{
    lemma_registration_run(records, user, hashed, 2);
    lemma_authentication_run(after, user, 1);
}

/// After a registration that wrote the record, logging in under the same
/// username with a password that the record does not verify ends with
/// `InvalidCredentials`.
pub proof fn lemma_wrong_password_is_refused(
    records: Records,
    user: CredentialsView,
    hashed: Option<Seq<char>>,
    after: Records,
    attempt: CredentialsView,
)
    requires
        hash_yields(user.password_bytes(), hashed),
        register_run(records, user, hashed) == Some((after, Outcome::Created)),
        attempt.username == user.username,
        !accepts(after[user.username], attempt.password_bytes()),
    ensures
        login_run(after, attempt) == Some((after, Outcome::InvalidCredentials)),
{
    lemma_registration_run(records, user, hashed, 2);
    lemma_authentication_run(after, attempt, 1);
}

/// Logging in under a name that has no record ends with `UnknownUser`,
/// whatever the password.
pub proof fn lemma_unregistered_is_unknown(records: Records, user: CredentialsView)
    requires
        !records.dom().contains(user.username),
    ensures
        login_run(records, user) == Some((records, Outcome::UnknownUser)),
{
    lemma_authentication_run(records, user, 1);
}

/// A record, once written, stays: a registration neither removes nor
/// changes the record under any name that has one, its own included.
pub proof fn lemma_registration_keeps_records(
    records: Records,
    user: CredentialsView,
    hashed: Option<Seq<char>>,
    name: Seq<char>,
)
    requires
        records.dom().contains(name),
    ensures
        register_run(records, user, hashed) matches Some((after, _)) && after.dom().contains(name)
            && after[name] == records[name],
{
    lemma_registration_run(records, user, hashed, 2);
}

/// A registration writes under its own username and nowhere else, and
/// writes only where it ends with `Created`.
pub proof fn lemma_registration_writes_its_own_record(
    records: Records,
    user: CredentialsView,
    hashed: Option<Seq<char>>,
)
    ensures
        register_run(records, user, hashed) matches Some((after, outcome)) && (if outcome
            == Outcome::Created {
            hashed matches Some(encoding) && after == records.insert(user.username, encoding)
        } else {
            after == records
        }),
{
    lemma_registration_run(records, user, hashed, 2);
}

/// A login only reads: in no state does it ask the store for anything but
/// the record under its username.
pub proof fn lemma_login_only_reads(
    state: LoginState,
    user: CredentialsView,
    event: EventView,
    verified: bool,
)
    ensures
        login_next(state, user, event, verified).1 matches ActionView::Ask(request) ==> request
            == (StoreRequestView::Get { key: user.username }),
{
}

/// Asking and writing are two requests, and nothing holds the store between
/// them. Two registrations of one free name that both ask before either
/// writes are both told that the name is free; both write, both end with
/// `Created`, and the record is the one written last.
pub proof fn lemma_registrations_can_race(
    records: Records,
    first: CredentialsView,
    first_encoding: Seq<char>,
    second: CredentialsView,
    second_encoding: Seq<char>,
)
    requires
        second.username == first.username,
        !records.dom().contains(first.username),
    ensures
        ({
            let name = first.username;
            let asked = ActionView::Ask(StoreRequestView::Exists { key: name });
            let free = answer(records, StoreRequestView::Exists { key: name });
            let first_put = StoreRequestView::Put { key: name, value: first_encoding };
            let second_put = StoreRequestView::Put { key: name, value: second_encoding };
            let first_written = answer(free.0, first_put);
            let second_written = answer(first_written.0, second_put);
            let created = ActionView::Reply(Outcome::Created);
            &&& register_next(RegisterState::Start, first, EventView::Request, Some(first_encoding))
                == (RegisterState::Checking, asked)
            &&& register_next(
                RegisterState::Start,
                second,
                EventView::Request,
                Some(second_encoding),
            ) == (RegisterState::Checking, asked)
            &&& free == (records, EventView::Exists(false))
            &&& register_next(RegisterState::Checking, first, free.1, Some(first_encoding)) == (
                RegisterState::Storing,
                ActionView::Ask(first_put),
            )
            &&& register_next(RegisterState::Checking, second, free.1, Some(second_encoding)) == (
                RegisterState::Storing,
                ActionView::Ask(second_put),
            )
            &&& register_next(
                RegisterState::Storing,
                first,
                first_written.1,
                Some(first_encoding),
            ).1 == created
            &&& register_next(
                RegisterState::Storing,
                second,
                second_written.1,
                Some(second_encoding),
            ).1 == created
            &&& second_written.0 == records.insert(name, second_encoding)
        }),
{
    assert(records.insert(first.username, first_encoding).insert(first.username, second_encoding)
        =~= records.insert(first.username, second_encoding));
}

} // verus!
