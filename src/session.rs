use vstd::prelude::*;
use tower_sessions::Session;
use crate::handlers::HandleError;
use crate::models::{AuthenticityToken, Counter, RequestCounter, User};

verus! {

/// A visitor's session, shared by the requests that present its cookie.
#[verifier::external_type_specification]
#[verifier::external_body]
pub struct ExSession(tower_sessions::Session);

/// Errors of the session's value (de)serialisation.
#[verifier::external_type_specification]
#[verifier::external_body]
pub struct ExSessionError(tower_sessions::session::Error);

/// Relies on tower_sessions::Session::get: reads a slot and deserialises it
/// as a string. What it finds depends on the session's current contents, so
/// nothing is stated of it.
#[verifier::external_body]
fn read_string(session: &Session, key: &str) -> (r: Result<Option<String>, tower_sessions::session::Error>)
{
    session.get::<String>(key)
}

/// Relies on tower_sessions::Session::get, as `read_string`, for an `i32`.
#[verifier::external_body]
fn read_i32(session: &Session, key: &str) -> (r: Result<Option<i32>, tower_sessions::session::Error>)
{
    session.get::<i32>(key)
}

/// Relies on tower_sessions::Session::get, as `read_string`, for a `usize`.
#[verifier::external_body]
fn read_usize(session: &Session, key: &str) -> (r: Result<Option<usize>, tower_sessions::session::Error>)
{
    session.get::<usize>(key)
}

/// Relies on tower_sessions::Session::insert: serialises a string into a slot.
#[verifier::external_body]
fn write_string(session: &Session, key: &str, value: &String) -> (r: Result<(), tower_sessions::session::Error>)
{
    session.insert(key, value)
}

/// Relies on tower_sessions::Session::insert, as `write_string`, for an `i32`.
#[verifier::external_body]
fn write_i32(session: &Session, key: &str, value: i32) -> (r: Result<(), tower_sessions::session::Error>)
{
    session.insert(key, value)
}

/// Relies on tower_sessions::Session::insert, as `write_string`, for a `usize`.
#[verifier::external_body]
fn write_usize(session: &Session, key: &str, value: usize) -> (r: Result<(), tower_sessions::session::Error>)
{
    session.insert(key, value)
}

/// One slot as read from the session.
pub enum Slot<T> {
    Absent,
    Present(T),
    /// The slot holds something that does not deserialise to the expected type.
    Unreadable,
}

/// The slots that this application keeps for a session, read once per request
/// and written back after it.
pub struct SessionData {
    pub username: Option<String>,
    pub authenticity_token: Option<String>,
    pub counter: Counter,
    pub request_counter: RequestCounter,
}

fn slot_of<T>(r: Result<Option<T>, tower_sessions::session::Error>) -> (s: Slot<T>)
    ensures
        r matches Ok(Some(v)) ==> s == Slot::Present(v),
        r matches Ok(None) ==> s is Absent,
        r is Err ==> s is Unreadable,
{
    match r {
        Ok(Some(v)) => Slot::Present(v),
        Ok(None) => Slot::Absent,
        Err(_) => Slot::Unreadable,
    }
}

impl SessionData {
    /// A session that has never been written to.
    pub fn fresh() -> (r: SessionData)
        ensures
            r.username is None,
            r.authenticity_token is None,
            r.counter.value == 0,
            r.request_counter.value == 0,
    {
        SessionData {
            username: None,
            authenticity_token: None,
            counter: Counter::new(),
            request_counter: RequestCounter::new(),
        }
    }

    /// Assembles the slots read from a session. An absent counter counts as
    /// zero. An unreadable username or counter is a fault; an unreadable token
    /// counts as no token, so that the guard refuses the submission.
    pub fn from_slots(username: Slot<String>, token: Slot<String>, counter: Slot<i32>, requests: Slot<usize>) -> (r: Result<SessionData, HandleError>)
        ensures
            r is Err <==> (username is Unreadable || counter is Unreadable || requests is Unreadable),
            r is Err ==> r == Err::<SessionData, HandleError>(HandleError::Internal),
            r matches Ok(d) ==> {
                &&& d.username == (match username { Slot::Present(u) => Some(u), _ => None::<String> })
                &&& d.authenticity_token == (match token { Slot::Present(t) => Some(t), _ => None::<String> })
                &&& d.counter.value == (match counter { Slot::Present(c) => c, _ => 0 })
                &&& d.request_counter.value == (match requests { Slot::Present(n) => n, _ => 0 })
            },
    {
        let username = match username {
            Slot::Present(u) => Some(u),
            Slot::Absent => None,
            Slot::Unreadable => {
                return Err(HandleError::Internal);
            },
        };
        let counter = match counter {
            Slot::Present(c) => Counter { value: c },
            Slot::Absent => Counter::new(),
            Slot::Unreadable => {
                return Err(HandleError::Internal);
            },
        };
        let request_counter = match requests {
            Slot::Present(n) => RequestCounter { value: n },
            Slot::Absent => RequestCounter::new(),
            Slot::Unreadable => {
                return Err(HandleError::Internal);
            },
        };
        let authenticity_token = match token {
            Slot::Present(t) => Some(t),
            _ => None,
        };
        Ok(SessionData { username, authenticity_token, counter, request_counter })
    }

    /// Reads this application's slots from a session.
    pub fn load(session: &Session) -> (r: Result<SessionData, HandleError>)
        ensures
            r is Err ==> r == Err::<SessionData, HandleError>(HandleError::Internal),
    {
        let username = slot_of(read_string(session, User::KEY));
        let token = slot_of(read_string(session, AuthenticityToken::KEY));
        let counter = slot_of(read_i32(session, Counter::KEY));
        let requests = slot_of(read_usize(session, RequestCounter::KEY));
        SessionData::from_slots(username, token, counter, requests)
    }

    /// Writes this application's slots back into a session; a slot that holds
    /// nothing is left as it is.
    pub fn store(&self, session: &Session) -> (r: Result<(), HandleError>)
        ensures
            r is Err ==> r == Err::<(), HandleError>(HandleError::Internal),
    {
        if let Some(u) = &self.username {
            if write_string(session, User::KEY, u).is_err() {
                return Err(HandleError::Internal);
            }
        }
        if let Some(t) = &self.authenticity_token {
            if write_string(session, AuthenticityToken::KEY, t).is_err() {
                return Err(HandleError::Internal);
            }
        }
        if write_i32(session, Counter::KEY, self.counter.value).is_err() {
            return Err(HandleError::Internal);
        }
        if write_usize(session, RequestCounter::KEY, self.request_counter.value).is_err() {
            return Err(HandleError::Internal);
        }
        Ok(())
    }
}

} // verus!
