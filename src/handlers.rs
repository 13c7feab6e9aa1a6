use vstd::prelude::*;
use crate::auth::{Auth, AuthError, TokenProvider, auth_status, form_token_of, guard_allows, token_decision};
use crate::form::{decoded_form, field_of, opt_view, pairs_view};
use crate::models::{CounterForm, User, action_in, applied};
use crate::session::SessionData;

verus! {

/// Why a request ends without a page.
#[derive(Clone, Copy, Debug, PartialEq, Eq, Structural)]
pub enum HandleError {
    /// The authenticity-token guard refused the submission.
    Auth(AuthError),
    /// A field that the route needs is missing or holds no accepted value.
    BadForm,
    /// The session could not be read or written, a token could not be
    /// issued, or a counter would leave its range.
    Internal,
}

/// The HTTP status that answers each error.
pub open spec fn handle_status(e: HandleError) -> u16 {
    match e {
        HandleError::Auth(a) => auth_status(a),
        HandleError::BadForm => 400,
        HandleError::Internal => 500,
    }
}

impl HandleError {
    /// The HTTP status that answers the error.
    pub fn status(&self) -> (r: u16)
        ensures
            r == handle_status(*self),
    {
        match self {
            HandleError::Auth(a) => a.status(),
            HandleError::BadForm => 400,
            HandleError::Internal => 500,
        }
    }
}

/// What a response shows; the markup is made from it.
pub struct Page {
    /// The greeted name; `None` where the page asks for one.
    pub username: Option<String>,
    /// The authenticity token that the page's forms carry.
    pub token: String,
    pub counter: i32,
    pub requests: usize,
    /// A whole document, or only the body that replaces the current one.
    pub document: bool,
}

/// The routes that the application serves.
#[derive(Clone, Copy, Debug, PartialEq, Eq, Structural)]
pub enum Route {
    /// `GET /`: show the current state.
    Root,
    /// `POST /username`: set the display name.
    Username,
    /// `POST /counter`: change the counter.
    Counter,
}

/// The route that a method and path name.
pub open spec fn route_of(method: Seq<char>, path: Seq<char>) -> Option<Route> {
    if method == "GET"@ && path == "/"@ {
        Some(Route::Root)
    } else if method == "POST"@ && path == "/username"@ {
        Some(Route::Username)
    } else if method == "POST"@ && path == "/counter"@ {
        Some(Route::Counter)
    } else {
        None
    }
}

/// The routes that change state, and so pass the token guard.
pub open spec fn is_mutating(r: Route) -> bool {
    !(r is Root)
}

impl Route {
    /// The route that a method and path name, if any.
    pub fn of(method: &str, path: &str) -> (r: Option<Route>)
        ensures
            r == route_of(method@, path@),
    {
        let m = method.to_owned();
        let p = path.to_owned();
        if m == "GET".to_owned() && p == "/".to_owned() {
            Some(Route::Root)
        } else if m == "POST".to_owned() && p == "/username".to_owned() {
            Some(Route::Username)
        } else if m == "POST".to_owned() && p == "/counter".to_owned() {
            Some(Route::Counter)
        } else {
            None
        }
    }

    /// Whether the route changes state.
    pub fn mutating(&self) -> (r: bool)
        ensures
            r == is_mutating(*self),
    {
        !matches!(self, Route::Root)
    }
}

/// The session after a root page has been rendered with a token.
pub open spec fn with_token(d: SessionData, token: String) -> SessionData {
    SessionData { authenticity_token: Some(token), ..d }
}

/// The root page of a session, carrying a token.
pub open spec fn root_page(d: SessionData, token: String) -> Page {
    Page {
        username: d.username,
        token,
        counter: d.counter.value,
        requests: d.request_counter.value,
        document: true,
    }
}

/// The guard's part in a result: the refusal it made, or a pass.
pub open spec fn guard_part(r: Result<Page, HandleError>) -> Result<(), AuthError> {
    match r {
        Err(HandleError::Auth(e)) => Err(e),
        _ => Ok(()),
    }
}

/// The session with only its request counter taken from another.
pub open spec fn counted(d: SessionData, after: SessionData) -> SessionData {
    SessionData { request_counter: after.request_counter, ..d }
}

/// After a root page is rendered, the session's token is the one its forms carry.
pub proof fn lemma_root_token_round_trip(d: SessionData, token: String)
    ensures
        with_token(d, token).authenticity_token == Some(root_page(d, token).token),
{
}

/// Of two root pages rendered in a row with different tokens, only the later
/// token is still accepted: a form carrying the earlier one is refused as a
/// mismatch however it verifies, and the later one passes where both verify.
pub proof fn lemma_latest_token_only(
    d: SessionData,
    first: String,
    second: String,
    form: Seq<(Seq<char>, Seq<char>)>,
    r: Result<(), AuthError>,
)
    requires
        first@ != second@,
        form_token_of(form) == Some(first@),
        guard_allows(form, opt_view(with_token(with_token(d, first), second).authenticity_token), r),
    ensures
        r == Err::<(), AuthError>(AuthError::TokenMismatch),
        token_decision(
            Some(second@),
            opt_view(with_token(with_token(d, first), second).authenticity_token),
            true,
            true,
        ) == Ok::<(), AuthError>(()),
{
}

/// A request moved the session's request counter up by exactly one, wherever
/// the counter had room.
pub open spec fn counts_one_request(before: SessionData, after: SessionData) -> bool {
    before.request_counter.value < usize::MAX
        ==> after.request_counter.value == before.request_counter.value + 1
}

/// Over a run of requests on one session, each of which counts itself, the
/// counter after the i-th request is the starting value plus i: the values
/// rise strictly, by exactly one each time, refused requests included.
pub proof fn lemma_requests_count_up(sessions: Seq<SessionData>)
    requires
        forall|i: int| 1 <= i < sessions.len() ==> counts_one_request(sessions[i - 1], #[trigger] sessions[i]),
        forall|i: int| 0 <= i < sessions.len() - 1 ==> (#[trigger] sessions[i]).request_counter.value < usize::MAX,
    ensures
        forall|i: int| 0 <= i < sessions.len()
            ==> (#[trigger] sessions[i]).request_counter.value == sessions[0].request_counter.value + i,
    decreases sessions.len(),
{
    if sessions.len() > 1 {
        let prefix = sessions.drop_last();
        assert forall|i: int| 1 <= i < prefix.len() implies counts_one_request(prefix[i - 1], #[trigger] prefix[i]) by {
            assert(prefix[i] == sessions[i]);
            assert(prefix[i - 1] == sessions[i - 1]);
        }
        assert forall|i: int| 0 <= i < prefix.len() - 1 implies (#[trigger] prefix[i]).request_counter.value < usize::MAX by {
            assert(prefix[i] == sessions[i]);
        }
        lemma_requests_count_up(prefix);
        assert forall|i: int| 0 <= i < sessions.len()
            implies (#[trigger] sessions[i]).request_counter.value == sessions[0].request_counter.value + i by {
            if i < prefix.len() {
                assert(prefix[i] == sessions[i]);
            } else {
                let j = sessions.len() - 1;
                assert(sessions[j - 1] == prefix[j - 1]);
                assert(counts_one_request(sessions[j - 1], sessions[j]));
            }
        }
    }
}

/// The handlers of the routes, over the request's session slots.
pub struct Handle {}

impl Handle {
    /// Renders the root page with a freshly issued token, which replaces the
    /// session's token.
    pub fn show_root(data: &mut SessionData, token: String) -> (page: Page)
        ensures
            *final(data) == with_token(*old(data), token),
            page == root_page(*old(data), token),
    {
        data.authenticity_token = Some(token.clone());
        let username = data.username.clone();
        Page {
            username,
            token,
            counter: data.counter.value,
            requests: data.request_counter.value,
            document: true,
        }
    }

    /// `GET /`: issues a token, stores it in the session and shows the page
    /// that carries it.
    pub fn root<P: TokenProvider>(provider: &P, data: &mut SessionData) -> (r: Result<Page, HandleError>)
        ensures
            r is Err ==> r == Err::<Page, HandleError>(HandleError::Internal) && *final(data) == *old(data),
            r matches Ok(p) ==> {
                &&& *final(data) == with_token(*old(data), p.token)
                &&& p == root_page(*old(data), p.token)
            },
    {
        match provider.issue_token() {
            Some(token) => Ok(Handle::show_root(data, token)),
            None => Err(HandleError::Internal),
        }
    }

    /// `POST /username`, once the guard has passed: stores the submitted name.
    pub fn username(data: &mut SessionData, form_data: &Vec<(String, String)>) -> (r: Result<Page, HandleError>)
        ensures
            field_of(pairs_view(form_data@), "username"@) is None
                ==> r == Err::<Page, HandleError>(HandleError::BadForm),
            field_of(pairs_view(form_data@), "username"@) is Some && old(data).authenticity_token is None
                ==> r == Err::<Page, HandleError>(HandleError::Auth(AuthError::NoSessionToken)),
            field_of(pairs_view(form_data@), "username"@) is Some && old(data).authenticity_token is Some
                ==> r is Ok,
            r is Err ==> *final(data) == *old(data),
            r matches Err(HandleError::Auth(e)) ==> e == AuthError::NoSessionToken && old(data).authenticity_token is None,
            r matches Ok(p) ==> {
                &&& opt_view(p.username) == field_of(pairs_view(form_data@), "username"@)
                &&& *final(data) == SessionData { username: p.username, ..*old(data) }
                &&& old(data).authenticity_token == Some(p.token)
                &&& p.counter == old(data).counter.value
                &&& p.requests == old(data).request_counter.value
                &&& !p.document
            },
    {
        let name = match User::from_form(form_data) {
            Some(u) => u.username,
            None => {
                return Err(HandleError::BadForm);
            },
        };
        let token = match &data.authenticity_token {
            Some(t) => t.clone(),
            None => {
                return Err(HandleError::Auth(AuthError::NoSessionToken));
            },
        };
        data.username = Some(name.clone());
        Ok(Page {
            username: Some(name),
            token,
            counter: data.counter.value,
            requests: data.request_counter.value,
            document: false,
        })
    }

    /// `POST /counter`, once the guard has passed: applies the submitted
    /// action. A missing or unknown action is refused before anything changes.
    pub fn counter(data: &mut SessionData, form_data: &Vec<(String, String)>) -> (r: Result<Page, HandleError>)
        ensures
            action_in(pairs_view(form_data@)) is None ==> r == Err::<Page, HandleError>(HandleError::BadForm),
            action_in(pairs_view(form_data@)) is Some && old(data).authenticity_token is None
                ==> r == Err::<Page, HandleError>(HandleError::Auth(AuthError::NoSessionToken)),
            r is Err ==> *final(data) == *old(data),
            r matches Err(HandleError::Auth(e)) ==> e == AuthError::NoSessionToken && old(data).authenticity_token is None,
            action_in(pairs_view(form_data@)) matches Some(a) ==> (old(data).authenticity_token is Some ==> {
                ||| r is Ok && final(data).counter.value as int == applied(old(data).counter.value as int, a)
                ||| r == Err::<Page, HandleError>(HandleError::Internal)
                    && !(i32::MIN <= applied(old(data).counter.value as int, a) <= i32::MAX)
            }),
            r matches Ok(p) ==> {
                &&& *final(data) == SessionData { counter: final(data).counter, ..*old(data) }
                &&& p == root_page(*final(data), p.token)
                &&& old(data).authenticity_token == Some(p.token)
            },
    {
        let action = match CounterForm::from_form(form_data) {
            Some(f) => f.action,
            None => {
                return Err(HandleError::BadForm);
            },
        };
        let token = match &data.authenticity_token {
            Some(t) => t.clone(),
            None => {
                return Err(HandleError::Auth(AuthError::NoSessionToken));
            },
        };
        if !data.counter.apply(action) {
            return Err(HandleError::Internal);
        }
        let username = data.username.clone();
        Ok(Page {
            username,
            token,
            counter: data.counter.value,
            requests: data.request_counter.value,
            document: true,
        })
    }
}

impl Handle {
    /// One request, from its route to its page. The request is counted first,
    /// whatever becomes of it; a state-changing route then passes the token
    /// guard on its body (`None` where the body could not be read), and only
    /// then reaches its handler.
    pub fn request<P: TokenProvider>(route: Route, provider: &P, data: &mut SessionData, body: Option<&[u8]>) -> (r: Result<Page, HandleError>)
        ensures
            counts_one_request(*old(data), *final(data)),
            old(data).request_counter.value == usize::MAX
                ==> r == Err::<Page, HandleError>(HandleError::Internal) && *final(data) == *old(data),
            r is Err ==> counted(*old(data), *final(data)) == *final(data),
            route is Root ==> (r matches Ok(p) ==> {
                &&& *final(data) == with_token(counted(*old(data), *final(data)), p.token)
                &&& p == root_page(*final(data), p.token)
            }),
            is_mutating(route) && old(data).request_counter.value < usize::MAX ==> {
                &&& body is None ==> r == Err::<Page, HandleError>(HandleError::Auth(AuthError::BodyReadError))
                &&& body matches Some(b) ==> {
                    &&& decoded_form(b@) is None
                        ==> r == Err::<Page, HandleError>(HandleError::Auth(AuthError::MalformedForm))
                    &&& decoded_form(b@) matches Some(f)
                        ==> guard_allows(f, opt_view(old(data).authenticity_token), guard_part(r))
                }
            },
            route is Root && r is Err ==> r == Err::<Page, HandleError>(HandleError::Internal),
            is_mutating(route) && old(data).request_counter.value < usize::MAX ==> (body matches Some(b)
                ==> (decoded_form(b@) matches Some(f) ==> (!(r matches Err(HandleError::Auth(_))) ==> {
                &&& route is Username ==> (r is Ok <==> field_of(f, "username"@) is Some)
                &&& route is Counter ==> (action_in(f) is None ==> r == Err::<Page, HandleError>(HandleError::BadForm))
                &&& route is Counter ==> (action_in(f) matches Some(a) ==> (
                    i32::MIN <= applied(old(data).counter.value as int, a) <= i32::MAX ==> r is Ok))
            }))),
            is_mutating(route) && r is Ok ==> final(data).authenticity_token == old(data).authenticity_token,
            route is Username ==> (r matches Ok(p) ==> {
                &&& body matches Some(b) && decoded_form(b@) matches Some(f)
                    && opt_view(p.username) == field_of(f, "username"@)
                &&& *final(data) == SessionData { username: p.username, ..counted(*old(data), *final(data)) }
            }),
            route is Counter && r is Ok ==> {
                &&& body matches Some(b) && decoded_form(b@) matches Some(f)
                    && action_in(f) matches Some(a)
                    && final(data).counter.value as int == applied(old(data).counter.value as int, a)
                &&& *final(data) == SessionData { counter: final(data).counter, ..counted(*old(data), *final(data)) }
            },
    {
        if !data.request_counter.bump() {
            return Err(HandleError::Internal);
        }
        match route {
            Route::Root => Handle::root(provider, data),
            Route::Username | Route::Counter => {
                let bytes = match body {
                    Some(b) => b,
                    None => {
                        return Err(HandleError::Auth(AuthError::BodyReadError));
                    },
                };
                let form_data = match Auth::check_body(provider, data, bytes) {
                    Ok(f) => f,
                    Err(e) => {
                        return Err(HandleError::Auth(e));
                    },
                };
                match route {
                    Route::Username => Handle::username(data, &form_data),
                    _ => Handle::counter(data, &form_data),
                }
            },
        }
    }
}

} // verus!
