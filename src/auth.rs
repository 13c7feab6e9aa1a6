use vstd::prelude::*;
use axum_csrf::{CsrfError, CsrfToken};
use crate::form::{decode_form, decoded_form, field, field_of, opt_view, pairs_view};
use crate::models::AuthenticityToken;
use crate::session::SessionData;

verus! {

/// Why the authenticity-token guard refuses a submission.
#[derive(Clone, Copy, Debug, PartialEq, Eq, Structural)]
pub enum AuthError {
    /// The request body could not be read.
    BodyReadError,
    /// The body is not a urlencoded form.
    MalformedForm,
    /// The form carries no `authenticity_token` field.
    MissingToken,
    /// The session holds no token to compare with.
    NoSessionToken,
    /// The two copies differ, or one of them does not verify.
    TokenMismatch,
}

/// The token capability of the request: it issues the token that a rendered
/// form carries, and verifies tokens that come back.
#[verifier::external_type_specification]
#[verifier::external_body]
pub struct ExCsrfToken(axum_csrf::CsrfToken);

/// Errors of the token capability.
#[verifier::external_type_specification]
#[verifier::external_body]
pub struct ExCsrfError(axum_csrf::CsrfError);

/// Relies on axum_csrf::CsrfToken::authenticity_token: the token to embed in a
/// rendered form, the base64 of an HMAC of the request's cookie token. HMAC
/// takes a key of any length and base64 encoding cannot fail, so it always
/// succeeds; the value depends on the cookie token inside the opaque value,
/// so nothing more is stated of it.
pub assume_specification[ CsrfToken::authenticity_token ](token: &CsrfToken) -> (r: Result<String, CsrfError>)
    ensures
        r is Ok,
;

/// Relies on axum_csrf::CsrfToken::verify: `Ok` where the text is the MAC of
/// the request's cookie token. That token lives inside the opaque value, so
/// nothing is stated of the outcome.
pub assume_specification[ CsrfToken::verify ](token: &CsrfToken, form_authenticity_token: &str) -> Result<(), CsrfError>;

/// Issues and verifies authenticity tokens; it knows nothing of sessions.
pub trait TokenProvider {
    /// A token for a freshly rendered form; `None` where none can be made.
    fn issue_token(&self) -> Option<String>;

    /// Whether a token is one that this provider's issuance produces.
    fn verify_token(&self, candidate: &str) -> bool;
}

impl TokenProvider for CsrfToken {
    fn issue_token(&self) -> Option<String> {
        self.authenticity_token().ok()
    }

    fn verify_token(&self, candidate: &str) -> bool {
        self.verify(candidate).is_ok()
    }
}

impl AuthError {
    /// The HTTP status that answers the refusal.
    pub fn status(&self) -> (r: u16)
        ensures
            r == auth_status(*self),
    {
        match self {
            AuthError::BodyReadError => 500,
            AuthError::MalformedForm => 400,
            AuthError::MissingToken => 400,
            AuthError::NoSessionToken => 401,
            AuthError::TokenMismatch => 401,
        }
    }
}

/// The HTTP status that answers each refusal: a failed read is the server's
/// fault, a bad form the client's, a token problem an authorization failure.
pub open spec fn auth_status(e: AuthError) -> u16 {
    match e {
        AuthError::BodyReadError => 500,
        AuthError::MalformedForm => 400,
        AuthError::MissingToken => 400,
        AuthError::NoSessionToken => 401,
        AuthError::TokenMismatch => 401,
    }
}

/// The double-submit rule, given whether each copy verified on its own: the
/// form must carry a token, the session must hold one, and the two must be
/// equal and both verify.
pub open spec fn token_decision(
    form_token: Option<Seq<char>>,
    session_token: Option<Seq<char>>,
    form_verified: bool,
    session_verified: bool,
) -> Result<(), AuthError> {
    match form_token {
        None => Err(AuthError::MissingToken),
        Some(f) => match session_token {
            None => Err(AuthError::NoSessionToken),
            Some(s) => if f == s && form_verified && session_verified {
                Ok(())
            } else {
                Err(AuthError::TokenMismatch)
            },
        },
    }
}

/// The token field of a decoded form.
pub open spec fn form_token_of(form: Seq<(Seq<char>, Seq<char>)>) -> Option<Seq<char>> {
    field_of(form, "authenticity_token"@)
}

/// The guard's verdict on a form and a session token, for some outcome of the
/// two verifications.
pub open spec fn guard_allows(
    form: Seq<(Seq<char>, Seq<char>)>,
    session_token: Option<Seq<char>>,
    r: Result<(), AuthError>,
) -> bool {
    exists|fv: bool, sv: bool| r == token_decision(form_token_of(form), session_token, fv, sv)
}

/// A form token equal to the session's token, where both verify, is accepted.
pub proof fn lemma_matching_pair_accepted(token: Seq<char>)
    ensures
        token_decision(Some(token), Some(token), true, true) == Ok::<(), AuthError>(()),
{
}

/// A form token that differs from the session's token is refused as a
/// mismatch, with an unauthorized status, however each copy verifies on its own.
pub proof fn lemma_mismatch_unauthorized(
    form: Seq<(Seq<char>, Seq<char>)>,
    session_token: Seq<char>,
    r: Result<(), AuthError>,
)
    requires
        form_token_of(form) is Some,
        form_token_of(form) != Some(session_token),
        guard_allows(form, Some(session_token), r),
    ensures
        r == Err::<(), AuthError>(AuthError::TokenMismatch),
        auth_status(AuthError::TokenMismatch) == 401,
{
}

/// A form without a token field is refused as a bad request, never as
/// unauthorized, whatever the session holds.
pub proof fn lemma_missing_token_bad_request(
    form: Seq<(Seq<char>, Seq<char>)>,
    session_token: Option<Seq<char>>,
    r: Result<(), AuthError>,
)
    requires
        form_token_of(form) is None,
        guard_allows(form, session_token, r),
    ensures
        r == Err::<(), AuthError>(AuthError::MissingToken),
        auth_status(AuthError::MissingToken) == 400,
{
}

/// The guard of state-changing requests: it checks the form copy of the
/// authenticity token against the session copy.
pub struct Auth {}

impl Auth {
    /// Decodes a submitted body; `MalformedForm` where it is no urlencoded form.
    pub fn parse_form_data(bytes: &[u8]) -> (r: Result<Vec<(String, String)>, AuthError>)
        ensures
            r is Err <==> decoded_form(bytes@) is None,
            r is Err ==> r == Err::<Vec<(String, String)>, AuthError>(AuthError::MalformedForm),
            r matches Ok(v) ==> decoded_form(bytes@) == Some(pairs_view(v@)),
    {
        match decode_form(bytes) {
            Ok(v) => Ok(v),
            Err(_) => Err(AuthError::MalformedForm),
        }
    }

    /// The double-submit rule on the two copies, given whether each verified.
    pub fn check_tokens(
        form_token: &Option<String>,
        session_token: &Option<String>,
        form_verified: bool,
        session_verified: bool,
    ) -> (r: Result<(), AuthError>)
        ensures
            r == token_decision(opt_view(*form_token), opt_view(*session_token), form_verified, session_verified),
    {
        match form_token {
            None => Err(AuthError::MissingToken),
            Some(f) => match session_token {
                None => Err(AuthError::NoSessionToken),
                Some(s) => if *f == *s && form_verified && session_verified {
                    Ok(())
                } else {
                    Err(AuthError::TokenMismatch)
                },
            },
        }
    }

    /// Checks a decoded form against the session's token, verifying each copy
    /// with the request's token capability.
    pub fn validate_tokens<P: TokenProvider>(token: &P, data: &SessionData, form_data: &Vec<(String, String)>) -> (r: Result<(), AuthError>)
        ensures
            guard_allows(pairs_view(form_data@), opt_view(data.authenticity_token), r),
    {
        let form_token = field(form_data, AuthenticityToken::KEY);
        let (form_verified, session_verified) = match &form_token {
            Some(f) => match &data.authenticity_token {
                Some(t) => (token.verify_token(f.as_str()), token.verify_token(t.as_str())),
                None => (false, false),
            },
            None => (false, false),
        };
        let r = Auth::check_tokens(&form_token, &data.authenticity_token, form_verified, session_verified);
        proof {
            reveal_strlit("authenticity_token");
        }
        assert(r == token_decision(form_token_of(pairs_view(form_data@)), opt_view(data.authenticity_token), form_verified, session_verified));
        r
    }

    /// The guard on a submitted body: decode it, then check its token.
    pub fn check_body<P: TokenProvider>(token: &P, data: &SessionData, bytes: &[u8]) -> (r: Result<Vec<(String, String)>, AuthError>)
        ensures
            decoded_form(bytes@) is None ==> r == Err::<Vec<(String, String)>, AuthError>(AuthError::MalformedForm),
            decoded_form(bytes@) matches Some(form) ==> {
                &&& guard_allows(form, opt_view(data.authenticity_token), match r {
                    Ok(_) => Ok(()),
                    Err(e) => Err(e),
                })
                &&& r matches Ok(v) ==> pairs_view(v@) == form
            },
    {
        let form_data = Auth::parse_form_data(bytes)?;
        match Auth::validate_tokens(token, data, &form_data) {
            Ok(()) => Ok(form_data),
            Err(e) => Err(e),
        }
    }
}

} // verus!
