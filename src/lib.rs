//! Session-bound authenticity-token checks for a small form-driven web page:
//! the double-submit rule that guards state-changing requests, and the
//! per-session username, counter and request counter that the handlers keep.
use vstd::prelude::*;

pub mod auth;
pub mod form;
pub mod handlers;
pub mod models;
pub mod session;

pub use auth::{Auth, AuthError, TokenProvider};
pub use handlers::{Handle, HandleError, Page, Route};
pub use models::{AuthenticityToken, Counter, CounterAction, CounterForm, RequestCounter, User};
pub use session::{SessionData, Slot};
