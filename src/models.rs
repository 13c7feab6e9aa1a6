use vstd::prelude::*;
use crate::form::{field, field_of, opt_view, pairs_view};

verus! {

/// Session slot that holds the display name.
pub struct User {
    pub username: String,
}

impl User {
    pub const KEY: &'static str = "username";

    /// The user that a submitted form names; `None` without a `username` field.
    pub fn from_form(form_data: &Vec<(String, String)>) -> (r: Option<User>)
        ensures
            opt_view(match r { Some(u) => Some(u.username), None => None::<String> })
                == field_of(pairs_view(form_data@), "username"@),
    {
        proof {
            reveal_strlit("username");
        }
        match field(form_data, User::KEY) {
            Some(username) => Some(User { username }),
            None => None,
        }
    }
}

/// Session slot that holds the authenticity token of the last rendered form.
pub struct AuthenticityToken {
    pub token: String,
}

impl AuthenticityToken {
    pub const KEY: &'static str = "authenticity_token";
}

/// What a counter form asks for.
#[derive(Clone, Copy, Debug, PartialEq, Eq, Structural)]
pub enum CounterAction {
    Increment,
    Decrement,
}

/// The name under which each action travels in a form.
pub open spec fn action_name(a: CounterAction) -> Seq<char> {
    match a {
        CounterAction::Increment => "Increment"@,
        CounterAction::Decrement => "Decrement"@,
    }
}

/// The action that a form value names, if any.
pub open spec fn action_of(s: Seq<char>) -> Option<CounterAction> {
    if s == "Increment"@ {
        Some(CounterAction::Increment)
    } else if s == "Decrement"@ {
        Some(CounterAction::Decrement)
    } else {
        None
    }
}

impl CounterAction {
    /// Reads an action from its name; any other text is refused.
    pub fn from_str(s: &str) -> (r: Result<CounterAction, ()>)
        ensures
            r matches Ok(a) ==> action_of(s@) == Some(a),
            r is Err <==> action_of(s@) is None,
    {
        let t = s.to_owned();
        let inc = "Increment".to_owned();
        let dec = "Decrement".to_owned();
        if t == inc {
            Ok(CounterAction::Increment)
        } else if t == dec {
            Ok(CounterAction::Decrement)
        } else {
            Err(())
        }
    }

    /// The name of the action, as a form carries it.
    pub fn as_str(&self) -> (r: &'static str)
        ensures
            r@ == action_name(*self),
    {
        match self {
            CounterAction::Increment => "Increment",
            CounterAction::Decrement => "Decrement",
        }
    }
}

/// The body of a counter submission.
pub struct CounterForm {
    pub action: CounterAction,
}

/// The counter action that a decoded form asks for, if it names one.
pub open spec fn action_in(form: Seq<(Seq<char>, Seq<char>)>) -> Option<CounterAction> {
    match field_of(form, "action"@) {
        Some(s) => action_of(s),
        None => None,
    }
}

impl CounterForm {
    /// The submission that a decoded form makes; `None` where its `action`
    /// field is missing or names no action.
    pub fn from_form(form_data: &Vec<(String, String)>) -> (r: Option<CounterForm>)
        ensures
            match r {
                Some(f) => action_in(pairs_view(form_data@)) == Some(f.action),
                None => action_in(pairs_view(form_data@)) is None,
            },
    {
        proof {
            reveal_strlit("action");
        }
        match field(form_data, "action") {
            Some(s) => match CounterAction::from_str(s.as_str()) {
                Ok(action) => Some(CounterForm { action }),
                Err(()) => None,
            },
            None => None,
        }
    }
}

/// Session slot that holds the counter; absent means zero.
#[derive(Clone, Copy, Debug, PartialEq, Eq, Structural)]
pub struct Counter {
    pub value: i32,
}

/// The counter after an action, where it stays within `i32`.
pub open spec fn applied(value: int, a: CounterAction) -> int {
    match a {
        CounterAction::Increment => value + 1,
        CounterAction::Decrement => value - 1,
    }
}

impl Counter {
    pub const KEY: &'static str = "counter";

    pub fn new() -> (r: Counter)
        ensures
            r.value == 0,
    {
        Counter { value: 0 }
    }

    /// Applies an action; refuses, and leaves the value alone, where the result
    /// would leave `i32`.
    pub fn apply(&mut self, action: CounterAction) -> (ok: bool)
        ensures
            ok <==> i32::MIN <= applied(old(self).value as int, action) <= i32::MAX,
            ok ==> final(self).value as int == applied(old(self).value as int, action),
            !ok ==> *final(self) == *old(self),
    {
        match action {
            CounterAction::Increment => {
                if self.value == i32::MAX {
                    false
                } else {
                    self.value = self.value + 1;
                    true
                }
            },
            CounterAction::Decrement => {
                if self.value == i32::MIN {
                    false
                } else {
                    self.value = self.value - 1;
                    true
                }
            },
        }
    }
}

/// Session slot that counts the requests a session has made; absent means zero.
#[derive(Clone, Copy, Debug, PartialEq, Eq, Structural)]
pub struct RequestCounter {
    pub value: usize,
}

impl RequestCounter {
    pub const KEY: &'static str = "request_counter";

    pub fn new() -> (r: RequestCounter)
        ensures
            r.value == 0,
    {
        RequestCounter { value: 0 }
    }

    /// Counts one more request; refuses, and leaves the value alone, at `usize::MAX`.
    pub fn bump(&mut self) -> (ok: bool)
        ensures
            ok <==> old(self).value < usize::MAX,
            ok ==> final(self).value == old(self).value + 1,
            !ok ==> *final(self) == *old(self),
    {
        if self.value == usize::MAX {
            false
        } else {
            self.value = self.value + 1;
            true
        }
    }
}

} // verus!
