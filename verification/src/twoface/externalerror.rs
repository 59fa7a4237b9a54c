use vstd::prelude::*;

verus! {

/// A user-facing explanation of what caused the error.
#[derive(Debug, Clone, Copy, PartialEq, Eq, Structural)]
pub enum Cause {
    ServerError,
    UserActionInvalid,
    UserBadAuth,
    UserConflict,
    UserInvalidField,
    NotFound,
}

impl Cause {
    /// The status code that the boundary answers with for this cause.
    pub open spec fn status(self) -> u16 {
        match self {
            Cause::ServerError => 500,
            Cause::UserActionInvalid => 400,
            Cause::UserInvalidField => 400,
            Cause::UserBadAuth => 401,
            Cause::UserConflict => 409,
            Cause::NotFound => 404,
        }
    }

    /// The name of the cause, as it is shown to the caller.
    pub open spec fn name(self) -> Seq<char> {
        match self {
            Cause::ServerError => "ServerError"@,
            Cause::UserActionInvalid => "UserActionInvalid"@,
            Cause::UserBadAuth => "UserBadAuth"@,
            Cause::UserConflict => "UserConflict"@,
            Cause::UserInvalidField => "UserInvalidField"@,
            Cause::NotFound => "NotFound"@,
        }
    }

    /// Maps the cause to its status code. Components below the boundary deal
    /// in causes only; the number appears when a response is built.
    pub fn status_code(self) -> (code: u16)
        ensures
            code == self.status(),
    {
        match self {
            Cause::ServerError => 500,
            Cause::UserActionInvalid => 400,
            Cause::UserInvalidField => 400,
            Cause::UserBadAuth => 401,
            Cause::UserConflict => 409,
            Cause::NotFound => 404,
        }
    }

    /// Renders the cause as the name of its variant.
    pub fn to_string(&self) -> (s: String)
        ensures
            s@ == self.name(),
    {
        match self {
            Cause::ServerError => "ServerError".to_owned(),
            Cause::UserActionInvalid => "UserActionInvalid".to_owned(),
            Cause::UserBadAuth => "UserBadAuth".to_owned(),
            Cause::UserConflict => "UserConflict".to_owned(),
            Cause::UserInvalidField => "UserInvalidField".to_owned(),
            Cause::NotFound => "NotFound".to_owned(),
        }
    }
}

impl From<Cause> for u16 {
    fn from(cause: Cause) -> (code: u16) {
        cause.status_code()
    }
}

impl vstd::std_specs::convert::FromSpecImpl<Cause> for u16 {
    open spec fn obeys_from_spec() -> bool {
        true
    }

    open spec fn from_spec(cause: Cause) -> u16 {
        cause.status()
    }
}

/// What a caller is told of an error: its cause and a fixed text.
#[derive(Debug, Clone, Copy, PartialEq, Eq)]
pub struct ExternalError {
    /// A user-facing explanation of what caused the error.
    pub cause: Cause,
    /// Error text that will describe the problem to the user.
    pub text: &'static str,
}

impl ExternalError {
    /// The description used when none was given: a server error with a text
    /// that gives nothing away.
    pub open spec fn generic() -> ExternalError {
        ExternalError { cause: Cause::ServerError, text: "Internal server error" }
    }

    /// The cause's name, a colon and a space, and the text.
    pub open spec fn rendered(&self) -> Seq<char> {
        self.cause.name() + ": "@ + self.text@
    }

    /// Renders the description as `"{cause}: {text}"`.
    pub fn to_string(&self) -> (s: String)
        ensures
            s@ == self.rendered(),
    {
        let mut s = self.cause.to_string();
        s.append(": ");
        s.append(self.text);
        s
    }
}

impl Default for ExternalError {
    /// Defaults to a server error and a very vague generic message.
    fn default() -> (external: ExternalError)
        ensures
            external == ExternalError::generic(),
    {
        ExternalError { cause: Cause::ServerError, text: "Internal server error" }
    }
}

} // verus!
