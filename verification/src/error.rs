use vstd::prelude::*;

verus! {

/// The area of the platform that an error comes from.
#[derive(Debug, Clone, Copy, PartialEq, Eq, Structural)]
pub enum ErrorKind {
    Env,
    Exec,
    Fs,
    Request,
}

/// The text that an error kind is shown as.
pub open spec fn kind_label(kind: ErrorKind) -> Seq<char> {
    match kind {
        ErrorKind::Env => "Env"@,
        ErrorKind::Exec => "Exec"@,
        ErrorKind::Fs => "Fs"@,
        ErrorKind::Request => "Request"@,
    }
}

impl ErrorKind {
    /// The kind's name, as it is shown in messages.
    pub fn to_string(&self) -> (r: String)
        ensures
            r@ == kind_label(*self),
    {
        match self {
            ErrorKind::Env => "Env".to_owned(),
            ErrorKind::Exec => "Exec".to_owned(),
            ErrorKind::Fs => "Fs".to_owned(),
            ErrorKind::Request => "Request".to_owned(),
        }
    }
}

/// An error of the platform layer: where it comes from and what happened.
#[derive(Debug)]
pub struct ForgeError {
    pub kind: ErrorKind,
    pub description: String,
}

/// What the platform's fallible operations return.
pub type ForgeResult<T> = Result<T, ForgeError>;

impl ForgeError {
    /// An error of the given kind with the given description.
    pub fn from_str(kind: ErrorKind, description: &str) -> (r: ForgeError)
        ensures
            r.kind == kind,
            r.description@ == description@,
    {
        ForgeError { kind, description: description.to_owned() }
    }

    /// An error of the given kind whose description is what `error` displays as.
    pub fn from_error<E: std::error::Error>(kind: ErrorKind, error: E) -> (r: ForgeError)
        ensures
            r.kind == kind,
            vstd::string::to_string_from_display_ensures::<E>(&error, r.description),
    {
        let description = error.to_string();
        ForgeError { kind, description }
    }

    /// The error as it is shown to a user: its description.
    pub fn to_string(&self) -> (r: String)
        ensures
            r@ == self.description@,
    {
        self.description.clone()
    }
}

} // verus!
