//! Errors of the SDK and the text that each one renders to.
use vstd::prelude::*;
use vstd::string::*;

verus! {

/// An error raised by the SDK.
#[derive(Debug, Clone)]
pub enum Error {
    /// A failure of the runtime, with its message.
    Runtime(String),
    /// A value of the wrong Lua type.
    Type { expected: &'static str, got: String },
    /// A value of the wrong Lua type, found under `path`.
    TypePath { expected: &'static str, got: String, path: String },
    /// A userdata that was already borrowed.
    Borrow(String),
}

/// Result of the SDK's operations.
pub type Result<T> = core::result::Result<T, Error>;

impl Error {
    /// What `with_path` gives back: a `Type` error becomes a `TypePath` error
    /// with the same `expected` and `got`; any other error stays as it is.
    pub open spec fn spec_with_path(self, path: String) -> Error {
        match self {
            Error::Type { expected, got } => Error::TypePath { expected, got, path },
            other => other,
        }
    }

    /// The text of the error, as the runtime shows it.
    pub open spec fn message(self) -> Seq<char> {
        match self {
            Error::Runtime(msg) => msg@,
            Error::Type { expected, got } =>
                "Erro de tipo: esperava "@ + expected@ + ", recebeu "@ + got@,
            Error::TypePath { expected, got, path } =>
                "Erro de tipo em "@ + path@ + ": esperava "@ + expected@ + ", recebeu "@ + got@,
            Error::Borrow(msg) => "Erro de borrow: "@ + msg@,
        }
    }

    /// Attaches the place where a type error happened.
    pub fn with_path(self, path: String) -> (res: Error)
        ensures
            res == self.spec_with_path(path),
    {
        match self {
            Error::Type { expected, got } => Error::TypePath { expected, got, path },
            other => other,
        }
    }

    /// Renders the error as text.
    pub fn to_string(&self) -> (s: String)
        ensures
            s@ == self.message(),
            self matches Error::Runtime(msg) ==> s@ == msg@,
            self matches Error::Type { expected, got } ==> s@ == "Erro de tipo: esperava "@ + expected@
                + ", recebeu "@ + got@,
            self matches Error::TypePath { expected, got, path } ==> s@ == "Erro de tipo em "@ + path@
                + ": esperava "@ + expected@ + ", recebeu "@ + got@,
            self matches Error::Borrow(msg) ==> s@ == "Erro de borrow: "@ + msg@,
    {
        match self {
            Error::Runtime(msg) => msg.clone(),
            Error::Type { expected, got } => {
                let mut s = String::from_str("Erro de tipo: esperava ");
                s.append(expected);
                s.append(", recebeu ");
                s.append(got.as_str());
                s
            },
            Error::TypePath { expected, got, path } => {
                let mut s = String::from_str("Erro de tipo em ");
                s.append(path.as_str());
                s.append(": esperava ");
                s.append(expected);
                s.append(", recebeu ");
                s.append(got.as_str());
                s
            },
            Error::Borrow(msg) => {
                let mut s = String::from_str("Erro de borrow: ");
                s.append(msg.as_str());
                s
            },
        }
    }
}

/// Once a type error carries a path, a later `with_path` keeps the first path:
/// the innermost place where the error happened is the one reported.
pub proof fn lemma_with_path_first_path_wins(e: Error, first: String, second: String)
    ensures
        e.spec_with_path(first).spec_with_path(second) == e.spec_with_path(first),
{
}

} // verus!
