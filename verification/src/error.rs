//! The closed error taxonomy shared by every component of the layer.
//!
//! Every native driver failure is converted to an [`OrmError`] at the
//! adapter boundary; no backend-specific error object crosses it.

use vstd::prelude::*;

verus! {

/// The closed set of failure kinds.
#[derive(Clone, Copy, Debug, PartialEq, Eq, Structural)]
pub enum OrmErrorKind {
    /// Query execution or parsing failure at the backend.
    SqlError,
    /// Pool checkout or pool build failure.
    PoolError,
    /// Row or value decoding failure.
    DataError,
    /// Network or authentication failure while establishing a connection.
    ConnError,
    /// The backend does not implement the requested capability.
    NotSupport,
    /// The capability is planned but absent.
    NotImplement,
    /// Uncategorized.
    Other,
}

impl OrmErrorKind {
    /// The short name of the kind, as a character sequence.
    pub open spec fn text_spec(self) -> Seq<char> {
        match self {
            OrmErrorKind::SqlError => "SqlError"@,
            OrmErrorKind::PoolError => "PoolError"@,
            OrmErrorKind::DataError => "DataError"@,
            OrmErrorKind::ConnError => "ConnError"@,
            OrmErrorKind::NotSupport => "NotSupport"@,
            OrmErrorKind::NotImplement => "NotImplement"@,
            OrmErrorKind::Other => "Other"@,
        }
    }

    /// The short name of the kind.
    pub fn text(&self) -> (r: String)
        ensures
            r@ == self.text_spec(),
    {
        match self {
            OrmErrorKind::SqlError => String::from_str("SqlError"),
            OrmErrorKind::PoolError => String::from_str("PoolError"),
            OrmErrorKind::DataError => String::from_str("DataError"),
            OrmErrorKind::ConnError => String::from_str("ConnError"),
            OrmErrorKind::NotSupport => String::from_str("NotSupport"),
            OrmErrorKind::NotImplement => String::from_str("NotImplement"),
            OrmErrorKind::Other => String::from_str("Other"),
        }
    }
}

/// A failure: a closed kind plus a human-readable message.
#[derive(Clone, Debug, PartialEq)]
pub struct OrmError {
    pub kind: OrmErrorKind,
    pub msg: String,
}

impl OrmError {
    /// Builds an error from a kind and a message.
    pub fn new(kind: OrmErrorKind, msg: String) -> (r: OrmError)
        ensures
            r.kind == kind,
            r.msg == msg,
    {
        OrmError { kind, msg }
    }

    /// The rendering of the error: the kind in brackets, then the message.
    pub open spec fn text_spec(self) -> Seq<char> {
        "["@ + self.kind.text_spec() + "]"@ + self.msg@
    }

    /// Renders the error as the kind in brackets followed by the message.
    pub fn text(&self) -> (r: String)
        ensures
            r@ == self.text_spec(),
    {
        let mut s = String::from_str("[");
        s.append(self.kind.text().as_str());
        s.append("]");
        s.append(self.msg.as_str());
        s
    }
}

/// The result type of every operation of the layer.
pub type OrmResp<T> = Result<T, OrmError>;

} // verus!
