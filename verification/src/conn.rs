//! The logical state of a checked-out connection and of a
//! transaction.
//!
//! A checked-out connection is exclusively owned by one caller.  Its
//! liveness check is a no-op success for every backend in this layer:
//! backends without a native ping primitive get no probe at all, and
//! the pool's own checkout probe is what stands between a dead socket
//! and the caller.  Only the PostgreSQL backend supports transactions;
//! a transaction, once begun, owns its connection until it is
//! committed or rolled back, and finishing it twice fails rather than
//! panics.

use crate::ds::RdbcDbType;
use crate::error::{OrmError, OrmErrorKind, OrmResp};
use vstd::prelude::*;

verus! {

/// The life cycle of one transaction.  The embedding pairs this state
/// with the native transaction handle and performs the native commit
/// or rollback exactly when the state transition succeeds.
#[derive(Debug)]
pub struct RdbcTransactionGuard {
    /// Whether the transaction was already committed or rolled back.
    pub completed: bool,
}

impl RdbcTransactionGuard {
    /// A freshly begun transaction, not yet finished.
    pub fn new() -> (r: RdbcTransactionGuard)
        ensures
            !r.completed,
    {
        RdbcTransactionGuard { completed: false }
    }

    /// Commits the transaction.  The first call on a fresh transaction
    /// succeeds and finishes it; any later call fails with `SqlError`
    /// and never panics.
    pub fn commit(&mut self) -> (r: OrmResp<()>)
        ensures
            final(self).completed,
            !old(self).completed ==> r is Ok,
            old(self).completed ==> (r matches Err(e) && e.kind == OrmErrorKind::SqlError
                && e.msg@ == "Transaction already completed."@),
    {
        if self.completed {
            Err(
                OrmError::new(
                    OrmErrorKind::SqlError,
                    String::from_str("Transaction already completed."),
                ),
            )
        } else {
            self.completed = true;
            Ok(())
        }
    }

    /// Rolls the transaction back, under the same life cycle contract
    /// as [`Self::commit`].
    pub fn rollback(&mut self) -> (r: OrmResp<()>)
        ensures
            final(self).completed,
            !old(self).completed ==> r is Ok,
            old(self).completed ==> (r matches Err(e) && e.kind == OrmErrorKind::SqlError
                && e.msg@ == "Transaction already completed."@),
    {
        if self.completed {
            Err(
                OrmError::new(
                    OrmErrorKind::SqlError,
                    String::from_str("Transaction already completed."),
                ),
            )
        } else {
            self.completed = true;
            Ok(())
        }
    }
}

/// The logical state of one checked-out connection: which backend it
/// belongs to.
#[derive(Debug)]
pub struct RdbcConnState {
    pub db_type: RdbcDbType,
}

impl RdbcConnState {
    /// A connection checked out from a pool of the given backend.
    pub fn new(db_type: RdbcDbType) -> (r: RdbcConnState)
        ensures
            r.db_type == db_type,
    {
        RdbcConnState { db_type }
    }

    /// The liveness check: a no-op success for every backend.  This
    /// documents the weaker guarantee: no probe reaches the wire here,
    /// whatever the backend.
    pub fn validate(&mut self) -> (r: OrmResp<()>)
        ensures
            r is Ok,
            final(self).db_type == old(self).db_type,
    {
        Ok(())
    }

    /// Begins a transaction.  Only the PostgreSQL backend supports
    /// transactions; every other backend fails with `NotSupport`.
    pub fn get_transaction(&mut self) -> (r: OrmResp<RdbcTransactionGuard>)
        ensures
            final(self).db_type == old(self).db_type,
            old(self).db_type == RdbcDbType::Postgres ==> (r matches Ok(t) && !t.completed),
            old(self).db_type != RdbcDbType::Postgres ==> (r matches Err(e) && e.kind
                == OrmErrorKind::NotSupport && e.msg@
                == "transaction not supported for this backend"@),
    {
        match self.db_type {
            RdbcDbType::Postgres => Ok(RdbcTransactionGuard::new()),
            _ => Err(
                OrmError::new(
                    OrmErrorKind::NotSupport,
                    String::from_str("transaction not supported for this backend"),
                ),
            ),
        }
    }
}

/// A transaction-scoped connection.
pub trait RdbcTransConn {

}

/// The MySQL transaction-scoped connection stand-in.
#[derive(Debug)]
pub struct RdbcMysqlTransConn {}

impl RdbcTransConn for RdbcMysqlTransConn {

}

} // verus!
