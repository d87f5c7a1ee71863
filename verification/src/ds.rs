//! The immutable data-source descriptor: backend kind, endpoint,
//! credentials, and pool sizing policy.

use vstd::prelude::*;

verus! {

/// The closed set of supported backend kinds.
#[derive(Clone, Copy, Debug, PartialEq, Eq, Structural)]
pub enum RdbcDbType {
    Mysql,
    Oracle,
    Postgres,
    Sqlite,
}

/// Pool sizing and timeout policy.
///
/// The timeouts are held in whole seconds.  A well-formed configuration
/// has `max_size >= min_size`; construction of the facade rejects any
/// other configuration.
#[derive(Clone, Copy, Debug, PartialEq, Eq, Structural)]
pub struct PoolConfig {
    /// Upper bound on the number of live connections in the pool.
    pub max_size: usize,
    /// Lower bound the pool keeps warm.
    pub min_size: usize,
    /// Seconds a connection may sit idle before it is retired.
    pub idle_timeout: Option<u64>,
    /// Seconds a connection may live in the pool at all.
    pub max_lifetime: Option<u64>,
}

impl PoolConfig {
    /// A configuration is well formed when the bounds are ordered.
    pub open spec fn wf(self) -> bool {
        self.max_size >= self.min_size
    }
}

impl Default for PoolConfig {
    /// The default policy: at most ten connections, at least one,
    /// a five second idle timeout and a two minute lifetime.
    fn default() -> (r: PoolConfig)
        ensures
            r.max_size == 10usize,
            r.min_size == 1usize,
            r.idle_timeout == Some(5u64),
            r.max_lifetime == Some(120u64),
            r.wf(),
    {
        PoolConfig { max_size: 10, min_size: 1, idle_timeout: Some(5), max_lifetime: Some(120) }
    }
}

/// Identifies one configured data source: backend kind, network
/// endpoint, credentials, database name, character set and pool policy.
/// Immutable after construction.
#[derive(Clone, Debug)]
pub struct RdbcDataSource {
    pub db_type: RdbcDbType,
    pub host: String,
    pub port: u16,
    pub user: String,
    pub password: String,
    pub db_name: String,
    pub charset: String,
    pub pool_config: PoolConfig,
}

impl RdbcDataSource {
    /// A descriptor is well formed when its pool configuration is.
    pub open spec fn wf(self) -> bool {
        self.pool_config.wf()
    }
}

} // verus!
