//! The facade: owns one validated data-source descriptor, plans the
//! native pool construction for its backend, extracts the total from a
//! count-query row, and wraps raw rows into caller types.
//!
//! The facade holds no live pool itself: the embedding builds the
//! native pool from the plan this module computes, and hands every
//! fetched row back for decoding and typing.

use crate::ds::{RdbcDataSource, RdbcDbType};
use crate::error::{OrmError, OrmErrorKind, OrmResp};
use crate::page::PageData;
use crate::row::RdbcOrmRow;
use crate::sqlgen::{dec_seq, usize_to_string};
use vstd::prelude::*;
use vstd::std_specs::convert::FromSpec;

verus! {

/// What the native pool of one backend is built from.  MySQL and
/// PostgreSQL take the full endpoint; Oracle takes a narrower
/// credential surface (no port, no database name); SQLite opens the
/// database file named by the descriptor's database name.
#[derive(Debug)]
pub enum PoolPlan {
    Mysql {
        host: String,
        port: u16,
        user: String,
        password: String,
        db_name: String,
        max_size: usize,
    },
    Oracle { user: String, password: String, host: String, max_size: usize },
    Postgres { conn_str: String, max_size: usize },
    Sqlite { path: String, max_size: usize },
}

/// The PostgreSQL connection string built from a descriptor.
pub open spec fn postgres_conn_str_spec(ds: RdbcDataSource) -> Seq<char> {
    "host="@ + ds.host@ + " port="@ + dec_seq(ds.port as nat) + " user="@ + ds.user@
        + " password="@ + ds.password@ + " dbname="@ + ds.db_name@
}

/// Renders the PostgreSQL connection string of a descriptor.
pub fn postgres_conn_str(ds: &RdbcDataSource) -> (r: String)
    ensures
        r@ == postgres_conn_str_spec(*ds),
{
    let mut s = String::from_str("host=");
    s.append(ds.host.as_str());
    s.append(" port=");
    let port_text = usize_to_string(ds.port as usize);
    s.append(port_text.as_str());
    s.append(" user=");
    s.append(ds.user.as_str());
    s.append(" password=");
    s.append(ds.password.as_str());
    s.append(" dbname=");
    s.append(ds.db_name.as_str());
    proof {
        assert(s@ =~= postgres_conn_str_spec(*ds));
    }
    s
}

/// The facade over one data source.  Construction validates the pool
/// sizing; afterwards the descriptor is immutable.
#[derive(Debug)]
pub struct RdbcOrm {
    datasource: RdbcDataSource,
}

impl RdbcOrm {
    /// The descriptor the facade was built over.
    pub closed spec fn ds_spec(self) -> RdbcDataSource {
        self.datasource
    }

    /// Builds the facade over a descriptor.  A descriptor whose pool
    /// sizing is inverted (`min_size` above `max_size`) is rejected
    /// with `PoolError`; every other descriptor is accepted.
    pub fn new(datasource: RdbcDataSource) -> (r: OrmResp<RdbcOrm>)
        ensures
            datasource.wf() ==> (r matches Ok(orm) && orm.ds_spec() == datasource),
            !datasource.wf() ==> (r matches Err(e) && e.kind == OrmErrorKind::PoolError && e.msg@
                == "invalid pool sizing: min_size exceeds max_size"@),
    {
        if datasource.pool_config.min_size > datasource.pool_config.max_size {
            Err(
                OrmError::new(
                    OrmErrorKind::PoolError,
                    String::from_str("invalid pool sizing: min_size exceeds max_size"),
                ),
            )
        } else {
            Ok(RdbcOrm { datasource })
        }
    }

    /// The descriptor.
    pub fn datasource(&self) -> (r: &RdbcDataSource)
        ensures
            *r == self.ds_spec(),
    {
        &self.datasource
    }

    /// The backend kind the facade dispatches to.
    pub fn db_type(&self) -> (r: RdbcDbType)
        ensures
            r == self.ds_spec().db_type,
    {
        self.datasource.db_type
    }

    /// Plans the native pool for the descriptor's backend: the closed
    /// dispatch over the four kinds.  Every kind has a plan; no
    /// backend is rejected here.
    pub fn pool_plan(&self) -> (r: PoolPlan)
        ensures
            match r {
                PoolPlan::Mysql { host, port, user, password, db_name, max_size } => {
                    &&& self.ds_spec().db_type == RdbcDbType::Mysql
                    &&& host@ == self.ds_spec().host@
                    &&& port == self.ds_spec().port
                    &&& user@ == self.ds_spec().user@
                    &&& password@ == self.ds_spec().password@
                    &&& db_name@ == self.ds_spec().db_name@
                    &&& max_size == self.ds_spec().pool_config.max_size
                },
                PoolPlan::Oracle { user, password, host, max_size } => {
                    &&& self.ds_spec().db_type == RdbcDbType::Oracle
                    &&& user@ == self.ds_spec().user@
                    &&& password@ == self.ds_spec().password@
                    &&& host@ == self.ds_spec().host@
                    &&& max_size == self.ds_spec().pool_config.max_size
                },
                PoolPlan::Postgres { conn_str, max_size } => {
                    &&& self.ds_spec().db_type == RdbcDbType::Postgres
                    &&& conn_str@ == postgres_conn_str_spec(self.ds_spec())
                    &&& max_size == self.ds_spec().pool_config.max_size
                },
                PoolPlan::Sqlite { path, max_size } => {
                    &&& self.ds_spec().db_type == RdbcDbType::Sqlite
                    &&& path@ == self.ds_spec().db_name@
                    &&& max_size == self.ds_spec().pool_config.max_size
                },
            },
    {
        let max_size = self.datasource.pool_config.max_size;
        match self.datasource.db_type {
            RdbcDbType::Mysql => PoolPlan::Mysql {
                host: self.datasource.host.clone(),
                port: self.datasource.port,
                user: self.datasource.user.clone(),
                password: self.datasource.password.clone(),
                db_name: self.datasource.db_name.clone(),
                max_size,
            },
            RdbcDbType::Oracle => PoolPlan::Oracle {
                user: self.datasource.user.clone(),
                password: self.datasource.password.clone(),
                host: self.datasource.host.clone(),
                max_size,
            },
            RdbcDbType::Postgres => PoolPlan::Postgres {
                conn_str: postgres_conn_str(&self.datasource),
                max_size,
            },
            RdbcDbType::Sqlite => PoolPlan::Sqlite {
                path: self.datasource.db_name.clone(),
                max_size,
            },
        }
    }
}

/// Extracts the total from the count query's result: the single row
/// must carry a numeric column named `count`.  Exactly the absent row,
/// the absent column and the non-numeric column fail, each with its
/// own `SqlError` message.
pub fn extract_count(row_opt: Option<RdbcOrmRow>) -> (r: OrmResp<usize>)
    ensures
        match row_opt {
            None => (r matches Err(e) && e.kind == OrmErrorKind::SqlError && e.msg@
                == "查询总数失败: 未查询到统计记录"@),
            Some(row) => match row.get_spec("count"@) {
                None => (r matches Err(e) && e.kind == OrmErrorKind::SqlError && e.msg@
                    == "查询总数失败: 未获取到记录数"@),
                Some(v) => match v.as_number_spec() {
                    None => (r matches Err(e) && e.kind == OrmErrorKind::SqlError && e.msg@
                        == "查询总数失败: 记录数值解析异常"@),
                    Some(n) => if 0 <= n <= usize::MAX {
                        r == Ok::<usize, OrmError>(n as usize)
                    } else {
                        (r matches Err(e) && e.kind == OrmErrorKind::SqlError && e.msg@
                            == "查询总数失败: 记录数值解析异常"@)
                    },
                },
            },
        },
{
    match row_opt {
        None => Err(
            OrmError::new(
                OrmErrorKind::SqlError,
                String::from_str("查询总数失败: 未查询到统计记录"),
            ),
        ),
        Some(row) => match row.get("count") {
            None => Err(
                OrmError::new(
                    OrmErrorKind::SqlError,
                    String::from_str("查询总数失败: 未获取到记录数"),
                ),
            ),
            Some(value) => match value.as_number() {
                None => Err(
                    OrmError::new(
                        OrmErrorKind::SqlError,
                        String::from_str("查询总数失败: 记录数值解析异常"),
                    ),
                ),
                Some(n) => {
                    if n >= 0 && (n as u64) <= (usize::MAX as u64) {
                        Ok(n as usize)
                    } else {
                        Err(
                            OrmError::new(
                                OrmErrorKind::SqlError,
                                String::from_str("查询总数失败: 记录数值解析异常"),
                            ),
                        )
                    }
                },
            },
        },
    }
}

/// Types a sequence of raw rows: every row becomes one caller value
/// through its `From` conversion, in order.
pub fn rows_into<T: From<RdbcOrmRow>>(rows: Vec<RdbcOrmRow>) -> (out: Vec<T>)
    ensures
        out@.len() == rows@.len(),
        <T as FromSpec<RdbcOrmRow>>::obeys_from_spec() ==> forall|i: int|
            0 <= i < rows@.len() ==> #[trigger] out@[i] == <T as FromSpec<
                RdbcOrmRow,
            >>::from_spec(rows@[i]),
{
    let ghost orig = rows@;
    let mut rows = rows;
    let mut out: Vec<T> = Vec::new();
    while rows.len() > 0
        invariant
            out@.len() + rows@.len() == orig.len(),
            rows@ == orig.subrange(out@.len() as int, orig.len() as int),
            <T as FromSpec<RdbcOrmRow>>::obeys_from_spec() ==> forall|i: int|
                0 <= i < out@.len() ==> #[trigger] out@[i] == <T as FromSpec<
                    RdbcOrmRow,
                >>::from_spec(orig[i]),
        decreases rows@.len(),
    {
        let ghost k = out@.len() as int;
        proof {
            assert(rows@[0] == orig[k]);
        }
        let row = rows.remove(0);
        out.push(T::from(row));
    }
    out
}

/// Types an optional raw row.
pub fn row_opt_into<T: From<RdbcOrmRow>>(row_opt: Option<RdbcOrmRow>) -> (out: Option<T>)
    ensures
        out is Some <==> row_opt is Some,
        <T as FromSpec<RdbcOrmRow>>::obeys_from_spec() ==> match row_opt {
            Some(row) => out == Some(<T as FromSpec<RdbcOrmRow>>::from_spec(row)),
            None => out is None,
        },
{
    match row_opt {
        Some(row) => Some(T::from(row)),
        None => None,
    }
}

/// Types a page of raw rows: the page's shape is kept, every row goes
/// through its `From` conversion.
pub fn page_into<T: From<RdbcOrmRow>>(page: PageData<RdbcOrmRow>) -> (out: PageData<T>)
    ensures
        out.page_num == page.page_num,
        out.page_size == page.page_size,
        out.total == page.total,
        out.data is Some <==> page.data is Some,
        match (page.data, out.data) {
            (Some(rows), Some(typed)) => {
                &&& typed.len() == rows.len()
                &&& <T as FromSpec<RdbcOrmRow>>::obeys_from_spec() ==> forall|i: int|
                    0 <= i < rows@.len() ==> #[trigger] typed@[i] == <T as FromSpec<
                        RdbcOrmRow,
                    >>::from_spec(rows@[i])
            },
            (None, None) => true,
            _ => false,
        },
{
    let PageData { page_size, page_num, total, data } = page;
    match data {
        Some(rows) => PageData {
            page_size,
            page_num,
            total,
            data: Some(rows_into(rows)),
        },
        None => PageData { page_size, page_num, total, data: None },
    }
}

} // verus!
