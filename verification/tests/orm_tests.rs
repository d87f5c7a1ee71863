use bmbp_orm::conn::RdbcConnState;
use bmbp_orm::ds::{PoolConfig, RdbcDataSource, RdbcDbType};
use bmbp_orm::error::OrmErrorKind;
use bmbp_orm::orm::{postgres_conn_str, PoolPlan, RdbcOrm};

fn datasource(db_type: RdbcDbType) -> RdbcDataSource {
    RdbcDataSource {
        db_type,
        host: "127.0.0.1".to_string(),
        port: 5432,
        user: "bmbp".to_string(),
        password: "zgk0130!".to_string(),
        db_name: "bmbp".to_string(),
        charset: "".to_string(),
        pool_config: Default::default(),
    }
}

#[test]
pub fn test_orm() {
    let ds = datasource(RdbcDbType::Mysql);
    let orm_rs = RdbcOrm::new(ds);
    match orm_rs {
        Ok(orm) => {
            let mut conn = RdbcConnState::new(orm.db_type());
            match conn.validate() {
                Ok(_) => println!("连接成功"),
                Err(e) => {
                    panic!("{:#?}", e)
                }
            }
        }
        Err(err) => println!("{:?}", err),
    }
}

#[test]
fn default_pool_config() {
    let cfg = PoolConfig::default();
    assert_eq!(cfg.max_size, 10);
    assert_eq!(cfg.min_size, 1);
    assert_eq!(cfg.idle_timeout, Some(5));
    assert_eq!(cfg.max_lifetime, Some(120));
}

#[test]
fn new_rejects_inverted_pool_sizing() {
    let mut ds = datasource(RdbcDbType::Postgres);
    ds.pool_config.max_size = 1;
    ds.pool_config.min_size = 2;
    let err = RdbcOrm::new(ds).err().expect("inverted sizing must be rejected");
    assert!(matches!(err.kind, OrmErrorKind::PoolError));
    assert_eq!(err.msg, "invalid pool sizing: min_size exceeds max_size");
}

#[test]
fn new_accepts_every_backend_kind() {
    for db_type in [
        RdbcDbType::Mysql,
        RdbcDbType::Oracle,
        RdbcDbType::Postgres,
        RdbcDbType::Sqlite,
    ] {
        assert!(RdbcOrm::new(datasource(db_type)).is_ok());
    }
}

#[test]
fn postgres_conn_str_renders_every_field() {
    let ds = datasource(RdbcDbType::Postgres);
    let s = postgres_conn_str(&ds);
    assert_eq!(
        s,
        "host=127.0.0.1 port=5432 user=bmbp password=zgk0130! dbname=bmbp"
    );
}

#[test]
fn pool_plan_follows_backend_kind() {
    let orm = RdbcOrm::new(datasource(RdbcDbType::Postgres)).unwrap();
    assert_eq!(orm.datasource().host, "127.0.0.1");
    assert!(matches!(orm.db_type(), RdbcDbType::Postgres));
    match orm.pool_plan() {
        PoolPlan::Postgres { conn_str, max_size } => {
            assert_eq!(
                conn_str,
                "host=127.0.0.1 port=5432 user=bmbp password=zgk0130! dbname=bmbp"
            );
            assert_eq!(max_size, 10);
        }
        other => panic!("wrong plan: {:?}", other),
    }

    let orm = RdbcOrm::new(datasource(RdbcDbType::Oracle)).unwrap();
    match orm.pool_plan() {
        PoolPlan::Oracle { user, password, host, max_size } => {
            assert_eq!(user, "bmbp");
            assert_eq!(password, "zgk0130!");
            assert_eq!(host, "127.0.0.1");
            assert_eq!(max_size, 10);
        }
        other => panic!("wrong plan: {:?}", other),
    }

    let orm = RdbcOrm::new(datasource(RdbcDbType::Mysql)).unwrap();
    match orm.pool_plan() {
        PoolPlan::Mysql { host, port, user, password, db_name, max_size } => {
            assert_eq!(host, "127.0.0.1");
            assert_eq!(port, 5432);
            assert_eq!(user, "bmbp");
            assert_eq!(password, "zgk0130!");
            assert_eq!(db_name, "bmbp");
            assert_eq!(max_size, 10);
        }
        other => panic!("wrong plan: {:?}", other),
    }
}

/// The SQLite pool opens the database file the descriptor names, and a
/// checked-out SQLite connection validates as a no-op success.
#[test]
fn sqlite_descriptor_builds_and_validates() {
    let orm = RdbcOrm::new(datasource(RdbcDbType::Sqlite)).unwrap();
    match orm.pool_plan() {
        PoolPlan::Sqlite { path, max_size } => {
            assert_eq!(path, "bmbp");
            assert_eq!(max_size, 10);
        }
        other => panic!("wrong plan: {:?}", other),
    }
    let mut conn = RdbcConnState::new(RdbcDbType::Sqlite);
    assert!(conn.validate().is_ok());
}
