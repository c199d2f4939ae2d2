use std::sync::atomic::{AtomicU64, Ordering};

use deadpool_libsql::config::OpenFlags;
use deadpool_libsql::managed::{
    Manager, Metrics, Object, PoolError, RecycleResult, Registry, Released,
};
use deadpool_libsql::{check_test_query, recycle_test_query, ConnectionError};

/// A backend of libsql connections that waits for every answer on the
/// spot.
struct Blocking {
    runtime: tokio::runtime::Runtime,
    database: libsql::Database,
    test_query_count: AtomicU64,
}

impl Blocking {
    fn new(runtime: tokio::runtime::Runtime, database: libsql::Database) -> Blocking {
        Blocking { runtime, database, test_query_count: AtomicU64::new(0) }
    }

    /// Sends the next count to the database and reads what comes back.
    fn probe(&self, conn: &libsql::Connection) -> (u64, Result<Option<u64>, libsql::Error>) {
        let test_query_count = self.test_query_count.fetch_add(1, Ordering::Relaxed);
        let fetched = self.runtime.block_on(async {
            let mut rows = conn.query("SELECT ?", [test_query_count]).await?;
            match rows.next().await? {
                Some(row) => Ok(Some(row.get::<u64>(0)?)),
                None => Ok(None),
            }
        });
        (test_query_count, fetched)
    }
}

impl Manager for Blocking {
    type Type = libsql::Connection;
    type Error = ConnectionError;

    fn create(&self) -> Result<libsql::Connection, ConnectionError> {
        let conn = self.database.connect().map_err(ConnectionError::Libsql)?;
        let (test_query_count, fetched) = self.probe(&conn);
        check_test_query(test_query_count, fetched)?;
        Ok(conn)
    }

    fn recycle(
        &self,
        conn: &mut libsql::Connection,
        _: &Metrics,
    ) -> RecycleResult<ConnectionError> {
        let (test_query_count, fetched) = self.probe(conn);
        recycle_test_query(test_query_count, fetched)
    }
}

fn runtime() -> tokio::runtime::Runtime {
    tokio::runtime::Builder::new_current_thread().build().unwrap()
}

#[test]
fn basic() {
    let runtime = runtime();
    let database = runtime.block_on(libsql::Builder::new_local(":memory:").build()).unwrap();
    let manager = Blocking::new(runtime, database);
    let mut registry: Registry<libsql::Connection> = Registry::new();
    let pool = registry.add_pool(4);

    let mut conn = registry.acquire(pool, &manager, 0).unwrap();
    let result: i64 = manager.runtime.block_on(async {
        let conn = Object::get(&conn).unwrap();
        let stmt = conn.prepare("SELECT 1").await.unwrap();
        let mut rows = stmt.query(()).await.unwrap();
        let row = rows.next().await.unwrap().unwrap();
        row.get(0).unwrap()
    });
    assert_eq!(result, 1);

    // The connection is probed again when it is reused, with the next count.
    assert_eq!(conn.release(&mut registry), Released::Returned);
    let again = registry.acquire(pool, &manager, 1).unwrap();
    assert_eq!(Object::id(&again), 0);
    assert_eq!(Object::metrics(&again).recycle_count, 1);
    assert_eq!(manager.test_query_count.load(Ordering::Relaxed), 2);
}

/// The connection fails when it is taken from the pool, not when the pool
/// is set up.
#[test]
fn fail_at_connect_to_local() {
    let runtime = runtime();
    let flags = OpenFlags { create: false, read_only: false, read_write: true };
    let database = runtime
        .block_on(
            libsql::Builder::new_local("/does-not-exist.db").flags(flags.to_libsql().flags).build(),
        )
        .unwrap();
    let manager = Blocking::new(runtime, database);
    let mut registry: Registry<libsql::Connection> = Registry::new();
    let pool = registry.add_pool(4);

    let result = registry.acquire(pool, &manager, 0);
    assert!(result.is_err(), "Connection unexpectedly established: {:?}", result.unwrap());
    assert!(matches!(result, Err(PoolError::Backend(ConnectionError::Libsql(_)))));
    assert_eq!(registry.upgrade(pool).unwrap().outstanding(), 0);
}
