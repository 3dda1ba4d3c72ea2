//! The connection-pool manager: owns the one long-lived pool bound to the
//! catalog's storage file, and makes fresh pools for uploaded database files
//! on demand. A fresh pool is made on every request for a path — there is no
//! cross-request cache keyed by path.

use vstd::prelude::*;
use vstd::string::StringExecFns;
use crate::catalog::{create_catalog_table, catalog_rows, CatalogError};
use crate::sqlite::{open_connection, open_pool, PoolHandle};
use crate::values::SqlValView;

verus! {

/// The manager of the storage root and of the catalog's dedicated pool.
pub struct DbConnection {
    pub storage_dir: String,
    pub metadata_pool: PoolHandle,
}

impl DbConnection {
    /// The contents of the metadata catalog behind this manager's pool.
    pub open spec fn catalog(self) -> Map<i64, Seq<SqlValView>> {
        catalog_rows(self.metadata_pool)
    }

    /// The storage root this manager was opened on.
    pub open spec fn dir(self) -> Seq<char> {
        self.storage_dir@
    }

    /// Opens the manager on a storage root: binds the process-lifetime pool
    /// to the catalog file under that root and bootstraps its schema. The
    /// root directory must already exist; creating it is the caller's I/O.
    pub fn new(storage_dir: String) -> (r: Result<DbConnection, CatalogError>)
        ensures
            r matches Ok(c) ==> c.dir() == storage_dir@,
    {
        let mut path = storage_dir.clone();
        path.append("/metadata.db");
        let mut pool = match open_pool(path.as_str()) {
            Ok(p) => p,
            Err(msg) => {
                return Err(CatalogError::Engine(msg));
            },
        };
        match create_catalog_table(&mut pool) {
            Ok(()) => Ok(DbConnection { storage_dir, metadata_pool: pool }),
            Err(e) => Err(e),
        }
    }

    /// Re-runs the schema bootstrap. Safe to repeat on every catalog open:
    /// the catalog's contents are untouched.
    pub fn init_schema(&mut self) -> (r: Result<(), CatalogError>)
        ensures
            final(self).catalog() == old(self).catalog(),
            final(self).dir() == old(self).dir(),
    {
        create_catalog_table(&mut self.metadata_pool)
    }

    /// The path under the storage root where `sub` is kept.
    pub fn get_storage_path(&self, sub: &str) -> (r: String)
        ensures
            r@ == self.dir() + "/"@ + sub@,
    {
        let mut p = self.storage_dir.clone();
        p.append("/");
        p.append(sub);
        p
    }

    /// The single pool bound to the catalog's storage file.
    pub fn get_metadata_pool(&self) -> (r: &PoolHandle)
        ensures
            *r == self.metadata_pool,
    {
        &self.metadata_pool
    }

    /// A pool bound to an arbitrary database file path. A fresh pool is made
    /// on every call.
    pub fn get_database_pool(&self, path: &str) -> (r: Result<PoolHandle, CatalogError>) {
        match open_pool(path) {
            Ok(p) => Ok(p),
            Err(msg) => Err(CatalogError::Engine(msg)),
        }
    }

    /// A plain, unpooled connection to an arbitrary database file path.
    pub fn open_database(&self, path: &str) -> (r: Result<
        rusqlite::Connection,
        rusqlite::Error,
    >) {
        open_connection(path)
    }
}

/// Law: the schema bootstrap is idempotent. Each run preserves the catalog's
/// contents, so running it twice — two process starts against the same
/// directory — leaves the catalog exactly as it stood and never duplicates a
/// record.
pub proof fn lemma_bootstrap_idempotent(
    before: Map<i64, Seq<SqlValView>>,
    after_once: Map<i64, Seq<SqlValView>>,
    after_twice: Map<i64, Seq<SqlValView>>,
)
    requires
        after_once == before,
        after_twice == after_once,
    ensures
        after_twice == before,
{
}

} // verus!
