//! The connection contract every backend driver satisfies, the concrete
//! MySQL-family driver this core assumes, and the exclusive-access handle
//! the registry hands out.

use vstd::prelude::*;
use crate::config::{Config, ConfigModel, Database, SourceType};
use crate::errors::AppError;
use crate::strmap::StringMap;
use crate::table::{has_table, BasableTable, TableConfig, TableList};

verus! {

/// The mathematical state of one connection: which backend it identifies,
/// its current table catalogue, the table configurations it stores, the
/// saves handed on to the remote configuration store, and whether the
/// connection is still valid.
pub ghost struct ConnModel {
    pub driver: Database,
    pub host: Seq<char>,
    pub db_name: Seq<char>,
    pub tables: Seq<BasableTable>,
    pub local_configs: Map<Seq<char>, TableConfig>,
    pub remote_saves: Seq<(String, TableConfig)>,
    pub alive: bool,
}

/// Backend-identifying metadata, as reported by a live connection.
#[derive(Debug)]
pub struct DbConnectionDetails {
    pub driver: Database,
    pub host: String,
    pub db_name: String,
}

/// The remote outbox grew by exactly one entry — the named table's
/// configuration — behind the unchanged earlier entries.
pub open spec fn remote_push(
    before: Seq<(String, TableConfig)>,
    after: Seq<(String, TableConfig)>,
    name: Seq<char>,
    config: TableConfig,
) -> bool {
    &&& after.len() == before.len() + 1
    &&& after.last().0@ == name
    &&& after.last().1 == config
    &&& after.drop_last() == before
}

/// The two connection states identify the same live backend and see the
/// same catalogue.
pub open spec fn same_identity(before: ConnModel, after: ConnModel) -> bool {
    &&& after.driver == before.driver
    &&& after.host == before.host
    &&& after.db_name == before.db_name
    &&& after.tables == before.tables
    &&& after.alive == before.alive
}

/// A successful local save: the named table's configuration replaces any
/// earlier one in the instance's own memory, and nothing else moves.
pub open spec fn saved_local(
    before: ConnModel,
    after: ConnModel,
    name: Seq<char>,
    config: TableConfig,
) -> bool {
    &&& same_identity(before, after)
    &&& after.local_configs == before.local_configs.insert(name, config)
    &&& after.remote_saves == before.remote_saves
}

/// A successful remote save: the named table's configuration joins the
/// outgoing queue for the remote store, and nothing else moves.
pub open spec fn saved_remote(
    before: ConnModel,
    after: ConnModel,
    name: Seq<char>,
    config: TableConfig,
) -> bool {
    &&& same_identity(before, after)
    &&& after.local_configs == before.local_configs
    &&& remote_push(before.remote_saves, after.remote_saves, name, config)
}

/// The uniform capability set a backend driver must provide, so that the
/// registry and the layers above never depend on a concrete backend type.
///
/// Every operation returns a typed failure rather than panicking: driver
/// failures are expected operational events, and callers must be able to
/// tell a connection fault from a missing table or a bad configuration.
pub trait BasableConnection: Sized {
    /// The abstract state of this driver instance.
    spec fn model(&self) -> ConnModel;

    /// Internal well-formedness of this driver instance.
    spec fn wf(&self) -> bool;

    /// Which configurations this backend accepts at construction.
    spec fn accepts(config: ConfigModel) -> bool;

    /// The state a fresh instance built from `config` starts in.
    spec fn init_model(config: ConfigModel) -> ConnModel;

    /// Builds a driver instance from `conn`, failing with a connection
    /// error exactly when the backend rejects the configuration.
    fn new(conn: Config) -> (r: Result<Self, AppError>)
        ensures
            Self::accepts(conn@) ==> (r matches Ok(c) && c.wf() && c.model()
                == Self::init_model(conn@)),
            !Self::accepts(conn@) ==> r == Err::<Self, AppError>(AppError::ConnectionError),
    ;

    /// Backend-identifying metadata; fails exactly when the underlying
    /// connection is no longer valid.
    fn details(&self) -> (r: Result<DbConnectionDetails, AppError>)
        requires
            self.wf(),
        ensures
            self.model().alive ==> (r matches Ok(d) && d.driver == self.model().driver
                && d.host@ == self.model().host && d.db_name@ == self.model().db_name),
            !self.model().alive ==> r == Err::<DbConnectionDetails, AppError>(
                AppError::IntrospectionError,
            ),
    ;

    /// Enumerates the tables visible to this connection. A source that
    /// legitimately has no tables yields the empty list as a success,
    /// never an error; the operation fails exactly when the connection is
    /// no longer valid.
    fn load_tables(&self) -> (r: Result<TableList, AppError>)
        requires
            self.wf(),
        ensures
            self.model().alive ==> (r matches Ok(ts) && ts@ == self.model().tables),
            !self.model().alive ==> r == Err::<TableList, AppError>(AppError::IntrospectionError),
    ;

    /// Whether a table with the given name exists on this connection.
    /// Absence is reported in the returned value, never as an error; the
    /// operation fails exactly when the connection is no longer valid.
    fn table_exists(&self, name: &str) -> (r: Result<bool, AppError>)
        requires
            self.wf(),
        ensures
            self.model().alive ==> r == Ok::<bool, AppError>(
                has_table(self.model().tables, name@),
            ),
            !self.model().alive ==> r == Err::<bool, AppError>(AppError::IntrospectionError),
    ;

    /// Persists a configuration for the named table: into this instance's
    /// own memory when `save_local` is set, otherwise onto the outgoing
    /// queue for the remote configuration store. Fails when the table does
    /// not exist on this connection or the connection is no longer valid.
    fn save_table_config(
        &mut self,
        table_name: &str,
        table_config: TableConfig,
        save_local: bool,
    ) -> (r: Result<(), AppError>)
        requires
            old(self).wf(),
        ensures
            final(self).wf(),
            !old(self).model().alive ==> (r == Err::<(), AppError>(AppError::IntrospectionError)
                && final(self).model() == old(self).model()),
            (old(self).model().alive && !has_table(old(self).model().tables, table_name@)) ==> (
                r == Err::<(), AppError>(AppError::TableNotFound)
                && final(self).model() == old(self).model()),
            (old(self).model().alive && has_table(old(self).model().tables, table_name@)) ==> ({
                &&& r == Ok::<(), AppError>(())
                &&& save_local ==> saved_local(
                    old(self).model(),
                    final(self).model(),
                    table_name@,
                    table_config,
                )
                &&& !save_local ==> saved_remote(
                    old(self).model(),
                    final(self).model(),
                    table_name@,
                    table_config,
                )
            }),
    ;
}

/// The concrete driver for the MySQL-family backend — the one backend this
/// core assumes concrete. It keeps the connection identity, its table
/// catalogue and its locally saved table configurations in memory.
#[derive(Debug)]
pub struct MysqlConn {
    host: String,
    db_name: String,
    tables: Vec<BasableTable>,
    local_configs: StringMap<TableConfig>,
    remote_saves: Vec<(String, TableConfig)>,
    alive: bool,
}

impl BasableConnection for MysqlConn {
    closed spec fn model(&self) -> ConnModel {
        ConnModel {
            driver: Database::Mysql,
            host: self.host@,
            db_name: self.db_name@,
            tables: self.tables@,
            local_configs: self.local_configs@,
            remote_saves: self.remote_saves@,
            alive: self.alive,
        }
    }

    closed spec fn wf(&self) -> bool {
        self.local_configs.wf()
    }

    open spec fn accepts(config: ConfigModel) -> bool {
        config.source_type == SourceType::Database(Database::Mysql) && config.host.len() > 0
    }

    open spec fn init_model(config: ConfigModel) -> ConnModel {
        ConnModel {
            driver: Database::Mysql,
            host: config.host,
            db_name: config.db_name,
            tables: Seq::empty(),
            local_configs: Map::empty(),
            remote_saves: Seq::empty(),
            alive: true,
        }
    }

    fn new(conn: Config) -> (r: Result<Self, AppError>) {
        let supported = match conn.source_type {
            SourceType::Database(db) => match db {
                Database::Mysql => true,
                _ => false,
            },
            _ => false,
        };
        if !supported || conn.host.as_str().is_empty() {
            return Err(AppError::ConnectionError);
        }
        Ok(MysqlConn {
            host: conn.host,
            db_name: conn.db_name,
            tables: Vec::new(),
            local_configs: StringMap::new(),
            remote_saves: Vec::new(),
            alive: true,
        })
    }

    fn details(&self) -> (r: Result<DbConnectionDetails, AppError>) {
        if !self.alive {
            return Err(AppError::IntrospectionError);
        }
        Ok(DbConnectionDetails {
            driver: Database::Mysql,
            host: self.host.clone(),
            db_name: self.db_name.clone(),
        })
    }

    fn load_tables(&self) -> (r: Result<TableList, AppError>) {
        if !self.alive {
            return Err(AppError::IntrospectionError);
        }
        let n = self.tables.len();
        let mut out: TableList = Vec::new();
        let mut i: usize = 0;
        while i < n
            invariant
                self.alive,
                n == self.tables@.len(),
                0 <= i <= n,
                out@.len() == i,
                forall|j: int| 0 <= j < i ==> out@[j] == self.tables@[j],
            decreases n - i,
        {
            out.push(self.tables[i].clone());
            i += 1;
        }
        proof {
            assert(out@ =~= self.tables@);
        }
        Ok(out)
    }

    fn table_exists(&self, name: &str) -> (r: Result<bool, AppError>) {
        if !self.alive {
            return Err(AppError::IntrospectionError);
        }
        let owned: String = name.to_owned();
        let n = self.tables.len();
        let mut i: usize = 0;
        while i < n
            invariant
                self.alive,
                n == self.tables@.len(),
                0 <= i <= n,
                owned@ == name@,
                forall|j: int| 0 <= j < i ==> self.tables@[j].name@ != name@,
            decreases n - i,
        {
            if self.tables[i].name == owned {
                proof {
                    assert(0 <= i < self.tables@.len() && self.tables@[i as int].name@ == name@);
                }
                return Ok(true);
            }
            i += 1;
        }
        Ok(false)
    }

    fn save_table_config(
        &mut self,
        table_name: &str,
        table_config: TableConfig,
        save_local: bool,
    ) -> (r: Result<(), AppError>) {
        if !self.alive {
            return Err(AppError::IntrospectionError);
        }
        let present = match self.table_exists(table_name) {
            Ok(b) => b,
            Err(e) => {
                return Err(e);
            },
        };
        if !present {
            return Err(AppError::TableNotFound);
        }
        if save_local {
            self.local_configs.insert(table_name.to_owned(), table_config);
            Ok(())
        } else {
            self.remote_saves.push((table_name.to_owned(), table_config));
            proof {
                assert(self.remote_saves@.drop_last() =~= old(self).remote_saves@);
            }
            Ok(())
        }
    }
}

impl MysqlConn {
    /// Releases the underlying connection; every later operation on this
    /// instance reports that it is no longer valid. The rest of the state
    /// is kept.
    pub fn close(&mut self)
        ensures
            final(self).wf() == old(self).wf(),
            !final(self).model().alive,
            final(self).model().driver == old(self).model().driver,
            final(self).model().host == old(self).model().host,
            final(self).model().db_name == old(self).model().db_name,
            final(self).model().tables == old(self).model().tables,
            final(self).model().local_configs == old(self).model().local_configs,
            final(self).model().remote_saves == old(self).model().remote_saves,
    {
        self.alive = false;
    }

    /// Whether the connection is still valid.
    pub fn is_open(&self) -> (r: bool)
        ensures
            r == self.model().alive,
    {
        self.alive
    }

    /// Records a table in this driver's in-memory catalogue, standing in
    /// for discovery against a live backend.
    pub fn add_table(&mut self, table: BasableTable)
        ensures
            final(self).wf() == old(self).wf(),
            final(self).model().tables == old(self).model().tables.push(table),
            final(self).model().driver == old(self).model().driver,
            final(self).model().host == old(self).model().host,
            final(self).model().db_name == old(self).model().db_name,
            final(self).model().local_configs == old(self).model().local_configs,
            final(self).model().remote_saves == old(self).model().remote_saves,
            final(self).model().alive == old(self).model().alive,
    {
        self.tables.push(table);
    }

    /// The configuration saved locally for `table_name`, if any: local
    /// saves are reflected by later introspection on the same instance.
    pub fn table_config<'a>(&'a self, table_name: &str) -> (r: Option<&'a TableConfig>)
        requires
            self.wf(),
        ensures
            match r {
                Some(c) => self.model().local_configs.contains_key(table_name@) && *c
                    == self.model().local_configs[table_name@],
                None => !self.model().local_configs.contains_key(table_name@),
            },
    {
        self.local_configs.get(table_name)
    }

    /// How many saves this instance has handed to the remote
    /// configuration store.
    pub fn remote_save_count(&self) -> (r: usize)
        ensures
            r == self.model().remote_saves.len(),
    {
        self.remote_saves.len()
    }
}

/// The handle around exactly one driver instance. An operation requires
/// the handle by `&mut`, so access is always fully exclusive — there is no
/// read/write distinction, because even enumeration may refresh driver
/// state on a real backend — and two operations on the same handle can
/// never interleave. Callers that share one connection across threads put
/// the handle itself behind a lock; callers on different handles proceed
/// independently.
#[derive(Debug)]
pub struct SharedConnection {
    driver: MysqlConn,
}

impl SharedConnection {
    /// The abstract state of the wrapped driver.
    pub closed spec fn model(&self) -> ConnModel {
        self.driver.model()
    }

    /// Internal well-formedness of the wrapped driver.
    pub closed spec fn wf(&self) -> bool {
        self.driver.wf()
    }

    /// Wraps one driver instance; the handle takes sole ownership of it.
    pub fn wrap(driver: MysqlConn) -> (r: Self)
        ensures
            r.wf() == driver.wf(),
            r.model() == driver.model(),
    {
        SharedConnection { driver }
    }

    /// Backend-identifying metadata of the wrapped connection.
    pub fn details(&mut self) -> (r: Result<DbConnectionDetails, AppError>)
        requires
            old(self).wf(),
        ensures
            *final(self) == *old(self),
            old(self).model().alive ==> (r matches Ok(d) && d.driver == old(self).model().driver
                && d.host@ == old(self).model().host && d.db_name@ == old(self).model().db_name),
            !old(self).model().alive ==> r == Err::<DbConnectionDetails, AppError>(
                AppError::IntrospectionError,
            ),
    {
        self.driver.details()
    }

    /// Enumerates the tables visible to the wrapped connection; a source
    /// with no tables yields the empty list as a success.
    pub fn load_tables(&mut self) -> (r: Result<TableList, AppError>)
        requires
            old(self).wf(),
        ensures
            *final(self) == *old(self),
            old(self).model().alive ==> (r matches Ok(ts) && ts@ == old(self).model().tables),
            !old(self).model().alive ==> r == Err::<TableList, AppError>(
                AppError::IntrospectionError,
            ),
    {
        self.driver.load_tables()
    }

    /// Whether a table with the given name exists on the wrapped
    /// connection.
    pub fn table_exists(&mut self, name: &str) -> (r: Result<bool, AppError>)
        requires
            old(self).wf(),
        ensures
            *final(self) == *old(self),
            old(self).model().alive ==> r == Ok::<bool, AppError>(
                has_table(old(self).model().tables, name@),
            ),
            !old(self).model().alive ==> r == Err::<bool, AppError>(AppError::IntrospectionError),
    {
        self.driver.table_exists(name)
    }

    /// Persists a configuration for the named table, locally or towards
    /// the remote store; see the connection contract.
    pub fn save_table_config(
        &mut self,
        table_name: &str,
        table_config: TableConfig,
        save_local: bool,
    ) -> (r: Result<(), AppError>)
        requires
            old(self).wf(),
        ensures
            final(self).wf(),
            !old(self).model().alive ==> (r == Err::<(), AppError>(AppError::IntrospectionError)
                && final(self).model() == old(self).model()),
            (old(self).model().alive && !has_table(old(self).model().tables, table_name@)) ==> (
                r == Err::<(), AppError>(AppError::TableNotFound)
                && final(self).model() == old(self).model()),
            (old(self).model().alive && has_table(old(self).model().tables, table_name@)) ==> ({
                &&& r == Ok::<(), AppError>(())
                &&& save_local ==> saved_local(
                    old(self).model(),
                    final(self).model(),
                    table_name@,
                    table_config,
                )
                &&& !save_local ==> saved_remote(
                    old(self).model(),
                    final(self).model(),
                    table_name@,
                    table_config,
                )
            }),
    {
        self.driver.save_table_config(table_name, table_config, save_local)
    }

    /// Releases the wrapped connection; later operations report that it is
    /// no longer valid.
    pub fn close(&mut self)
        ensures
            final(self).wf() == old(self).wf(),
            !final(self).model().alive,
            final(self).model().driver == old(self).model().driver,
            final(self).model().host == old(self).model().host,
            final(self).model().db_name == old(self).model().db_name,
            final(self).model().tables == old(self).model().tables,
            final(self).model().local_configs == old(self).model().local_configs,
            final(self).model().remote_saves == old(self).model().remote_saves,
    {
        self.driver.close()
    }

    /// Whether the wrapped connection is still valid.
    pub fn is_open(&self) -> (r: bool)
        ensures
            r == self.model().alive,
    {
        self.driver.is_open()
    }

    /// Records a table in the wrapped driver's catalogue, standing in for
    /// discovery against a live backend.
    pub fn add_table(&mut self, table: BasableTable)
        ensures
            final(self).wf() == old(self).wf(),
            final(self).model().tables == old(self).model().tables.push(table),
            final(self).model().driver == old(self).model().driver,
            final(self).model().host == old(self).model().host,
            final(self).model().db_name == old(self).model().db_name,
            final(self).model().local_configs == old(self).model().local_configs,
            final(self).model().remote_saves == old(self).model().remote_saves,
            final(self).model().alive == old(self).model().alive,
    {
        self.driver.add_table(table)
    }

    /// The configuration saved locally for `table_name`, if any: local
    /// saves are reflected by later introspection on the same handle.
    pub fn table_config<'a>(&'a self, table_name: &str) -> (r: Option<&'a TableConfig>)
        requires
            self.wf(),
        ensures
            match r {
                Some(c) => self.model().local_configs.contains_key(table_name@) && *c
                    == self.model().local_configs[table_name@],
                None => !self.model().local_configs.contains_key(table_name@),
            },
    {
        self.driver.table_config(table_name)
    }

    /// How many saves the wrapped driver has handed to the remote
    /// configuration store.
    pub fn remote_save_count(&self) -> (r: usize)
        ensures
            r == self.model().remote_saves.len(),
    {
        self.driver.remote_save_count()
    }
}

/// A connection freshly created from an accepted configuration reports
/// details that reflect exactly that configuration: `new` leaves the
/// driver in `init_model(config)`, whose identity fields are the
/// configuration's, whose catalogue is empty and which is alive — so
/// `details` reports the configuration's host and database, and
/// `load_tables` succeeds with the empty list.
pub proof fn lemma_fresh_connection_reflects_config(config: ConfigModel)
    requires
        MysqlConn::accepts(config),
    ensures
        MysqlConn::init_model(config).driver == Database::Mysql,
        MysqlConn::init_model(config).host == config.host,
        MysqlConn::init_model(config).db_name == config.db_name,
        MysqlConn::init_model(config).alive,
        MysqlConn::init_model(config).tables =~= Seq::<BasableTable>::empty(),
{
}

} // verus!
