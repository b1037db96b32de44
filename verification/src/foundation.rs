//! The service registry: the process-wide directory of active users and of
//! the shared connection handle each user owns.

use vstd::prelude::*;
use crate::auth::{create_jwt, token_of, JwtSession};
use crate::config::{Config, Database, SourceType};
use crate::connection::{BasableConnection, MysqlConn, SharedConnection};
use crate::errors::AppError;
use crate::strmap::StringMap;
use crate::user::User;

verus! {

/// Whether `source_type` names the one source this core has a concrete
/// driver for.
pub open spec fn supported_source(source_type: SourceType) -> bool {
    source_type == SourceType::Database(Database::Mysql)
}

/// The registry: one authoritative directory of active users and one of
/// active connections, both keyed by user id.
pub struct Basable {
    pub users: StringMap<User>,
    pub connections: StringMap<SharedConnection>,
}

impl Basable {
    /// Well-formedness: both directories are well-formed, every stored
    /// user carries the id it is filed under, and every stored connection
    /// handle is internally well-formed.
    pub open spec fn wf(&self) -> bool {
        &&& self.users.wf()
        &&& self.connections.wf()
        &&& forall|k: Seq<char>| #[trigger]
            self.users@.contains_key(k) ==> self.users@[k].id@ == k
        &&& forall|k: Seq<char>| #[trigger]
            self.connections@.contains_key(k) ==> self.connections@[k].wf()
    }
}

impl Default for Basable {
    /// A registry with no users and no connections.
    fn default() -> (r: Self)
        ensures
            r.wf(),
            r.users@ == Map::<Seq<char>, User>::empty(),
            r.connections@ == Map::<Seq<char>, SharedConnection>::empty(),
    {
        Basable { users: StringMap::new(), connections: StringMap::new() }
    }
}

impl Basable {
    /// Creates a new driver instance as the configuration requires and
    /// wraps it in an exclusive-access handle. Dispatches purely on the
    /// source-type tag: the one supported variant yields a fresh handle,
    /// every other variant is reported as an unsupported source rather
    /// than silently accepted. No registry entry is made here — the caller
    /// decides under which user id the handle is filed.
    pub fn create_connection(config: &Config) -> (r: Result<Option<SharedConnection>, AppError>)
        ensures
            (supported_source(config@.source_type) && config@.host.len() > 0) ==> (r matches Ok(c)
                && c matches Some(conn) && conn.wf() && conn.model() == MysqlConn::init_model(
                config@,
            )),
            (supported_source(config@.source_type) && config@.host.len() == 0) ==> r
                == Err::<Option<SharedConnection>, AppError>(AppError::ConnectionError),
            !supported_source(config@.source_type) ==> r == Err::<
                Option<SharedConnection>,
                AppError,
            >(AppError::UnsupportedSource),
    {
        match config.source_type {
            SourceType::Database(db) => match db {
                Database::Mysql => {
                    let driver = match MysqlConn::new(config.clone()) {
                        Ok(c) => c,
                        Err(e) => {
                            return Err(e);
                        },
                    };
                    Ok(Some(SharedConnection::wrap(driver)))
                },
                _ => Err(AppError::UnsupportedSource),
            },
            _ => Err(AppError::UnsupportedSource),
        }
    }

    /// Hands out the connection filed under `user_id`: a pure lookup, with
    /// absence as a normal outcome — a user that has not connected yet.
    pub fn get_connection<'a>(&'a self, user_id: &str) -> (r: Option<&'a SharedConnection>)
        requires
            self.wf(),
        ensures
            match r {
                Some(c) => self.connections@.contains_key(user_id@) && *c
                    == self.connections@[user_id@] && c.wf(),
                None => !self.connections@.contains_key(user_id@),
            },
    {
        self.connections.get(user_id)
    }

    /// Creates a guest user from the request's network origin: mints a
    /// session token bound to the origin, files a not-yet-logged-in user
    /// under the origin as id, and returns the session. Fails exactly when
    /// session minting fails, in which case the registry is untouched.
    pub fn create_guest_user(&mut self, req_ip: &str) -> (r: Result<JwtSession, AppError>)
        requires
            old(self).wf(),
        ensures
            final(self).wf(),
            final(self).connections@ == old(self).connections@,
            req_ip@.len() == 0 ==> (r == Err::<JwtSession, AppError>(AppError::SessionError)
                && final(self).users@ == old(self).users@),
            req_ip@.len() > 0 ==> ({
                &&& r matches Ok(s) && s.token@ == token_of(req_ip@)
                &&& final(self).users@.contains_key(req_ip@)
                &&& final(self).users@[req_ip@].id@ == req_ip@
                &&& final(self).users@[req_ip@].is_logged == false
                &&& final(self).users@[req_ip@].saved_config is None
                &&& forall|k: Seq<char>| k != req_ip@ ==> (final(self).users@.contains_key(k)
                    <==> old(self).users@.contains_key(k))
                &&& forall|k: Seq<char>| k != req_ip@ && old(self).users@.contains_key(k)
                    ==> final(self).users@[k] == old(self).users@[k]
            }),
    {
        let session = match create_jwt(req_ip) {
            Ok(s) => s,
            Err(e) => {
                return Err(e);
            },
        };
        let user = User { id: req_ip.to_owned(), is_logged: false, saved_config: None };
        self.add_user(user);
        Ok(session)
    }

    /// Saves `config` on behalf of `user_id`: the user's own "accept a
    /// saved configuration" operation receives it. A missing user is
    /// reported as a typed error, never treated as fatal.
    pub fn save_config(&mut self, config: &Config, user_id: &str) -> (r: Result<(), AppError>)
        requires
            old(self).wf(),
        ensures
            final(self).wf(),
            final(self).connections@ == old(self).connections@,
            !old(self).users@.contains_key(user_id@) ==> (r == Err::<(), AppError>(
                AppError::UserNotFound,
            ) && final(self).users@ == old(self).users@),
            old(self).users@.contains_key(user_id@) ==> ({
                &&& r == Ok::<(), AppError>(())
                &&& final(self).users@.contains_key(user_id@)
                &&& final(self).users@[user_id@].id@ == user_id@
                &&& final(self).users@[user_id@].is_logged == old(
                    self,
                ).users@[user_id@].is_logged
                &&& final(self).users@[user_id@].saved_config == Some(*config)
                &&& forall|k: Seq<char>| k != user_id@ ==> (final(self).users@.contains_key(k)
                    <==> old(self).users@.contains_key(k))
                &&& forall|k: Seq<char>| k != user_id@ && old(self).users@.contains_key(k)
                    ==> final(self).users@[k] == old(self).users@[k]
            }),
    {
        let mut user = match self.users.remove(user_id) {
            Some(u) => u,
            None => {
                return Err(AppError::UserNotFound);
            },
        };
        user.save_config(config);
        let id = user.id.clone();
        self.users.insert(id, user);
        proof {
            assert(self.users@ =~= old(self).users@.insert(user_id@, self.users@[user_id@]));
        }
        Ok(())
    }

    /// Looks the user up in the active-users directory: a pure lookup,
    /// absence is a normal outcome.
    pub fn find_user<'a>(&'a self, user_id: &str) -> (r: Option<&'a User>)
        requires
            self.wf(),
        ensures
            match r {
                Some(u) => self.users@.contains_key(user_id@) && *u == self.users@[user_id@]
                    && u.id@ == user_id@,
                None => !self.users@.contains_key(user_id@),
            },
    {
        self.users.get(user_id)
    }

    /// Marks the user logged out and removes it from the active-users
    /// directory. On an id with no user this is a no-op, not an error.
    pub fn log_user_out(&mut self, user_id: &str)
        requires
            old(self).wf(),
        ensures
            final(self).wf(),
            final(self).connections@ == old(self).connections@,
            final(self).users@ == old(self).users@.remove(user_id@),
            !final(self).users@.contains_key(user_id@),
            !old(self).users@.contains_key(user_id@) ==> final(self).users@ == old(self).users@,
    {
        match self.users.remove(user_id) {
            Some(mut user) => {
                user.logout();
            },
            None => {
                proof {
                    assert(old(self).users@.remove(user_id@) =~= old(self).users@);
                }
            },
        }
    }

    /// Files `user` in the active-users directory under its own id,
    /// replacing any user already filed there.
    pub fn add_user(&mut self, user: User)
        requires
            old(self).wf(),
        ensures
            final(self).wf(),
            final(self).connections@ == old(self).connections@,
            final(self).users@ == old(self).users@.insert(user.id@, user),
    {
        let id = user.id.clone();
        self.users.insert(id, user);
    }

    /// Files `conn` as the active connection of `user_id`, replacing any
    /// earlier entry. A replaced connection is closed before it is
    /// dropped, so its backend resources are released explicitly.
    pub fn add_connection(&mut self, user_id: String, conn: SharedConnection)
        requires
            old(self).wf(),
            conn.wf(),
        ensures
            final(self).wf(),
            final(self).users@ == old(self).users@,
            final(self).connections@ == old(self).connections@.insert(user_id@, conn),
    {
        match self.connections.remove(user_id.as_str()) {
            Some(mut previous) => {
                previous.close();
            },
            None => {},
        }
        self.connections.insert(user_id, conn);
        proof {
            assert(self.connections@ =~= old(self).connections@.insert(user_id@, conn));
        }
    }
}

/// An id that was never filed is absent: a registry starts with an empty
/// connection directory, and adding a connection for one id keeps every
/// other id absent — so `get_connection` returns `None` for an id never
/// passed to `add_connection`.
pub proof fn lemma_never_added_still_absent(
    directory: Map<Seq<char>, SharedConnection>,
    absent_id: Seq<char>,
    added_id: Seq<char>,
    conn: SharedConnection,
)
    requires
        !directory.contains_key(absent_id),
        added_id != absent_id,
    ensures
        !Map::<Seq<char>, SharedConnection>::empty().contains_key(absent_id),
        !directory.insert(added_id, conn).contains_key(absent_id),
{
}

/// Adding a connection and looking the same id up round-trips to the very
/// handle that was added, and a second add for the same id supersedes the
/// first: `get_connection` hands out the most recently added instance.
pub proof fn lemma_add_then_get(
    directory: Map<Seq<char>, SharedConnection>,
    id: Seq<char>,
    first: SharedConnection,
    second: SharedConnection,
)
    ensures
        directory.insert(id, first).contains_key(id),
        directory.insert(id, first)[id] == first,
        directory.insert(id, first).insert(id, second)[id] == second,
{
}

/// A user filed as a guest is found again under its origin, not yet
/// logged in: guest creation inserts a user with `is_logged` false, and
/// `find_user` hands out exactly the filed user.
pub proof fn lemma_guest_then_find(directory: Map<Seq<char>, User>, origin: Seq<char>, guest: User)
    requires
        guest.is_logged == false,
    ensures
        directory.insert(origin, guest).contains_key(origin),
        directory.insert(origin, guest)[origin] == guest,
        directory.insert(origin, guest)[origin].is_logged == false,
{
}

/// Logging a user out removes it: after the directory drops an id, a
/// lookup for that id finds nothing; and dropping an absent id changes
/// nothing — the no-op case of `log_user_out`.
pub proof fn lemma_logout_removes(directory: Map<Seq<char>, User>, id: Seq<char>)
    ensures
        !directory.remove(id).contains_key(id),
        !directory.contains_key(id) ==> directory.remove(id) == directory,
{
    if !directory.contains_key(id) {
        assert(directory.remove(id) =~= directory);
    }
}

} // verus!
