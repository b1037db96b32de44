//! Connection configuration: which kind of data source to reach and the
//! backend-specific details needed to reach it.

use vstd::prelude::*;

verus! {

/// The database variants a [`SourceType::Database`] configuration may name.
/// Only [`Database::Mysql`] has a concrete driver in this core; the others
/// are reserved extension points.
#[derive(Clone, Copy, Debug, PartialEq, Eq, Structural)]
pub enum Database {
    Mysql,
    Postgres,
}

/// The category of data source a configuration targets. The tag fully
/// determines which driver the registry instantiates; non-database kinds
/// are reserved for future source types.
#[derive(Clone, Copy, Debug, PartialEq, Eq, Structural)]
pub enum SourceType {
    Database(Database),
    File,
}

/// The mathematical value of a [`Config`]: the source tag and the views of
/// its connection details.
pub ghost struct ConfigModel {
    pub source_type: SourceType,
    pub host: Seq<char>,
    pub db_name: Seq<char>,
    pub username: Seq<char>,
}

/// Describes how to reach one data source. The source-type tag is set at
/// construction and never changes; it decides which driver is built.
#[derive(Debug)]
pub struct Config {
    pub source_type: SourceType,
    pub host: String,
    pub db_name: String,
    pub username: String,
}

impl View for Config {
    type V = ConfigModel;

    open spec fn view(&self) -> ConfigModel {
        ConfigModel {
            source_type: self.source_type,
            host: self.host@,
            db_name: self.db_name@,
            username: self.username@,
        }
    }
}

impl Config {
    /// The immutable source-type tag of this configuration.
    pub fn source_type(&self) -> (r: SourceType)
        ensures
            r == self@.source_type,
    {
        self.source_type
    }
}

impl Clone for Config {
    fn clone(&self) -> (r: Self)
        ensures
            r == *self,
    {
        Config {
            source_type: self.source_type,
            host: self.host.clone(),
            db_name: self.db_name.clone(),
            username: self.username.clone(),
        }
    }
}

} // verus!
