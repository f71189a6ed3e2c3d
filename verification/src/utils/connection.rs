//! The configuration of the connection to the document store.

use crate::utils::decimal::{parse_u32, parse_u64, parse_unsigned};
use vstd::prelude::*;

verus! {

/// The database that holds the service's collection.
pub const DATABASE_NAME: &'static str = "vinod";

/// The collection that holds the quotes.
pub const COLLECTION_NAME: &'static str = "quotes";

/// A variable of the environment that the configuration is read from.
#[derive(Clone, Copy, Debug, PartialEq, Eq, Structural)]
pub enum Variable {
    /// `MONGO_URI`: where the store is.
    MongoUri,
    /// `MONGO_CONNECTION_TIMEOUT`: seconds to wait for a connection.
    MongoConnectionTimeout,
    /// `MONGO_MIN_POOL_SIZE`: the fewest connections to keep.
    MongoMinPoolSize,
    /// `MONGO_MAX_POOL_SIZE`: the most connections to keep.
    MongoMaxPoolSize,
}

/// What is wrong with the settings. The service cannot start on them.
#[derive(Clone, Copy, Debug, PartialEq, Eq, Structural)]
pub enum ConfigError {
    /// The variable is not set.
    Missing(Variable),
    /// The variable is set, but not to the decimal form of a number that its
    /// setting can hold.
    Invalid(Variable),
}

/// A way to compress what goes to the store and comes from it.
#[derive(Clone, Copy, Debug, PartialEq, Eq, Structural)]
pub enum Compressor {
    Snappy,
    Zlib { level: Option<i32> },
    Zstd { level: Option<i32> },
}

/// How to connect to the store.
#[derive(Debug, PartialEq, Eq)]
pub struct DatabaseConfig {
    pub uri: String,
    /// Seconds to wait for a connection.
    pub connection_timeout: Option<u64>,
    pub min_pool_size: Option<u32>,
    pub max_pool_size: Option<u32>,
    pub compressors: Option<Vec<Compressor>>,
}

/// The compressors that are offered to the store, which picks the first it
/// supports: snappy, zlib and zstd, the last two at their default level.
pub open spec fn offered_compressors() -> Seq<Compressor> {
    seq![
        Compressor::Snappy,
        Compressor::Zlib { level: None },
        Compressor::Zstd { level: None },
    ]
}

/// The first thing wrong with the settings, going through the address, the
/// timeout, the least and the greatest pool size in this order; `None` where
/// all four are set, the timeout to the decimal form of a `u64` and the pool
/// sizes to those of a `u32`.
pub open spec fn first_fault(
    uri: Option<String>,
    connection_timeout: Option<String>,
    min_pool_size: Option<String>,
    max_pool_size: Option<String>,
) -> Option<ConfigError> {
    if uri is None {
        Some(ConfigError::Missing(Variable::MongoUri))
    } else if connection_timeout is None {
        Some(ConfigError::Missing(Variable::MongoConnectionTimeout))
    } else if parse_unsigned(connection_timeout->0@, u64::MAX as nat) is None {
        Some(ConfigError::Invalid(Variable::MongoConnectionTimeout))
    } else if min_pool_size is None {
        Some(ConfigError::Missing(Variable::MongoMinPoolSize))
    } else if parse_unsigned(min_pool_size->0@, u32::MAX as nat) is None {
        Some(ConfigError::Invalid(Variable::MongoMinPoolSize))
    } else if max_pool_size is None {
        Some(ConfigError::Missing(Variable::MongoMaxPoolSize))
    } else if parse_unsigned(max_pool_size->0@, u32::MAX as nat) is None {
        Some(ConfigError::Invalid(Variable::MongoMaxPoolSize))
    } else {
        None
    }
}

impl Variable {
    /// The name of the variable in the environment.
    pub fn name(&self) -> (name: &'static str)
        ensures
            name == match *self {
                Variable::MongoUri => "MONGO_URI",
                Variable::MongoConnectionTimeout => "MONGO_CONNECTION_TIMEOUT",
                Variable::MongoMinPoolSize => "MONGO_MIN_POOL_SIZE",
                Variable::MongoMaxPoolSize => "MONGO_MAX_POOL_SIZE",
            },
    {
        match self {
            Variable::MongoUri => "MONGO_URI",
            Variable::MongoConnectionTimeout => "MONGO_CONNECTION_TIMEOUT",
            Variable::MongoMinPoolSize => "MONGO_MIN_POOL_SIZE",
            Variable::MongoMaxPoolSize => "MONGO_MAX_POOL_SIZE",
        }
    }
}

impl ConfigError {
    /// The variable that is at fault.
    pub fn variable(&self) -> (variable: Variable)
        ensures
            variable == match *self {
                ConfigError::Missing(v) => v,
                ConfigError::Invalid(v) => v,
            },
    {
        match self {
            ConfigError::Missing(v) => *v,
            ConfigError::Invalid(v) => *v,
        }
    }
}

impl DatabaseConfig {
    /// The first thing wrong with the four settings, each handed over as the
    /// environment has it: `None` where the variable is not set. Gives
    /// `None` exactly where [`DatabaseConfig::new`] can be called on them.
    pub fn find_fault(
        uri: &Option<String>,
        connection_timeout: &Option<String>,
        min_pool_size: &Option<String>,
        max_pool_size: &Option<String>,
    ) -> (fault: Option<ConfigError>)
        ensures
            fault == first_fault(*uri, *connection_timeout, *min_pool_size, *max_pool_size),
    {
        if uri.is_none() {
            return Some(ConfigError::Missing(Variable::MongoUri));
        }
        match connection_timeout {
            Some(text) => {
                if parse_u64(text.as_str()).is_none() {
                    return Some(ConfigError::Invalid(Variable::MongoConnectionTimeout));
                }
            },
            None => return Some(ConfigError::Missing(Variable::MongoConnectionTimeout)),
        }
        match min_pool_size {
            Some(text) => {
                if parse_u32(text.as_str()).is_none() {
                    return Some(ConfigError::Invalid(Variable::MongoMinPoolSize));
                }
            },
            None => return Some(ConfigError::Missing(Variable::MongoMinPoolSize)),
        }
        match max_pool_size {
            Some(text) => {
                if parse_u32(text.as_str()).is_none() {
                    return Some(ConfigError::Invalid(Variable::MongoMaxPoolSize));
                }
            },
            None => return Some(ConfigError::Missing(Variable::MongoMaxPoolSize)),
        }
        None
    }

    /// The configuration that the four settings give, each handed over as
    /// the environment has it.
    ///
    /// There is a configuration only where nothing is wrong with the
    /// settings: all four are set, the timeout to the decimal form of a
    /// `u64` and the pool sizes to those of a `u32`. Without one the service
    /// cannot start; [`DatabaseConfig::find_fault`] tells beforehand.
    ///
    /// The address is taken as it is, the timeout and the pool sizes are the
    /// numbers read, and the compressors are the fixed list of
    /// [`offered_compressors`].
    pub fn new(
        uri: Option<String>,
        connection_timeout: Option<String>,
        min_pool_size: Option<String>,
        max_pool_size: Option<String>,
    ) -> (config: DatabaseConfig)
        requires
            first_fault(uri, connection_timeout, min_pool_size, max_pool_size) is None,
        ensures
            Some(config.uri) == uri,
            config.connection_timeout matches Some(secs) && Some(secs as nat) == parse_unsigned(
                connection_timeout->0@,
                u64::MAX as nat,
            ),
            config.min_pool_size matches Some(least) && Some(least as nat) == parse_unsigned(
                min_pool_size->0@,
                u32::MAX as nat,
            ),
            config.max_pool_size matches Some(most) && Some(most as nat) == parse_unsigned(
                max_pool_size->0@,
                u32::MAX as nat,
            ),
            config.compressors matches Some(list) && list@ == offered_compressors(),
    {
        let uri = uri.unwrap();
        let connection_timeout = parse_u64(connection_timeout.unwrap().as_str()).unwrap();
        let min_pool_size = parse_u32(min_pool_size.unwrap().as_str()).unwrap();
        let max_pool_size = parse_u32(max_pool_size.unwrap().as_str()).unwrap();
        let mut compressors: Vec<Compressor> = Vec::new();
        compressors.push(Compressor::Snappy);
        compressors.push(Compressor::Zlib { level: None });
        compressors.push(Compressor::Zstd { level: None });
        assert(compressors@ =~= offered_compressors());
        DatabaseConfig {
            uri,
            connection_timeout: Some(connection_timeout),
            min_pool_size: Some(min_pool_size),
            max_pool_size: Some(max_pool_size),
            compressors: Some(compressors),
        }
    }
}

} // verus!
