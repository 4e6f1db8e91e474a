//! Price-oracle aggregation core: the closed set of source kinds, the
//! admission rules for a source configuration, the routing of a price request
//! to the matching feed or to a derived-price computation, and the derived
//! prices themselves.

pub mod dispatch;
pub mod errors;
pub mod fixed_price;
pub mod jupiter_lp;
pub mod laws;
pub mod math;
pub mod oracle_type;
pub mod price;
pub mod routes;
pub mod stores;
pub mod twap;
pub mod validation;

pub use dispatch::{check_context, get_price, FeedReply, FeedRequest, PoolReply, RemainingAccounts};
pub use errors::ScopeError;
pub use jupiter_lp::{LpPool, PoolHolding};
pub use oracle_type::OracleType;
pub use price::{DatedPrice, Price};
pub use routes::{AccountCheck, Admission, Feed, Route};
pub use stores::{
    Clock, MappingEntry, OracleMappings, OraclePrices, OracleTwaps, Pubkey, TwapHistory, TwapSample,
    MAX_ENTRIES,
};
pub use validation::validate_oracle_cfg;
