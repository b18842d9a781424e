//! Runtime support for small stateful actors that mirror rows of key-value
//! tables, react to row changes and republish their own output rows.

pub mod actor;
pub mod bridge;
pub mod codec;
pub mod config_tables;
pub mod hamgrd;
pub mod key;
pub mod key_set;
pub mod message;
pub mod oneshot_lazy;
pub mod row;
pub mod service_path;
pub mod state;
pub mod table_watcher;
pub mod tables;
pub mod text;
