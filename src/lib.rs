//! A small inventory tracker for garments: where the data file lives, how
//! records are encoded for the store, which statements the store runs and
//! what they do to the table, and how records are presented.

pub mod item;
pub mod location;
pub mod store;
pub mod time;
pub mod utils;
pub mod view;

pub use item::{Item, Row};
pub use location::{database_file, database_url, Location, PathKind, StoreDir};
pub use store::{SortItems, Statement, Value};
pub use time::Timestamp;
pub use utils::{compare_optional_datetimes, default_color, join_comma, split_comma};
