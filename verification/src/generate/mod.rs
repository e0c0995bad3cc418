pub mod mode;
pub mod error;
pub mod schema;
pub mod names;
pub mod repr;
pub mod flags;
pub mod enums;
pub mod tagged_int;
pub mod handle;
pub mod tokens;
pub mod datatypes;
pub mod layout;
pub mod funcs;
