//! Snowflake source of the connector: the type system of Snowflake columns,
//! the connection-string parsing, the source, partition and parser state,
//! and the transport of Snowflake types to Arrow types.

pub mod conn;
pub mod decode;
pub mod errors;
pub mod parser;
pub mod source;
pub mod sql;
pub mod text;
pub mod typesystem;
pub mod transport;
