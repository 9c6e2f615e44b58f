//! Value codecs, type metadata and SQL text rewriting for KingbaseES
//! compatibility modes.

pub mod wire;
pub mod text;
pub mod sql_compat;
pub mod sql_compat_laws;
pub mod builtin;
pub mod types;
pub mod error;
pub mod codec;
pub mod protocol;
pub mod mysql_bit;
pub mod kingbase;
pub mod numeric;
pub mod primitive;
pub mod decimal;
pub mod numeric_text;
pub mod sys_types;
pub mod mysql_types;
pub mod query;
pub mod type_system;
pub mod connect;
pub mod statement;
pub mod prepare;
pub mod dat;
pub mod catalog;
pub mod catalog_text;
pub mod catalog_build;
pub mod catalog_gen;
pub mod wrappers;
pub mod array;
pub mod messages;
pub mod system_time;
pub mod uuid_codec;
pub mod hstore;
