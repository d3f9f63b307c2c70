//! SEPA direct-debit initiation documents (`pain.008.001.11`): domain values,
//! the message schema, the assembler that fills it and the XML text it renders to.

pub mod calendar;
pub mod conventions;
pub mod database;
pub mod domain;
pub mod generation;
pub mod logging;
pub mod properties;
pub mod schema;
pub mod text;
pub mod xml;
