//! Decision and data logic of an engineering-artifact toolkit: entity
//! identities and links, CSV import rules, production-lot and CAPA state
//! changes, list filtering and ordering, and report summaries.

pub mod text;
pub mod helpers;
pub mod identity;
pub mod yaml;
pub mod link;
pub mod listing;
pub mod entities;
pub mod common;
pub mod lot;
pub mod args;
pub mod capa;
pub mod report;
pub mod import;
pub mod assembly;
pub mod history;
pub mod ncr;
pub mod proc;
pub mod feat;
pub mod ctrl;
pub mod mate;
pub mod quote;
pub mod cmp;
