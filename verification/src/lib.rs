//! Core logic of a bridge that serves the Active Worlds SDK interface on top of
//! the Virtual Paradise SDK: return-code translation, cell and sector
//! arithmetic, the attribute store of an instance, and the decisions the
//! exported SDK entry points make.

pub mod rc;
pub mod query;
pub mod keyed;
pub mod sdk;
pub mod attributes;
pub mod instance;
pub mod globals;
pub mod login;
pub mod hooks;
pub mod session;
