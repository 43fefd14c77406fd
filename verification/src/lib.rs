//! A directory-listing library: decodes permission bits into symbolic
//! triads, resolves numeric owner/group identifiers to names, filters
//! hidden entries, and renders metadata records either as bare paths or
//! as fixed-width long-format lines.

pub mod engine;
pub mod errors;
pub mod ident;
pub mod meta;
pub mod perm;
pub mod render;
pub mod traverse;
