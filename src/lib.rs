//! An allowlist gate for account addresses: address canonicalization, the
//! request pipeline that turns store outcomes into response summaries, and
//! the set semantics of the allowlist itself.

pub mod address;
pub mod member_set;
pub mod pipeline;
pub mod startup;
