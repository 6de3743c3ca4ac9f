//! Vote activities of a federated platform: the two-valued vote encoding, the
//! per-actor vote ledger with overwrite semantics, the fetch-or-create record
//! tables with a per-run request budget, verification, dispatch, the outbound
//! builder and the relay that forwards each activity id at most once.

pub mod uri;
pub mod vote_type;
pub mod table;
pub mod ledger;
pub mod resolver;
pub mod activity;
pub mod relay;
