//! Rollback bookkeeping with desync detection for a peer-to-peer simulation:
//! state fingerprints, per-frame fingerprint ledgers, the validity window that
//! decides which frames may be disclosed, the snapshot policy and the report
//! that rides along with every input packet.
pub mod checksum;
pub mod ledger;
pub mod physics;
pub mod rollback;
pub mod window;
