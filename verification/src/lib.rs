//! Link reconciliation: ties a requesting chat-platform identity to an
//! external game account through an authoritative lookup, records the pair
//! as a bidirectionally unique mapping, and classifies every conflict that
//! a link attempt can run into.

pub mod ids;
pub mod lookup;
pub mod reconcile;
pub mod store;

pub use ids::ExternalAccountId;
pub use ids::LinkRecord;
pub use ids::RequesterId;
