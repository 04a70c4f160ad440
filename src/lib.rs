//! State-transition core of a ticket-issuance and resale marketplace.
//!
//! Events are created and deactivated by their organizer; tickets are minted
//! against active events, listed for resale under the event's price ceiling,
//! and bought with a royalty routed back to the organizer. Every operation is
//! a pure transition over plain records: it validates, mutates and returns the
//! payments and token moves it asks the host to perform, together with the
//! notification it emits. A rejected operation leaves every record unchanged.
pub mod laws;
pub mod ledger;
pub mod market;
pub mod registry;
pub mod types;
