//! Properties that hold across operations of the marketplace.
use vstd::prelude::*;

use crate::ledger::{cancel_rejection, counted, list_rejection, listed};
use crate::market::buy_rejection;
use crate::registry::{create_rejection, deactivate_rejection, deactivated, new_event};
use crate::types::{ErrorCode, Event, Pubkey, Ticket, MAX_ROYALTY_PERCENTAGE};

verus! {

/// Every event that creation accepts is valid, and parameters with a royalty
/// above the cap, a zero price or a resale ceiling below the price are always
/// rejected.
pub proof fn created_events_are_valid(
    organizer: Pubkey,
    name: String,
    original_price: u64,
    max_resale_price: u64,
    royalty_percentage: u8,
    event_uri: String,
    created_at: i64,
    bump: u8,
)
    ensures
        create_rejection(name, original_price, max_resale_price, royalty_percentage, event_uri)
            is None ==> new_event(
            organizer,
            name,
            original_price,
            max_resale_price,
            royalty_percentage,
            event_uri,
            created_at,
            bump,
        ).wf(),
        royalty_percentage > MAX_ROYALTY_PERCENTAGE || original_price == 0 || max_resale_price
            < original_price ==> create_rejection(
            name,
            original_price,
            max_resale_price,
            royalty_percentage,
            event_uri,
        ) is Some,
{
}

/// Minting and deactivation keep a valid event valid.
pub proof fn stored_events_stay_valid(event: Event)
    requires
        event.wf(),
    ensures
        counted(event).wf(),
        deactivated(event).wf(),
{
}

/// Deactivation is irreversible: its organizer's attempt on an inactive event,
/// in particular a second attempt after a successful one, fails with
/// `EventNotActive`.
pub proof fn deactivation_is_final(event: Event, caller: Pubkey)
    requires
        caller == event.organizer,
    ensures
        !event.active ==> deactivate_rejection(event, caller) == Some(ErrorCode::EventNotActive),
        deactivate_rejection(event, caller) is None ==> deactivate_rejection(
            deactivated(event),
            caller,
        ) == Some(ErrorCode::EventNotActive),
{
}

/// Listing a ticket twice in a row fails the second time with
/// `AlreadyListed`, whatever the two prices.
pub proof fn listing_twice_fails(ticket: Ticket, event: Event, owner: Pubkey, first: u64, second: u64)
    requires
        list_rejection(ticket, event, owner, first) is None,
    ensures
        list_rejection(listed(ticket, first), event, owner, second) == Some(
            ErrorCode::AlreadyListed,
        ),
{
}

/// Its owner's cancellation of an unlisted ticket fails with `NotListed`.
pub proof fn cancelling_unlisted_fails(ticket: Ticket, owner: Pubkey)
    requires
        ticket.current_owner == owner,
        !ticket.for_sale,
    ensures
        cancel_rejection(ticket, owner) == Some(ErrorCode::NotListed),
{
}

/// The current owner of a listed ticket can never buy it, whatever its price.
pub proof fn self_purchase_is_rejected(ticket: Ticket, buyer: Pubkey)
    requires
        ticket.for_sale,
        ticket.current_owner == buyer,
    ensures
        buy_rejection(ticket, buyer) == Some(ErrorCode::CannotBuyOwnTicket),
{
}

/// For its owner's unlisted ticket of a valid event, any price above the
/// event's resale ceiling fails with `PriceExceedsMax`, and the ceiling
/// itself is accepted.
pub proof fn resale_ceiling_is_inclusive(ticket: Ticket, event: Event, owner: Pubkey, price: u64)
    requires
        event.wf(),
        ticket.current_owner == owner,
        !ticket.for_sale,
    ensures
        price > event.max_resale_price ==> list_rejection(ticket, event, owner, price) == Some(
            ErrorCode::PriceExceedsMax,
        ),
        list_rejection(ticket, event, owner, event.max_resale_price) is None,
{
}

} // verus!
