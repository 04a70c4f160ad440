//! Creating and deactivating events.
use vstd::prelude::*;
use vstd::string::StrSliceExecFns;

use crate::types::{
    ErrorCode, Event, EventCreated, EventDeactivated, Pubkey, MAX_NAME_LEN, MAX_URI_LEN,
    MAX_ROYALTY_PERCENTAGE,
};

verus! {

/// Why creating an event with these parameters is refused, checked in this
/// order.
pub open spec fn create_rejection(
    name: String,
    original_price: u64,
    max_resale_price: u64,
    royalty_percentage: u8,
    event_uri: String,
) -> Option<ErrorCode> {
    if royalty_percentage > MAX_ROYALTY_PERCENTAGE {
        Some(ErrorCode::RoyaltyTooHigh)
    } else if original_price == 0 {
        Some(ErrorCode::InvalidPrice)
    } else if max_resale_price < original_price {
        Some(ErrorCode::InvalidMaxResale)
    } else if name@.len() > MAX_NAME_LEN {
        Some(ErrorCode::NameTooLong)
    } else if event_uri@.len() > MAX_URI_LEN {
        Some(ErrorCode::UriTooLong)
    } else {
        None
    }
}

/// A freshly created event: active, with nothing minted yet.
pub open spec fn new_event(
    organizer: Pubkey,
    name: String,
    original_price: u64,
    max_resale_price: u64,
    royalty_percentage: u8,
    event_uri: String,
    created_at: i64,
    bump: u8,
) -> Event {
    Event {
        organizer,
        name,
        original_price,
        max_resale_price,
        royalty_percentage,
        active: true,
        event_uri,
        total_minted: 0,
        created_at,
        bump,
    }
}

/// `organizer` creates the event stored at `event_id`, stamped `created_at`.
/// Lengths of `name` and `event_uri` are counted in characters.
pub fn create_event(
    organizer: Pubkey,
    event_id: Pubkey,
    name: String,
    original_price: u64,
    max_resale_price: u64,
    royalty_percentage: u8,
    event_uri: String,
    created_at: i64,
    bump: u8,
) -> (r: Result<(Event, EventCreated), ErrorCode>)
    ensures
        match create_rejection(name, original_price, max_resale_price, royalty_percentage, event_uri) {
            Some(e) => r == Err::<(Event, EventCreated), ErrorCode>(e),
            None => r == Ok::<(Event, EventCreated), ErrorCode>(
                (
                    new_event(
                        organizer,
                        name,
                        original_price,
                        max_resale_price,
                        royalty_percentage,
                        event_uri,
                        created_at,
                        bump,
                    ),
                    EventCreated { event_id, name, price: original_price, organizer },
                ),
            ),
        },
        r is Ok <==> create_rejection(
            name,
            original_price,
            max_resale_price,
            royalty_percentage,
            event_uri,
        ) is None,
        r is Ok ==> r->Ok_0.0.wf(),
{
    if royalty_percentage > MAX_ROYALTY_PERCENTAGE {
        return Err(ErrorCode::RoyaltyTooHigh);
    }
    if original_price == 0 {
        return Err(ErrorCode::InvalidPrice);
    }
    if max_resale_price < original_price {
        return Err(ErrorCode::InvalidMaxResale);
    }
    if name.as_str().unicode_len() > MAX_NAME_LEN {
        return Err(ErrorCode::NameTooLong);
    }
    if event_uri.as_str().unicode_len() > MAX_URI_LEN {
        return Err(ErrorCode::UriTooLong);
    }
    let notice = EventCreated { event_id, name: name.clone(), price: original_price, organizer };
    let event = Event {
        organizer,
        name,
        original_price,
        max_resale_price,
        royalty_percentage,
        active: true,
        event_uri,
        total_minted: 0,
        created_at,
        bump,
    };
    Ok((event, notice))
}

/// Why deactivating `event` by `caller` is refused, checked in this order.
pub open spec fn deactivate_rejection(event: Event, caller: Pubkey) -> Option<ErrorCode> {
    if event.organizer != caller {
        Some(ErrorCode::NotOrganizer)
    } else if !event.active {
        Some(ErrorCode::EventNotActive)
    } else {
        None
    }
}

/// The event closed to further minting.
pub open spec fn deactivated(event: Event) -> Event {
    Event { active: false, ..event }
}

/// Its organizer closes the event stored at `event_id`, once and for good.
/// Tickets already minted or listed are not touched.
pub fn deactivate_event(event: &mut Event, caller: Pubkey, event_id: Pubkey) -> (r: Result<
    EventDeactivated,
    ErrorCode,
>)
    ensures
        match deactivate_rejection(*old(event), caller) {
            Some(e) => r == Err::<EventDeactivated, ErrorCode>(e) && *final(event) == *old(event),
            None => {
                &&& *final(event) == deactivated(*old(event))
                &&& r == Ok::<EventDeactivated, ErrorCode>(EventDeactivated { event_id })
            },
        },
        old(event).wf() ==> final(event).wf(),
{
    if event.organizer != caller {
        return Err(ErrorCode::NotOrganizer);
    }
    if !event.active {
        return Err(ErrorCode::EventNotActive);
    }
    event.active = false;
    Ok(EventDeactivated { event_id })
}

} // verus!
