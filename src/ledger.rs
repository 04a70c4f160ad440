//! Minting tickets against an event, and the listing state machine.
use vstd::prelude::*;

use crate::types::{
    ErrorCode, Event, ListingCancelled, Payment, Pubkey, Ticket, TicketListed, TicketMinted,
    TokenIssue,
};

verus! {

/// Everything a completed mint asks the host to carry out, in order, and the
/// ticket record it creates.
#[derive(Debug, Clone, Copy, PartialEq, Eq)]
pub struct Minted {
    /// The face price, from the buyer to the organizer.
    pub payment: Payment,
    /// One unit of the fresh token, to the buyer.
    pub token_issue: TokenIssue,
    pub ticket: Ticket,
    pub notice: TicketMinted,
}

/// The event after one more ticket was minted against it.
pub open spec fn counted(event: Event) -> Event {
    Event { total_minted: (event.total_minted + 1) as u32, ..event }
}

/// A fresh ticket of the event at `event_id`, owned by `buyer`, unlisted,
/// bound to the token `mint`.
pub open spec fn fresh_ticket(
    event: Event,
    event_id: Pubkey,
    mint: Pubkey,
    buyer: Pubkey,
    bump: u8,
) -> Ticket {
    Ticket {
        event: event_id,
        mint,
        original_owner: buyer,
        current_owner: buyer,
        original_price: event.original_price,
        for_sale: false,
        listing_price: 0,
        transfer_count: 0,
        bump,
    }
}

/// What minting a ticket of `event` for `buyer` asks for and creates.
pub open spec fn minted_of(
    event: Event,
    event_id: Pubkey,
    mint: Pubkey,
    buyer: Pubkey,
    ticket_id: Pubkey,
    bump: u8,
) -> Minted {
    Minted {
        payment: Payment { from: buyer, to: event.organizer, amount: event.original_price },
        token_issue: TokenIssue { mint, to: buyer },
        ticket: fresh_ticket(event, event_id, mint, buyer, bump),
        notice: TicketMinted { ticket_id, event_id, owner: buyer, mint },
    }
}

/// Mints a ticket of the active `event` (stored at `event_id`) for `buyer`:
/// the buyer pays the face price to the organizer, receives the one unit of
/// the token `mint`, and the event counts one more ticket.
pub fn mint_ticket(
    event: &mut Event,
    event_id: Pubkey,
    mint: Pubkey,
    buyer: Pubkey,
    ticket_id: Pubkey,
    bump: u8,
) -> (r: Result<Minted, ErrorCode>)
    requires
        old(event).total_minted < u32::MAX,
    ensures
        !old(event).active ==> r == Err::<Minted, ErrorCode>(ErrorCode::EventNotActive)
            && *final(event) == *old(event),
        old(event).active ==> r == Ok::<Minted, ErrorCode>(
            minted_of(*old(event), event_id, mint, buyer, ticket_id, bump),
        ) && *final(event) == counted(*old(event)),
        old(event).wf() ==> final(event).wf(),
        r is Ok ==> r->Ok_0.ticket.wf_for(*final(event)),
{
    if !event.active {
        return Err(ErrorCode::EventNotActive);
    }
    let payment = Payment { from: buyer, to: event.organizer, amount: event.original_price };
    let ticket = Ticket {
        event: event_id,
        mint,
        original_owner: buyer,
        current_owner: buyer,
        original_price: event.original_price,
        for_sale: false,
        listing_price: 0,
        transfer_count: 0,
        bump,
    };
    event.total_minted = event.total_minted + 1;
    Ok(
        Minted {
            payment,
            token_issue: TokenIssue { mint, to: buyer },
            ticket,
            notice: TicketMinted { ticket_id, event_id, owner: buyer, mint },
        },
    )
}

/// Why listing `ticket` of `event` by `owner` at `price` is refused, checked
/// in this order.
pub open spec fn list_rejection(ticket: Ticket, event: Event, owner: Pubkey, price: u64) -> Option<
    ErrorCode,
> {
    if ticket.current_owner != owner {
        Some(ErrorCode::NotOwner)
    } else if ticket.for_sale {
        Some(ErrorCode::AlreadyListed)
    } else if price > event.max_resale_price {
        Some(ErrorCode::PriceExceedsMax)
    } else if price == 0 {
        Some(ErrorCode::InvalidPrice)
    } else {
        None
    }
}

/// The ticket listed at `price`.
pub open spec fn listed(ticket: Ticket, price: u64) -> Ticket {
    Ticket { for_sale: true, listing_price: price, ..ticket }
}

/// The ticket taken off the market.
pub open spec fn unlisted(ticket: Ticket) -> Ticket {
    Ticket { for_sale: false, listing_price: 0, ..ticket }
}

/// Its owner puts `ticket` of `event` up for resale at `price`, which must
/// be positive and at most the event's resale ceiling.
pub fn list_ticket(
    ticket: &mut Ticket,
    event: &Event,
    owner: Pubkey,
    price: u64,
    ticket_id: Pubkey,
) -> (r: Result<TicketListed, ErrorCode>)
    ensures
        match list_rejection(*old(ticket), *event, owner, price) {
            Some(e) => r == Err::<TicketListed, ErrorCode>(e) && *final(ticket) == *old(ticket),
            None => {
                &&& *final(ticket) == listed(*old(ticket), price)
                &&& r == Ok::<TicketListed, ErrorCode>(TicketListed { ticket_id, owner, price })
            },
        },
        old(ticket).wf_for(*event) ==> final(ticket).wf_for(*event),
{
    if ticket.current_owner != owner {
        return Err(ErrorCode::NotOwner);
    }
    if ticket.for_sale {
        return Err(ErrorCode::AlreadyListed);
    }
    if price > event.max_resale_price {
        return Err(ErrorCode::PriceExceedsMax);
    }
    if price == 0 {
        return Err(ErrorCode::InvalidPrice);
    }
    ticket.for_sale = true;
    ticket.listing_price = price;
    Ok(TicketListed { ticket_id, owner, price })
}

/// Why cancelling the listing of `ticket` by `owner` is refused, checked in
/// this order.
pub open spec fn cancel_rejection(ticket: Ticket, owner: Pubkey) -> Option<ErrorCode> {
    if ticket.current_owner != owner {
        Some(ErrorCode::NotOwner)
    } else if !ticket.for_sale {
        Some(ErrorCode::NotListed)
    } else {
        None
    }
}

/// Its owner takes the listed `ticket` off the market.
pub fn cancel_listing(ticket: &mut Ticket, owner: Pubkey, ticket_id: Pubkey) -> (r: Result<
    ListingCancelled,
    ErrorCode,
>)
    ensures
        match cancel_rejection(*old(ticket), owner) {
            Some(e) => r == Err::<ListingCancelled, ErrorCode>(e) && *final(ticket) == *old(ticket),
            None => {
                &&& *final(ticket) == unlisted(*old(ticket))
                &&& r == Ok::<ListingCancelled, ErrorCode>(ListingCancelled { ticket_id, owner })
            },
        },
        old(ticket).wf() ==> final(ticket).wf(),
{
    if ticket.current_owner != owner {
        return Err(ErrorCode::NotOwner);
    }
    if !ticket.for_sale {
        return Err(ErrorCode::NotListed);
    }
    ticket.for_sale = false;
    ticket.listing_price = 0;
    Ok(ListingCancelled { ticket_id, owner })
}

} // verus!
