//! Purchase of a listed ticket: the royalty split and the ownership handoff.
use vstd::prelude::*;

use crate::types::{ErrorCode, Event, Payment, Pubkey, Ticket, TicketSold, TokenTransfer};

verus! {

/// Royalty owed on a sale at `price`: `royalty_percentage` percent of it,
/// rounded toward zero.
pub open spec fn royalty_of(price: u64, royalty_percentage: u8) -> int {
    price * royalty_percentage / 100
}

/// Everything a completed purchase asks the host to carry out, in order.
#[derive(Debug, Clone, Copy, PartialEq, Eq)]
pub struct Sale {
    /// Royalty from the buyer to the organizer; absent when it rounds to zero.
    pub royalty_payment: Option<Payment>,
    /// The rest of the price, from the buyer to the seller.
    pub seller_payment: Payment,
    /// The ticket's token, from the seller to the buyer.
    pub token_transfer: TokenTransfer,
    pub notice: TicketSold,
}

/// Computes `floor(price * royalty_percentage / 100)` without overflow.
pub fn compute_royalty(price: u64, royalty_percentage: u8) -> (r: u64)
    requires
        royalty_percentage <= 100,
    ensures
        r == royalty_of(price, royalty_percentage),
        r <= price,
{
    let p: u128 = price as u128;
    let q: u128 = royalty_percentage as u128;
    proof {
        assert(p * q <= p * 100) by (nonlinear_arith)
            requires q <= 100;
        assert((p * q) / 100 <= p) by (nonlinear_arith)
            requires p * q <= p * 100;
    }
    let royalty: u128 = p * q / 100;
    royalty as u64
}

/// Splits a sale price into the organizer's royalty and the seller's
/// proceeds; the two always add up to the price.
pub fn split_sale(price: u64, royalty_percentage: u8) -> (r: (u64, u64))
    requires
        royalty_percentage <= 100,
    ensures
        r.0 == royalty_of(price, royalty_percentage),
        r.1 == price - royalty_of(price, royalty_percentage),
        r.0 + r.1 == price,
{
    let royalty = compute_royalty(price, royalty_percentage);
    (royalty, price - royalty)
}

/// Why a purchase of `ticket` by `buyer` is refused, checked in this order.
pub open spec fn buy_rejection(ticket: Ticket, buyer: Pubkey) -> Option<ErrorCode> {
    if !ticket.for_sale {
        Some(ErrorCode::NotForSale)
    } else if ticket.current_owner == buyer {
        Some(ErrorCode::CannotBuyOwnTicket)
    } else {
        None
    }
}

/// The ticket after `buyer` bought it: new owner, unlisted, one more transfer.
pub open spec fn sold(ticket: Ticket, buyer: Pubkey) -> Ticket {
    Ticket {
        current_owner: buyer,
        for_sale: false,
        listing_price: 0,
        transfer_count: (ticket.transfer_count + 1) as u32,
        ..ticket
    }
}

/// The side effects and notification of `buyer` buying the listed `ticket`
/// of an event run by `organizer` with the given royalty.
pub open spec fn sale_of(
    ticket: Ticket,
    organizer: Pubkey,
    royalty_percentage: u8,
    buyer: Pubkey,
    ticket_id: Pubkey,
) -> Sale {
    let price = ticket.listing_price;
    let royalty = royalty_of(price, royalty_percentage);
    Sale {
        royalty_payment: if royalty > 0 {
            Some(Payment { from: buyer, to: organizer, amount: royalty as u64 })
        } else {
            None
        },
        seller_payment: Payment {
            from: buyer,
            to: ticket.current_owner,
            amount: (price - royalty) as u64,
        },
        token_transfer: TokenTransfer { mint: ticket.mint, from: ticket.current_owner, to: buyer },
        notice: TicketSold { ticket_id, from: ticket.current_owner, to: buyer, price },
    }
}

/// `buyer` buys the listed `ticket` of `event` at its listing price. The
/// organizer's royalty and the seller's proceeds are paid by the buyer, the
/// token moves to the buyer, and the ticket gets its new owner, unlisted.
pub fn buy_ticket(ticket: &mut Ticket, event: &Event, buyer: Pubkey, ticket_id: Pubkey) -> (r:
    Result<Sale, ErrorCode>)
    requires
        event.royalty_percentage <= 100,
        old(ticket).transfer_count < u32::MAX,
    ensures
        match buy_rejection(*old(ticket), buyer) {
            Some(e) => r == Err::<Sale, ErrorCode>(e) && *final(ticket) == *old(ticket),
            None => {
                &&& *final(ticket) == sold(*old(ticket), buyer)
                &&& r == Ok::<Sale, ErrorCode>(
                    sale_of(*old(ticket), event.organizer, event.royalty_percentage, buyer, ticket_id),
                )
            },
        },
        old(ticket).wf() ==> final(ticket).wf(),
        r is Ok ==> r->Ok_0.seller_payment.amount + match r->Ok_0.royalty_payment {
            Some(p) => p.amount as int,
            None => 0,
        } == old(ticket).listing_price,
{
    if !ticket.for_sale {
        return Err(ErrorCode::NotForSale);
    }
    if ticket.current_owner == buyer {
        return Err(ErrorCode::CannotBuyOwnTicket);
    }
    let price = ticket.listing_price;
    let (royalty, seller_proceeds) = split_sale(price, event.royalty_percentage);
    let royalty_payment = if royalty > 0 {
        Some(Payment { from: buyer, to: event.organizer, amount: royalty })
    } else {
        None
    };
    let seller = ticket.current_owner;
    let sale = Sale {
        royalty_payment,
        seller_payment: Payment { from: buyer, to: seller, amount: seller_proceeds },
        token_transfer: TokenTransfer { mint: ticket.mint, from: seller, to: buyer },
        notice: TicketSold { ticket_id, from: seller, to: buyer, price },
    };
    ticket.current_owner = buyer;
    ticket.for_sale = false;
    ticket.listing_price = 0;
    ticket.transfer_count = ticket.transfer_count + 1;
    Ok(sale)
}

} // verus!
