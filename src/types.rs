//! Records, notifications, side-effect requests and error codes.
use vstd::prelude::*;

verus! {

/// Longest event name, in characters.
pub const MAX_NAME_LEN: usize = 100;

/// Longest event URI, in characters.
pub const MAX_URI_LEN: usize = 200;

/// Largest royalty share, in whole percent, that an event may carry.
pub const MAX_ROYALTY_PERCENTAGE: u8 = 25;

/// A 32-byte identity: an organizer, an owner, a record address or a token mint.
#[derive(Debug, Clone, Copy, Eq)]
pub struct Pubkey {
    pub bytes: [u8; 32],
}

impl PartialEq for Pubkey {
    fn eq(&self, o: &Pubkey) -> (r: bool) {
        let mut i: usize = 0;
        while i < 32
            invariant
                i <= 32,
                forall|j: int| 0 <= j < i ==> self.bytes[j] == o.bytes[j],
            decreases 32 - i,
        {
            if self.bytes[i] != o.bytes[i] {
                return false;
            }
            i = i + 1;
        }
        proof {
            broadcast use vstd::array::group_array_axioms;
            assert(self.bytes =~= o.bytes);
        }
        true
    }
}

impl vstd::std_specs::cmp::PartialEqSpecImpl for Pubkey {
    open spec fn obeys_eq_spec() -> bool {
        true
    }

    open spec fn eq_spec(&self, o: &Pubkey) -> bool {
        self.bytes == o.bytes
    }
}

/// Why an operation was rejected.
#[derive(Debug, Clone, Copy, PartialEq, Eq, Structural)]
pub enum ErrorCode {
    RoyaltyTooHigh,
    EventNotActive,
    NotOwner,
    AlreadyListed,
    PriceExceedsMax,
    NotForSale,
    NotListed,
    CannotBuyOwnTicket,
    NotOrganizer,
    InvalidPrice,
    InvalidMaxResale,
    NameTooLong,
    UriTooLong,
}

/// An event record, keyed by its organizer and name.
#[derive(Debug, Clone, PartialEq, Eq)]
pub struct Event {
    pub organizer: Pubkey,
    pub name: String,
    pub original_price: u64,
    pub max_resale_price: u64,
    pub royalty_percentage: u8,
    pub active: bool,
    pub event_uri: String,
    pub total_minted: u32,
    pub created_at: i64,
    pub bump: u8,
}

impl Event {
    /// The invariant of every stored event: a positive face price, a resale
    /// ceiling at or above it, a capped royalty and bounded text fields.
    pub open spec fn wf(&self) -> bool {
        &&& self.original_price > 0
        &&& self.max_resale_price >= self.original_price
        &&& self.royalty_percentage <= MAX_ROYALTY_PERCENTAGE
        &&& self.name@.len() <= MAX_NAME_LEN
        &&& self.event_uri@.len() <= MAX_URI_LEN
    }
}

/// A ticket record, bound one to one to a token mint.
#[derive(Debug, Clone, Copy, PartialEq, Eq)]
pub struct Ticket {
    pub event: Pubkey,
    pub mint: Pubkey,
    pub original_owner: Pubkey,
    pub current_owner: Pubkey,
    pub original_price: u64,
    pub for_sale: bool,
    pub listing_price: u64,
    pub transfer_count: u32,
    pub bump: u8,
}

impl Ticket {
    /// A listed ticket has a positive asking price; an unlisted one has none.
    pub open spec fn wf(&self) -> bool {
        if self.for_sale {
            self.listing_price > 0
        } else {
            self.listing_price == 0
        }
    }

    /// The ticket is well formed and, when listed, asks no more than the
    /// ceiling of its event.
    pub open spec fn wf_for(&self, event: Event) -> bool {
        &&& self.wf()
        &&& self.for_sale ==> self.listing_price <= event.max_resale_price
    }
}

/// A request to move `amount` units of value from one identity to another.
#[derive(Debug, Clone, Copy, PartialEq, Eq)]
pub struct Payment {
    pub from: Pubkey,
    pub to: Pubkey,
    pub amount: u64,
}

/// A request to move the single unit of a ticket's token between holders.
#[derive(Debug, Clone, Copy, PartialEq, Eq)]
pub struct TokenTransfer {
    pub mint: Pubkey,
    pub from: Pubkey,
    pub to: Pubkey,
}

/// A request to create the single unit of a fresh token and issue it to a holder.
#[derive(Debug, Clone, Copy, PartialEq, Eq)]
pub struct TokenIssue {
    pub mint: Pubkey,
    pub to: Pubkey,
}

/// Notification emitted when an event is created.
#[derive(Debug, Clone, PartialEq, Eq)]
pub struct EventCreated {
    pub event_id: Pubkey,
    pub name: String,
    pub price: u64,
    pub organizer: Pubkey,
}

/// Notification emitted when a ticket is minted.
#[derive(Debug, Clone, Copy, PartialEq, Eq)]
pub struct TicketMinted {
    pub ticket_id: Pubkey,
    pub event_id: Pubkey,
    pub owner: Pubkey,
    pub mint: Pubkey,
}

/// Notification emitted when a ticket is listed for resale.
#[derive(Debug, Clone, Copy, PartialEq, Eq)]
pub struct TicketListed {
    pub ticket_id: Pubkey,
    pub owner: Pubkey,
    pub price: u64,
}

/// Notification emitted when a listing is withdrawn.
#[derive(Debug, Clone, Copy, PartialEq, Eq)]
pub struct ListingCancelled {
    pub ticket_id: Pubkey,
    pub owner: Pubkey,
}

/// Notification emitted when a ticket changes hands; `price` is the full
/// listing price paid by the buyer.
#[derive(Debug, Clone, Copy, PartialEq, Eq)]
pub struct TicketSold {
    pub ticket_id: Pubkey,
    pub from: Pubkey,
    pub to: Pubkey,
    pub price: u64,
}

/// Notification emitted when an event is deactivated.
#[derive(Debug, Clone, Copy, PartialEq, Eq)]
pub struct EventDeactivated {
    pub event_id: Pubkey,
}

} // verus!
