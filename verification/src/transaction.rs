//! The payment record that the coordinator drives through two-phase commit.

use vstd::prelude::*;

verus! {

/// One payment to reserve across the hotel, airline and bank.
///
/// Records come from the pending queue and are immutable once read; the id
/// is unique over the whole queue and anchors idempotent retries and the
/// participants' transaction logs.
#[derive(Debug, PartialEq, Eq)]
pub struct AlgloboTransaction {
    /// Unique transaction id.
    pub id: u32,
    /// Identifier of the paying client.
    pub client: String,
    /// Non-negative price of the hotel reservation.
    pub hotel_price: u32,
    /// Non-negative price of the airline ticket.
    pub airline_price: u32,
}

impl AlgloboTransaction {
    /// True when the two records hold the same values, comparing the client
    /// identifiers by their characters.
    pub open spec fn eqv(self, other: Self) -> bool {
        &&& self.id == other.id
        &&& self.client@ == other.client@
        &&& self.hotel_price == other.hotel_price
        &&& self.airline_price == other.airline_price
    }

    /// Returns a copy of this record.
    pub fn duplicate(&self) -> (r: Self)
        ensures
            r.eqv(*self),
            r.client@ == self.client@,
    {
        AlgloboTransaction {
            id: self.id,
            client: self.client.clone(),
            hotel_price: self.hotel_price,
            airline_price: self.airline_price,
        }
    }
}

} // verus!
