use vstd::prelude::*;
use crate::pool::Pool;

verus! {

/// One product of the catalog. `rarity` is its weight in a draw: the chance
/// of a product is proportional to it, and a product of weight 0 is never
/// drawn.
#[derive(Debug, PartialEq, Eq)]
pub struct Product {
    pub name: String,
    pub sku: String,
    pub pool: Pool,
    pub rarity: u64,
}

/// A product as plain values.
pub ghost struct ProductView {
    pub name: Seq<char>,
    pub sku: Seq<char>,
    pub pool: Pool,
    pub rarity: u64,
}

impl View for Product {
    type V = ProductView;

    open spec fn view(&self) -> ProductView {
        ProductView { name: self.name@, sku: self.sku@, pool: self.pool, rarity: self.rarity }
    }
}

impl Clone for Product {
    fn clone(&self) -> (copy: Product)
        ensures
            copy@ == self@,
    {
        Product {
            name: self.name.clone(),
            sku: self.sku.clone(),
            pool: self.pool,
            rarity: self.rarity,
        }
    }
}

/// What one piece of a ticket SKU entitles an order to.
#[derive(Debug, PartialEq, Eq)]
pub struct Ticket {
    pub sku: String,
    pub bulks: usize,
    pub singles: usize,
}

/// A ticket as plain values.
pub ghost struct TicketView {
    pub sku: Seq<char>,
    pub bulks: nat,
    pub singles: nat,
}

impl View for Ticket {
    type V = TicketView;

    open spec fn view(&self) -> TicketView {
        TicketView { sku: self.sku@, bulks: self.bulks as nat, singles: self.singles as nat }
    }
}

} // verus!
