use vstd::prelude::*;

verus! {

/// One line of a stock report: how many pieces of a SKU are available.
#[derive(Debug, PartialEq, Eq)]
pub struct Item {
    pub sku: String,
    pub quantity: usize,
}

/// A line of a stock report as plain values.
pub ghost struct ItemView {
    pub sku: Seq<char>,
    pub quantity: nat,
}

impl View for Item {
    type V = ItemView;

    open spec fn view(&self) -> ItemView {
        ItemView { sku: self.sku@, quantity: self.quantity as nat }
    }
}

/// A stock report as plain values, line by line.
pub open spec fn report(inventory: Seq<Item>) -> Seq<ItemView> {
    inventory.map_values(|item: Item| item@)
}

/// The quantity that a stock report gives for a SKU: that of the last line
/// that names it, and 0 where no line does.
pub open spec fn stock(lines: Seq<ItemView>, sku: Seq<char>) -> nat
    decreases lines.len(),
{
    if lines.len() == 0 {
        0
    } else if lines.last().sku == sku {
        lines.last().quantity
    } else {
        stock(lines.drop_last(), sku)
    }
}

/// Looks a SKU up in a stock report.
pub fn quantity(inventory: &Vec<Item>, sku: &String) -> (available: usize)
    ensures
        available == stock(report(inventory@), sku@),
{
    let ghost lines = report(inventory@);
    let mut available: usize = 0;
    let mut i: usize = 0;
    while i < inventory.len()
        invariant
            i <= inventory.len(),
            lines == report(inventory@),
            available == stock(lines.take(i as int), sku@),
        decreases inventory.len() - i,
    {
        proof {
            assert(lines.take(i + 1).drop_last() == lines.take(i as int));
            assert(lines.take(i + 1).last() == inventory@[i as int]@);
        }
        if inventory[i].sku == *sku {
            available = inventory[i].quantity;
        }
        i += 1;
    }
    proof {
        assert(lines.take(i as int) == lines);
    }
    available
}

} // verus!
