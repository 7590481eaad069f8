use vstd::prelude::*;
use vstd::set_lib::lemma_len_subset;
use crate::banner::Banner;
use crate::error::PullError;
use crate::inventory::{quantity, report, stock, Item, ItemView};
use crate::pool::Pool;
use crate::product::{Product, ProductView, Ticket};
use crate::sampler::{resolve_pick, weighted_pick};

verus! {

/// The catalog: the products that can be drawn and the tickets that entitle
/// an order to summons.
#[derive(Debug, PartialEq, Eq)]
pub struct Products {
    pub ticket: Vec<Ticket>,
    pub product: Vec<Product>,
}

/// The products of a catalog as plain values, in catalog order.
pub open spec fn listing(products: Seq<Product>) -> Seq<ProductView> {
    products.map_values(|p: Product| p@)
}

/// A list of SKUs as plain values.
pub open spec fn sku_list(skus: Seq<String>) -> Seq<Seq<char>> {
    skus.map_values(|s: String| s@)
}

/// A product can be drawn when its weight is positive, the stock report has
/// it in stock, and its SKU is not among those left out.
pub open spec fn drawable(product: ProductView, lines: Seq<ItemView>, omit: Seq<Seq<char>>) -> bool {
    product.rarity > 0 && stock(lines, product.sku) > 0 && !omit.contains(product.sku)
}

/// Whether a catalog holds a product that can be drawn.
pub open spec fn any_drawable(catalog: Seq<ProductView>, lines: Seq<ItemView>, omit: Seq<Seq<char>>) -> bool {
    exists|i: int| 0 <= i < catalog.len() && drawable(#[trigger] catalog[i], lines, omit)
}

/// Whether a product is one that a draw from the catalog may give.
pub open spec fn is_draw_of(
    catalog: Seq<ProductView>,
    lines: Seq<ItemView>,
    omit: Seq<Seq<char>>,
    product: ProductView,
) -> bool {
    exists|i: int| 0 <= i < catalog.len() && #[trigger] catalog[i] == product && drawable(product, lines, omit)
}

/// Catalog positions of products that can be drawn and whose SKUs differ
/// from one another.
pub open spec fn distinct_drawable(catalog: Seq<ProductView>, lines: Seq<ItemView>, picks: Seq<int>) -> bool {
    &&& forall|j: int|
        0 <= j < picks.len() ==> 0 <= #[trigger] picks[j] < catalog.len() && drawable(
            catalog[picks[j]],
            lines,
            Seq::empty(),
        )
    &&& forall|j: int, k: int|
        0 <= j < k < picks.len() ==> catalog[#[trigger] picks[j]].sku != catalog[#[trigger] picks[k]].sku
}

/// Whether a catalog holds `count` products that can be drawn and have
/// `count` different SKUs.
pub open spec fn has_distinct_drawable(catalog: Seq<ProductView>, lines: Seq<ItemView>, count: nat) -> bool {
    exists|picks: Seq<int>| picks.len() == count && distinct_drawable(catalog, lines, picks)
}

/// Five slots that a draw with replacement may give: each is a product of
/// the catalog that can be drawn.
pub open spec fn is_single_draw(catalog: Seq<ProductView>, lines: Seq<ItemView>, slots: Seq<ProductView>) -> bool {
    &&& slots.len() == 5
    &&& forall|s: int| 0 <= s < 5 ==> is_draw_of(catalog, lines, Seq::empty(), #[trigger] slots[s])
}

/// Five slots that a draw without replacement may give: each is a product
/// of the catalog that can be drawn, and no SKU occurs twice.
pub open spec fn is_bulk_draw(catalog: Seq<ProductView>, lines: Seq<ItemView>, slots: Seq<ProductView>) -> bool {
    &&& is_single_draw(catalog, lines, slots)
    &&& forall|s: int, t: int| 0 <= s < t < 5 ==> (#[trigger] slots[s]).sku != (#[trigger] slots[t]).sku
}

/// Where nothing can be drawn once the SKUs of a list are left out, the
/// catalog has no more different SKUs to draw than the list is long.
proof fn lemma_omitted_bounds_distinct(
    catalog: Seq<ProductView>,
    lines: Seq<ItemView>,
    omit: Seq<Seq<char>>,
    picks: Seq<int>,
)
    requires
        distinct_drawable(catalog, lines, picks),
        !any_drawable(catalog, lines, omit),
    ensures
        picks.len() <= omit.len(),
{
    let skus = Seq::new(picks.len(), |j: int| catalog[picks[j]].sku);
    assert(skus.no_duplicates()) by {
        assert forall|j: int, k: int| 0 <= j < skus.len() && 0 <= k < skus.len() && j != k implies skus[j]
            != skus[k] by {
            if j < k {
                assert(catalog[picks[j]].sku != catalog[picks[k]].sku);
            } else {
                assert(catalog[picks[k]].sku != catalog[picks[j]].sku);
            }
        }
    }
    assert(skus.to_set().subset_of(omit.to_set())) by {
        assert forall|sku: Seq<char>| skus.to_set().contains(sku) implies omit.to_set().contains(sku) by {
            let j = choose|j: int| 0 <= j < skus.len() && skus[j] == sku;
            let i = picks[j];
            assert(drawable(catalog[i], lines, Seq::empty()));
            assert(!drawable(catalog[i], lines, omit));
            assert(omit.contains(sku));
        }
    }
    skus.unique_seq_to_set();
    omit.lemma_cardinality_of_set();
    vstd::seq_lib::seq_to_set_is_finite(omit);
    lemma_len_subset(skus.to_set(), omit.to_set());
}

/// A product whose pool is out of stock altogether is never drawn.
pub proof fn lemma_out_of_stock_pool_is_not_drawn(
    catalog: Seq<ProductView>,
    lines: Seq<ItemView>,
    omit: Seq<Seq<char>>,
    pool: Pool,
    drawn: ProductView,
)
    requires
        forall|i: int| 0 <= i < catalog.len() && (#[trigger] catalog[i]).pool == pool ==> stock(lines, catalog[i].sku) == 0,
        is_draw_of(catalog, lines, omit, drawn),
    ensures
        drawn.pool != pool,
{
}

/// Where nothing of the catalog is in stock, nothing can be drawn, neither
/// one product nor five.
pub proof fn lemma_nothing_in_stock_nothing_drawn(catalog: Seq<ProductView>, lines: Seq<ItemView>, omit: Seq<Seq<char>>)
    requires
        forall|i: int| 0 <= i < catalog.len() ==> stock(lines, (#[trigger] catalog[i]).sku) == 0,
    ensures
        !any_drawable(catalog, lines, omit),
        !has_distinct_drawable(catalog, lines, 5),
{
    assert forall|picks: Seq<int>| picks.len() == 5 implies !distinct_drawable(catalog, lines, picks) by {
        if distinct_drawable(catalog, lines, picks) {
            assert(drawable(catalog[picks[0]], lines, Seq::empty()));
        }
    }
}

/// The five slots of a draw without replacement hold five different SKUs.
pub proof fn lemma_bulk_draw_has_five_skus(catalog: Seq<ProductView>, lines: Seq<ItemView>, slots: Seq<ProductView>)
    requires
        is_bulk_draw(catalog, lines, slots),
    ensures
        slots.map_values(|product: ProductView| product.sku).no_duplicates(),
        slots.map_values(|product: ProductView| product.sku).to_set().len() == 5,
{
    let skus = slots.map_values(|product: ProductView| product.sku);
    assert forall|s: int, t: int| 0 <= s < skus.len() && 0 <= t < skus.len() && s != t implies skus[s] != skus[t] by {
        if s < t {
            assert(slots[s].sku != slots[t].sku);
        } else {
            assert(slots[t].sku != slots[s].sku);
        }
    }
    skus.unique_seq_to_set();
}

/// The products of the catalog, pool by pool.
#[derive(Debug, PartialEq, Eq)]
pub struct Pools {
    pub red: Vec<Product>,
    pub blue: Vec<Product>,
    pub green: Vec<Product>,
    pub white: Vec<Product>,
}

impl Pools {
    /// The products of a pool.
    pub open spec fn of(&self, pool: Pool) -> Seq<Product> {
        match pool {
            Pool::Red => self.red@,
            Pool::Blue => self.blue@,
            Pool::Green => self.green@,
            Pool::White => self.white@,
        }
    }

    /// Draws one product of a pool, with replacement, among those of the
    /// pool that can be drawn.
    pub fn pull(&self, pool: Pool, inventory: &Vec<Item>) -> (drawn: Result<&Product, PullError>)
        ensures
            drawn is Ok <==> any_drawable(listing(self.of(pool)), report(inventory@), Seq::empty()),
            drawn matches Ok(product) ==> is_draw_of(
                listing(self.of(pool)),
                report(inventory@),
                Seq::empty(),
                product@,
            ),
            drawn matches Err(e) ==> e == PullError::NoEligibleProduct,
    {
        match pool {
            Pool::Red => draw(&self.red, inventory),
            Pool::Blue => draw(&self.blue, inventory),
            Pool::Green => draw(&self.green, inventory),
            Pool::White => draw(&self.white, inventory),
        }
    }
}

/// Whether a SKU is in a list of SKUs.
pub fn contains_sku(skus: &Vec<String>, sku: &String) -> (found: bool)
    ensures
        found == sku_list(skus@).contains(sku@),
{
    let mut i: usize = 0;
    while i < skus.len()
        invariant
            i <= skus.len(),
            forall|j: int| 0 <= j < i ==> sku_list(skus@)[j] != sku@,
        decreases skus.len() - i,
    {
        if skus[i] == *sku {
            assert(sku_list(skus@)[i as int] == sku@);
            return true;
        }
        i += 1;
    }
    false
}

/// The five products of a list, as the slots of a banner.
fn into_slots(drawn: Vec<Product>) -> (slots: [Product; 5])
    requires
        drawn@.len() == 5,
    ensures
        slots@ == drawn@,
{
    let mut rest = drawn;
    let fifth = rest.pop().unwrap();
    let fourth = rest.pop().unwrap();
    let third = rest.pop().unwrap();
    let second = rest.pop().unwrap();
    let first = rest.pop().unwrap();
    let slots = [first, second, third, fourth, fifth];
    assert(slots@ =~= drawn@);
    slots
}

/// The positions of the products that are in stock and not left out, in
/// catalog order, each with its weight.
pub fn candidates(products: &Vec<Product>, inventory: &Vec<Item>, omit: &Vec<String>) -> (found: (Vec<usize>, Vec<u64>))
    ensures
        found.0@.len() == found.1@.len(),
        forall|k: int|
            0 <= k < found.0@.len() ==> {
                let i = #[trigger] found.0@[k];
                &&& i < products@.len()
                &&& found.1@[k] == products@[i as int].rarity
                &&& stock(report(inventory@), products@[i as int]@.sku) > 0
                &&& !sku_list(omit@).contains(products@[i as int]@.sku)
            },
        forall|k: int, m: int| 0 <= k < m < found.0@.len() ==> found.0@[k] < found.0@[m],
        forall|i: int|
            0 <= i < products@.len() && stock(report(inventory@), (#[trigger] products@[i])@.sku) > 0
                && !sku_list(omit@).contains(products@[i]@.sku) ==> found.0@.contains(i as usize),
{
    let mut positions: Vec<usize> = Vec::new();
    let mut weights: Vec<u64> = Vec::new();
    let mut i: usize = 0;
    while i < products.len()
        invariant
            i <= products@.len(),
            positions@.len() == weights@.len(),
            forall|k: int|
                0 <= k < positions@.len() ==> {
                    let p = #[trigger] positions@[k];
                    &&& p < i
                    &&& weights@[k] == products@[p as int].rarity
                    &&& stock(report(inventory@), products@[p as int]@.sku) > 0
                    &&& !sku_list(omit@).contains(products@[p as int]@.sku)
                },
            forall|k: int, m: int| 0 <= k < m < positions@.len() ==> positions@[k] < positions@[m],
            forall|j: int|
                0 <= j < i && stock(report(inventory@), (#[trigger] products@[j])@.sku) > 0
                    && !sku_list(omit@).contains(products@[j]@.sku) ==> positions@.contains(j as usize),
        decreases products@.len() - i,
    {
        let product = &products[i];
        if quantity(inventory, &product.sku) > 0 && !contains_sku(omit, &product.sku) {
            let ghost before = positions@;
            positions.push(i);
            weights.push(product.rarity);
            proof {
                assert(positions@[before.len() as int] == i);
                assert forall|j: int|
                    0 <= j < i + 1 && stock(report(inventory@), (#[trigger] products@[j])@.sku) > 0
                        && !sku_list(omit@).contains(products@[j]@.sku) implies positions@.contains(
                    j as usize,
                ) by {
                    if j < i {
                        let k = choose|k: int| 0 <= k < before.len() && before[k] == j as usize;
                        assert(positions@[k] == j as usize);
                    }
                }
            }
        }
        i += 1;
    }
    (positions, weights)
}

/// Draws the position of one product at random among those that can be
/// drawn, each with a chance proportional to its weight. Which of them
/// comes out is left to chance; that it is one of them is not.
pub fn draw_position(products: &Vec<Product>, inventory: &Vec<Item>, omit: &Vec<String>) -> (drawn: Result<usize, PullError>)
    ensures
        drawn is Ok <==> any_drawable(listing(products@), report(inventory@), sku_list(omit@)),
        drawn matches Ok(i) ==> i < products@.len() && drawable(
            products@[i as int]@,
            report(inventory@),
            sku_list(omit@),
        ),
        drawn matches Err(e) ==> e == PullError::NoEligibleProduct,
{
    let (positions, weights) = candidates(products, inventory, omit);
    let picked = weighted_pick(&weights);
    let drawn = resolve_pick(&positions, picked);
    let count = products.len();
    proof {
        let catalog = listing(products@);
        let lines = report(inventory@);
        let left_out = sku_list(omit@);
        match picked {
            Some(k) => {
                let i = positions@[k as int];
                assert(drawable(catalog[i as int], lines, left_out));
            },
            None => {
                if any_drawable(catalog, lines, left_out) {
                    let i = choose|i: int| 0 <= i < catalog.len() && drawable(#[trigger] catalog[i], lines, left_out);
                    assert(products@[i]@ == catalog[i]);
                    assert(catalog.len() == count);
                    let at = i as usize;
                    assert(positions@.contains(at));
                    let k = choose|k: int| 0 <= k < positions@.len() && positions@[k] == at;
                    assert(weights@[k] == products@[positions@[k] as int].rarity);
                    assert(weights@[k] > 0);
                }
            },
        }
    }
    drawn
}

/// Draws one product of a list at random among those that can be drawn,
/// with replacement: nothing is left out, and the same product may come out
/// again.
pub fn draw<'a>(products: &'a Vec<Product>, inventory: &Vec<Item>) -> (drawn: Result<&'a Product, PullError>)
    ensures
        drawn is Ok <==> any_drawable(listing(products@), report(inventory@), Seq::empty()),
        drawn matches Ok(product) ==> is_draw_of(listing(products@), report(inventory@), Seq::empty(), product@),
        drawn matches Err(e) ==> e == PullError::NoEligibleProduct,
{
    let omit: Vec<String> = Vec::new();
    assert(sku_list(omit@) == Seq::<Seq<char>>::empty());
    match draw_position(products, inventory, &omit) {
        Ok(i) => {
            assert(listing(products@)[i as int] == products@[i as int]@);
            Ok(&products[i])
        },
        Err(e) => Err(e),
    }
}

impl Products {
    /// A catalog of the given tickets and products.
    pub fn new(ticket: Vec<Ticket>, product: Vec<Product>) -> (catalog: Products)
        ensures
            catalog.ticket == ticket,
            catalog.product == product,
    {
        Products { ticket, product }
    }

    /// The products, in catalog order.
    pub fn iter(&self) -> (products: &Vec<Product>)
        ensures
            products == &self.product,
    {
        &self.product
    }

    /// Draws one product, with replacement: the catalog and the stock report
    /// stay as they are, and the same product may come out again.
    pub fn pull(&self, inventory: &Vec<Item>) -> (drawn: Result<Product, PullError>)
        ensures
            drawn is Ok <==> any_drawable(listing(self.product@), report(inventory@), Seq::empty()),
            drawn matches Ok(product) ==> is_draw_of(
                listing(self.product@),
                report(inventory@),
                Seq::empty(),
                product@,
            ),
            drawn matches Err(e) ==> e == PullError::NoEligibleProduct,
    {
        match draw(&self.product, inventory) {
            Ok(product) => Ok(product.clone()),
            Err(e) => Err(e),
        }
    }

    /// Fills a banner by five draws with replacement: each slot is drawn on
    /// its own, so a product may fill several slots.
    pub fn banner_with_replacement(&self, inventory: &Vec<Item>) -> (filled: Result<Banner, PullError>)
        ensures
            filled is Ok <==> any_drawable(listing(self.product@), report(inventory@), Seq::empty()),
            filled matches Ok(banner) ==> banner@.is_fresh() && banner@.pulled() == 0 && is_single_draw(
                listing(self.product@),
                report(inventory@),
                banner@.slots,
            ),
            filled matches Err(e) ==> e == PullError::NoEligibleProduct,
    {
        let ghost catalog = listing(self.product@);
        let ghost lines = report(inventory@);
        let mut drawn: Vec<Product> = Vec::new();
        let mut k: usize = 0;
        while k < 5
            invariant
                k <= 5,
                drawn@.len() == k,
                catalog == listing(self.product@),
                lines == report(inventory@),
                k > 0 ==> any_drawable(catalog, lines, Seq::empty()),
                forall|j: int| 0 <= j < k ==> is_draw_of(catalog, lines, Seq::empty(), (#[trigger] drawn@[j])@),
            decreases 5 - k,
        {
            match self.pull(inventory) {
                Ok(product) => {
                    drawn.push(product);
                },
                Err(e) => {
                    return Err(e);
                },
            }
            k += 1;
        }
        let banner = Banner::new(into_slots(drawn));
        proof {
            assert forall|s: int| 0 <= s < 5 implies is_draw_of(
                catalog,
                lines,
                Seq::empty(),
                #[trigger] banner@.slots[s],
            ) by {
                assert(banner@.slots[s] == drawn@[s]@);
            }
        }
        Ok(banner)
    }

    /// Fills a banner by five draws without replacement: after each draw the
    /// SKU that came out is left out of the draws that follow, so the banner
    /// holds five different SKUs. It can be filled exactly when five different
    /// SKUs can be drawn.
    pub fn banner(&self, inventory: &Vec<Item>) -> (filled: Result<Banner, PullError>)
        ensures
            filled is Ok <==> has_distinct_drawable(listing(self.product@), report(inventory@), 5),
            filled matches Ok(banner) ==> banner@.is_fresh() && banner@.pulled() == 0 && is_bulk_draw(
                listing(self.product@),
                report(inventory@),
                banner@.slots,
            ),
            filled matches Err(e) ==> e == PullError::NoEligibleProduct,
    {
        let ghost catalog = listing(self.product@);
        let ghost lines = report(inventory@);
        let ghost mut picks: Seq<int> = Seq::empty();
        let mut drawn: Vec<Product> = Vec::new();
        let mut omit: Vec<String> = Vec::new();
        let mut k: usize = 0;
        while k < 5
            invariant
                k <= 5,
                drawn@.len() == k,
                omit@.len() == k,
                picks.len() == k,
                catalog == listing(self.product@),
                lines == report(inventory@),
                distinct_drawable(catalog, lines, picks),
                forall|j: int| 0 <= j < k ==> (#[trigger] drawn@[j])@ == catalog[picks[j]],
                forall|j: int| 0 <= j < k ==> #[trigger] sku_list(omit@)[j] == catalog[picks[j]].sku,
            decreases 5 - k,
        {
            match draw_position(&self.product, inventory, &omit) {
                Ok(i) => {
                    let ghost left_out = sku_list(omit@);
                    let ghost before = picks;
                    let ghost earlier = drawn@;
                    let product = self.product[i].clone();
                    let sku = self.product[i].sku.clone();
                    drawn.push(product);
                    omit.push(sku);
                    proof {
                        picks = before.push(i as int);
                        assert(catalog[i as int] == self.product@[i as int]@);
                        assert(sku_list(omit@) =~= left_out.push(catalog[i as int].sku));
                        assert forall|j: int| 0 <= j < k implies catalog[before[j]].sku != catalog[i as int].sku by {
                            assert(left_out[j] == catalog[before[j]].sku);
                            assert(!left_out.contains(catalog[i as int].sku));
                        }
                        assert forall|j: int| 0 <= j < k + 1 implies (#[trigger] drawn@[j])@ == catalog[picks[j]] by {
                            if j < k {
                                assert(drawn@[j] == earlier[j]);
                            }
                        }
                        assert forall|j: int| 0 <= j < k + 1 implies #[trigger] sku_list(omit@)[j]
                            == catalog[picks[j]].sku by {
                            if j < k {
                                assert(sku_list(omit@)[j] == left_out[j]);
                            }
                        }
                        assert forall|j: int| 0 <= j < picks.len() implies 0 <= #[trigger] picks[j] < catalog.len()
                            && drawable(catalog[picks[j]], lines, Seq::empty()) by {
                            if j < k {
                                assert(picks[j] == before[j]);
                            }
                        }
                        assert forall|j: int, m: int| 0 <= j < m < picks.len() implies catalog[#[trigger] picks[j]].sku
                            != catalog[#[trigger] picks[m]].sku by {
                            assert(picks[j] == before[j]);
                            if m < k {
                                assert(picks[m] == before[m]);
                            }
                        }
                    }
                },
                Err(e) => {
                    proof {
                        assert forall|other: Seq<int>| other.len() == 5 implies !distinct_drawable(
                            catalog,
                            lines,
                            other,
                        ) by {
                            if distinct_drawable(catalog, lines, other) {
                                lemma_omitted_bounds_distinct(catalog, lines, sku_list(omit@), other);
                            }
                        }
                    }
                    return Err(e);
                },
            }
            k += 1;
        }
        let banner = Banner::new(into_slots(drawn));
        proof {
            assert forall|s: int| 0 <= s < 5 implies is_draw_of(
                catalog,
                lines,
                Seq::empty(),
                #[trigger] banner@.slots[s],
            ) by {
                assert(banner@.slots[s] == drawn@[s]@);
                assert(catalog[picks[s]] == banner@.slots[s]);
            }
            assert forall|s: int, t: int| 0 <= s < t < 5 implies (#[trigger] banner@.slots[s]).sku != (
            #[trigger] banner@.slots[t]).sku by {
                assert(banner@.slots[s] == drawn@[s]@);
                assert(banner@.slots[t] == drawn@[t]@);
                assert(catalog[picks[s]].sku != catalog[picks[t]].sku);
            }
        }
        Ok(banner)
    }
}

} // verus!