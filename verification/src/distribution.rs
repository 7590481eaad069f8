use vstd::prelude::*;
use crate::catalog::{listing, Pools, Products};
use crate::pool::Pool;
use crate::product::{Product, ProductView};

verus! {

/// The chance of one product in a draw among all products of a list.
#[derive(Debug, PartialEq, Eq)]
pub struct Share {
    pub name: String,
    pub rarity: u64,
    pub share: u128,
}

/// A share as plain values.
pub ghost struct ShareView {
    pub name: Seq<char>,
    pub rarity: u64,
    pub share: nat,
}

impl View for Share {
    type V = ShareView;

    open spec fn view(&self) -> ShareView {
        ShareView { name: self.name@, rarity: self.rarity, share: self.share as nat }
    }
}

/// The weights of a list of products together.
pub open spec fn total_weight(products: Seq<ProductView>) -> nat
    decreases products.len(),
{
    if products.len() == 0 {
        0
    } else {
        total_weight(products.drop_last()) + products.last().rarity as nat
    }
}

/// The part that a weight is of a total, in `scale` parts of the whole and
/// rounded to the nearest part, a half upwards. Of a total of 0 every
/// weight is no part.
pub open spec fn rounded_share(rarity: nat, total: nat, scale: nat) -> nat {
    if total == 0 {
        0
    } else {
        (scale * rarity) / total + if 2 * ((scale * rarity) % total) >= total {
            1nat
        } else {
            0nat
        }
    }
}

/// The share of a product among the products of its list.
pub open spec fn share_of(products: Seq<ProductView>, at: int, scale: nat) -> ShareView {
    ShareView {
        name: products[at].name,
        rarity: products[at].rarity,
        share: rounded_share(products[at].rarity as nat, total_weight(products), scale),
    }
}

/// The weights of a list of products are together less than the square of
/// the largest weight, however long the list is.
proof fn lemma_total_weight_bounded(products: Seq<ProductView>)
    requires
        products.len() <= u64::MAX,
    ensures
        total_weight(products) <= products.len() * u64::MAX,
        total_weight(products) <= u64::MAX * u64::MAX,
    decreases products.len(),
{
    let largest = u64::MAX as int;
    if products.len() > 0 {
        lemma_total_weight_bounded(products.drop_last());
        assert((products.len() - 1) * largest + largest == products.len() * largest) by (nonlinear_arith);
    }
    assert(products.len() * largest <= largest * largest) by (nonlinear_arith)
        requires
            0 <= products.len() <= largest,
    ;
}

/// The weights of a list of products together.
pub fn sum_weights(products: &Vec<Product>) -> (total: u128)
    ensures
        total == total_weight(listing(products@)),
{
    let ghost list = listing(products@);
    let mut total: u128 = 0;
    let mut i: usize = 0;
    while i < products.len()
        invariant
            i <= products@.len(),
            list == listing(products@),
            total == total_weight(list.take(i as int)),
        decreases products@.len() - i,
    {
        proof {
            assert(list.take(i + 1).drop_last() == list.take(i as int));
            assert(list.take(i + 1).last() == products@[i as int]@);
            lemma_total_weight_bounded(list.take(i + 1));
            assert(u64::MAX * u64::MAX < u128::MAX) by (nonlinear_arith);
        }
        total = total + products[i].rarity as u128;
        i += 1;
    }
    proof {
        assert(list.take(i as int) == list);
    }
    total
}

/// The part that a weight is of a total, in `scale` parts of the whole and
/// rounded to the nearest part.
pub fn part_of(rarity: u64, total: u128, scale: u64) -> (share: u128)
    ensures
        share == rounded_share(rarity as nat, total as nat, scale as nat),
{
    if total == 0 {
        return 0;
    }
    proof {
        assert(scale * rarity <= u64::MAX * u64::MAX) by (nonlinear_arith)
            requires
                0 <= scale <= u64::MAX,
                0 <= rarity <= u64::MAX,
        ;
        assert(u64::MAX * u64::MAX < u128::MAX) by (nonlinear_arith);
    }
    let scaled: u128 = scale as u128 * rarity as u128;
    let whole = scaled / total;
    let rest = scaled % total;
    if rest >= total - rest {
        whole + 1
    } else {
        whole
    }
}

/// The share of every product of a list among them, in list order.
pub fn shares(products: &Vec<Product>, scale: u64) -> (found: Vec<Share>)
    ensures
        found@.len() == products@.len(),
        forall|k: int| 0 <= k < found@.len() ==> (#[trigger] found@[k])@ == share_of(listing(products@), k, scale as nat),
{
    let total = sum_weights(products);
    let mut found: Vec<Share> = Vec::new();
    let mut i: usize = 0;
    while i < products.len()
        invariant
            i <= products@.len(),
            found@.len() == i,
            total == total_weight(listing(products@)),
            forall|k: int| 0 <= k < i ==> (#[trigger] found@[k])@ == share_of(listing(products@), k, scale as nat),
        decreases products@.len() - i,
    {
        let product = &products[i];
        found.push(
            Share { name: product.name.clone(), rarity: product.rarity, share: part_of(product.rarity, total, scale) },
        );
        i += 1;
    }
    found
}

impl Products {
    /// The chance of every product of the catalog in a draw among all of
    /// them, in hundredths of a percent.
    pub fn distribution(&self) -> (found: Vec<Share>)
        ensures
            found@.len() == self.product@.len(),
            forall|k: int| 0 <= k < found@.len() ==> (#[trigger] found@[k])@ == share_of(listing(self.product@), k, 10000),
    {
        shares(&self.product, 10000)
    }
}

impl Pools {
    /// The chance of every product of a pool in a draw among the products
    /// of that pool, in percent.
    pub fn distribution(&self, pool: Pool) -> (found: Vec<Share>)
        ensures
            found@.len() == self.of(pool).len(),
            forall|k: int| 0 <= k < found@.len() ==> (#[trigger] found@[k])@ == share_of(listing(self.of(pool)), k, 100),
    {
        match pool {
            Pool::Red => shares(&self.red, 100),
            Pool::Blue => shares(&self.blue, 100),
            Pool::Green => shares(&self.green, 100),
            Pool::White => shares(&self.white, 100),
        }
    }
}

} // verus!
