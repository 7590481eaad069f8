use vstd::prelude::*;
use crate::error::PullError;
use crate::product::{Product, ProductView};

verus! {

/// One summon: five products, assigned once, and which of them are revealed.
#[derive(Debug, PartialEq, Eq)]
pub struct Banner {
    pub slots: [Product; 5],
    pub revealed: [bool; 5],
}

/// A banner as plain values.
pub ghost struct BannerView {
    pub slots: Seq<ProductView>,
    pub revealed: Seq<bool>,
}

/// How many entries of a list of flags are set.
pub open spec fn count_true(flags: Seq<bool>) -> nat
    decreases flags.len(),
{
    if flags.len() == 0 {
        0
    } else {
        count_true(flags.drop_last()) + if flags.last() { 1nat } else { 0nat }
    }
}

/// The products whose flag is set, in their order.
pub open spec fn revealed_products(slots: Seq<ProductView>, revealed: Seq<bool>) -> Seq<ProductView>
    decreases slots.len(),
{
    if slots.len() == 0 || revealed.len() != slots.len() {
        Seq::empty()
    } else {
        let before = revealed_products(slots.drop_last(), revealed.drop_last());
        if revealed.last() {
            before.push(slots.last())
        } else {
            before
        }
    }
}

impl BannerView {
    /// The number of revealed slots.
    pub open spec fn pulled(self) -> nat {
        count_true(self.revealed)
    }

    /// The products in the revealed slots, in slot order.
    pub open spec fn pulled_products(self) -> Seq<ProductView> {
        revealed_products(self.slots, self.revealed)
    }

    /// A banner on which nothing is revealed yet.
    pub open spec fn is_fresh(self) -> bool {
        forall|i: int| 0 <= i < self.revealed.len() ==> !self.revealed[i]
    }
}

/// The banner of five products on which nothing is revealed yet.
pub open spec fn fresh_banner(slots: Seq<ProductView>) -> BannerView {
    BannerView { slots, revealed: Seq::new(5, |i: int| false) }
}

impl View for Banner {
    type V = BannerView;

    open spec fn view(&self) -> BannerView {
        BannerView { slots: self.slots@.map_values(|p: Product| p@), revealed: self.revealed@ }
    }
}

/// No more flags are set than there are flags.
pub proof fn lemma_count_true_bounded(flags: Seq<bool>)
    ensures
        count_true(flags) <= flags.len(),
    decreases flags.len(),
{
    if flags.len() > 0 {
        lemma_count_true_bounded(flags.drop_last());
    }
}

/// A list without a set flag counts 0, and only such a list does.
pub proof fn lemma_count_true_zero(flags: Seq<bool>)
    ensures
        count_true(flags) == 0 <==> (forall|i: int| 0 <= i < flags.len() ==> !flags[i]),
    decreases flags.len(),
{
    if flags.len() > 0 {
        lemma_count_true_zero(flags.drop_last());
        assert(forall|i: int| 0 <= i < flags.len() - 1 ==> flags.drop_last()[i] == flags[i]);
    }
}

/// A list counts its own length exactly when every flag is set.
pub proof fn lemma_count_true_full(flags: Seq<bool>)
    ensures
        count_true(flags) == flags.len() <==> (forall|i: int| 0 <= i < flags.len() ==> flags[i]),
    decreases flags.len(),
{
    if flags.len() > 0 {
        lemma_count_true_full(flags.drop_last());
        lemma_count_true_bounded(flags.drop_last());
        assert(forall|i: int| 0 <= i < flags.len() - 1 ==> flags.drop_last()[i] == flags[i]);
    }
}

/// Setting a flag that was clear adds one to the count.
pub proof fn lemma_count_true_set(flags: Seq<bool>, index: int)
    requires
        0 <= index < flags.len(),
        !flags[index],
    ensures
        count_true(flags.update(index, true)) == count_true(flags) + 1,
    decreases flags.len(),
{
    let after = flags.update(index, true);
    if index == flags.len() - 1 {
        assert(after.drop_last() == flags.drop_last());
    } else {
        lemma_count_true_set(flags.drop_last(), index);
        assert(after.drop_last() == flags.drop_last().update(index, true));
    }
}

/// Every banner has five slots and a flag for each of them.
pub proof fn lemma_banner_has_five_slots(banner: Banner)
    ensures
        banner@.slots.len() == 5,
        banner@.revealed.len() == 5,
        banner@.pulled() <= 5,
{
    lemma_count_true_bounded(banner@.revealed);
}

impl Banner {
    /// A banner of the five products, with no slot revealed.
    pub fn new(slots: [Product; 5]) -> (banner: Banner)
        ensures
            banner.slots == slots,
            banner@ == fresh_banner(slots@.map_values(|p: Product| p@)),
            banner@.is_fresh(),
            banner@.pulled() == 0,
    {
        let banner = Banner { slots, revealed: [false; 5] };
        proof {
            lemma_count_true_zero(banner@.revealed);
            assert(banner@.revealed =~= Seq::new(5, |i: int| false));
        }
        banner
    }

    /// The number of revealed slots.
    pub fn pulled(&self) -> (count: usize)
        ensures
            count == self@.pulled(),
            count <= 5,
    {
        let mut count: usize = 0;
        let mut i: usize = 0;
        while i < 5
            invariant
                i <= 5,
                count <= i,
                count == count_true(self.revealed@.take(i as int)),
            decreases 5 - i,
        {
            proof {
                assert(self.revealed@.take(i + 1).drop_last() == self.revealed@.take(i as int));
            }
            if self.revealed[i] {
                count += 1;
            }
            i += 1;
        }
        proof {
            assert(self.revealed@.take(5) == self.revealed@);
        }
        count
    }

    /// The products in the revealed slots, in slot order.
    pub fn pulled_products(&self) -> (products: Vec<&Product>)
        ensures
            products@.len() == self@.pulled_products().len(),
            forall|k: int| 0 <= k < products@.len() ==> products@[k]@ == self@.pulled_products()[k],
    {
        let ghost slots = self@.slots;
        let ghost revealed = self@.revealed;
        let mut products: Vec<&Product> = Vec::new();
        let mut i: usize = 0;
        while i < 5
            invariant
                i <= 5,
                slots == self@.slots,
                revealed == self@.revealed,
                products@.len() == revealed_products(slots.take(i as int), revealed.take(i as int)).len(),
                forall|k: int| 0 <= k < products@.len() ==> products@[k]@ == revealed_products(
                    slots.take(i as int),
                    revealed.take(i as int),
                )[k],
            decreases 5 - i,
        {
            proof {
                assert(slots.take(i + 1).drop_last() == slots.take(i as int));
                assert(revealed.take(i + 1).drop_last() == revealed.take(i as int));
            }
            if self.revealed[i] {
                products.push(&self.slots[i]);
            }
            i += 1;
        }
        proof {
            assert(slots.take(5) == slots);
            assert(revealed.take(5) == revealed);
        }
        products
    }

    /// Reveals one slot. The banner refuses an index that it does not have
    /// and a slot that is revealed already; whether the order may still
    /// reveal anything is not its concern.
    pub fn reveal_slot(&mut self, index: usize) -> (outcome: Result<(), PullError>)
        ensures
            final(self).slots == old(self).slots,
            index >= 5 ==> outcome == Err::<(), PullError>(PullError::SlotIndexOutOfRange),
            index < 5 && old(self).revealed@[index as int] ==> outcome == Err::<(), PullError>(
                PullError::SlotAlreadyRevealed,
            ),
            index < 5 && !old(self).revealed@[index as int] ==> outcome is Ok,
            outcome is Err ==> *final(self) == *old(self),
            outcome is Ok ==> final(self).revealed@ == old(self).revealed@.update(index as int, true)
                && final(self)@.pulled() == old(self)@.pulled() + 1,
            final(self)@.pulled() >= old(self)@.pulled(),
    {
        if index >= 5 {
            return Err(PullError::SlotIndexOutOfRange);
        }
        if self.revealed[index] {
            return Err(PullError::SlotAlreadyRevealed);
        }
        proof {
            lemma_count_true_set(self.revealed@, index as int);
        }
        self.revealed[index] = true;
        Ok(())
    }
}

/// Where the middle of a slot lies on the picture of a banner, from the left.
pub open spec fn slot_x(slot: int) -> int {
    if slot == 0 {
        500
    } else if slot == 1 {
        780
    } else if slot == 2 {
        710
    } else if slot == 3 {
        295
    } else {
        205
    }
}

/// Where the middle of a slot lies on the picture of a banner, from the top.
pub open spec fn slot_y(slot: int) -> int {
    if slot == 0 {
        210
    } else if slot == 1 || slot == 4 {
        400
    } else {
        775
    }
}

/// Where the top left corner of a picture goes so that its middle lies on
/// the middle of a slot.
pub fn overlay_origin(slot: usize, width: u32, height: u32) -> (origin: (i64, i64))
    requires
        slot < 5,
    ensures
        origin.0 == slot_x(slot as int) - width / 2,
        origin.1 == slot_y(slot as int) - height / 2,
{
    let x: i64 = if slot == 0 {
        500
    } else if slot == 1 {
        780
    } else if slot == 2 {
        710
    } else if slot == 3 {
        295
    } else {
        205
    };
    let y: i64 = if slot == 0 {
        210
    } else if slot == 1 || slot == 4 {
        400
    } else {
        775
    };
    (x - (width / 2) as i64, y - (height / 2) as i64)
}

} // verus!
