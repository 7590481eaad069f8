use vstd::prelude::*;
use crate::banner::{fresh_banner, lemma_count_true_bounded, lemma_count_true_full, Banner, BannerView};
use crate::catalog::{any_drawable, has_distinct_drawable, is_bulk_draw, is_single_draw, listing, Products};
use crate::error::PullError;
use crate::inventory::{report, Item};
use crate::product::{Product, ProductView};

verus! {

/// The summon that an order is on: none, a single summon or a bulk summon.
#[derive(Debug, PartialEq, Eq)]
pub enum ActiveBanner {
    Single(Banner),
    Bulk(Banner),
    Idle,
}

/// The active summon as plain values.
pub ghost enum ActiveView {
    Single(BannerView),
    Bulk(BannerView),
    Idle,
}

impl View for ActiveBanner {
    type V = ActiveView;

    open spec fn view(&self) -> ActiveView {
        match self {
            ActiveBanner::Single(banner) => ActiveView::Single(banner@),
            ActiveBanner::Bulk(banner) => ActiveView::Bulk(banner@),
            ActiveBanner::Idle => ActiveView::Idle,
        }
    }
}

impl ActiveView {
    /// The banner of the active summon, if there is one.
    pub open spec fn banner(self) -> Option<BannerView> {
        match self {
            ActiveView::Single(banner) => Some(banner),
            ActiveView::Bulk(banner) => Some(banner),
            ActiveView::Idle => None,
        }
    }

    /// The slots that the active summon counts against the single quota.
    pub open spec fn single_pulled(self) -> nat {
        match self {
            ActiveView::Single(banner) => banner.pulled(),
            _ => 0,
        }
    }

    /// What the active summon counts against the bulk quota.
    pub open spec fn bulk_count(self) -> nat {
        match self {
            ActiveView::Bulk(_) => 1,
            _ => 0,
        }
    }
}

impl ActiveBanner {
    /// The banner of the active summon, if there is one.
    pub fn as_banner(&self) -> (banner: Option<&Banner>)
        ensures
            banner matches Some(b) ==> self@.banner() == Some(b@),
            banner is None <==> self@ is Idle,
    {
        match self {
            ActiveBanner::Single(banner) => Some(banner),
            ActiveBanner::Bulk(banner) => Some(banner),
            ActiveBanner::Idle => None,
        }
    }
}

/// The summons of one order: its quotas, the banners it has left behind, and
/// the summon it is on.
#[derive(Debug, PartialEq, Eq)]
pub struct PullsData {
    pub bulks: usize,
    pub singles: usize,
    pub bulk_pulls: Vec<Banner>,
    pub single_pulls: Vec<Banner>,
    pub active: ActiveBanner,
}

/// The summons of one order as plain values.
pub ghost struct PullsView {
    pub bulks: nat,
    pub singles: nat,
    pub bulk_pulls: Seq<BannerView>,
    pub single_pulls: Seq<BannerView>,
    pub active: ActiveView,
}

/// A list of banners as plain values.
pub open spec fn history(banners: Seq<Banner>) -> Seq<BannerView> {
    banners.map_values(|banner: Banner| banner@)
}

/// The number of revealed slots over a list of banners.
pub open spec fn total_pulled(banners: Seq<BannerView>) -> nat
    decreases banners.len(),
{
    if banners.len() == 0 {
        0
    } else {
        total_pulled(banners.drop_last()) + banners.last().pulled()
    }
}

impl View for PullsData {
    type V = PullsView;

    open spec fn view(&self) -> PullsView {
        PullsView {
            bulks: self.bulks as nat,
            singles: self.singles as nat,
            bulk_pulls: history(self.bulk_pulls@),
            single_pulls: history(self.single_pulls@),
            active: self.active@,
        }
    }
}

impl PullsView {
    /// The single summons that are used up: every revealed slot of a single
    /// banner, archived or active, is one.
    pub open spec fn consumed_singles(self) -> nat {
        total_pulled(self.single_pulls) + self.active.single_pulled()
    }

    /// The bulk summons that are used up: every bulk banner, archived or
    /// active, is one.
    pub open spec fn consumed_bulks(self) -> nat {
        self.bulk_pulls.len() + self.active.bulk_count()
    }

    /// The single summons that are left.
    pub open spec fn remaining_singles(self) -> int {
        self.singles - self.consumed_singles()
    }

    /// The bulk summons that are left.
    pub open spec fn remaining_bulks(self) -> int {
        self.bulks - self.consumed_bulks()
    }

    /// No more is used up than the quotas grant.
    pub open spec fn wf(self) -> bool {
        self.consumed_singles() <= self.singles && self.consumed_bulks() <= self.bulks
    }

    /// The state after the active summon has been archived and `next` has
    /// taken its place. A banner is archived as it is: what it has not
    /// revealed stays unrevealed.
    pub open spec fn replaced(self, next: ActiveView) -> PullsView {
        PullsView {
            bulks: self.bulks,
            singles: self.singles,
            bulk_pulls: match self.active {
                ActiveView::Bulk(banner) => self.bulk_pulls.push(banner),
                _ => self.bulk_pulls,
            },
            single_pulls: match self.active {
                ActiveView::Single(banner) => self.single_pulls.push(banner),
                _ => self.single_pulls,
            },
            active: next,
        }
    }
}

/// A banner more in a list adds its revealed slots to the total.
pub proof fn lemma_total_pulled_push(banners: Seq<BannerView>, banner: BannerView)
    ensures
        total_pulled(banners.push(banner)) == total_pulled(banners) + banner.pulled(),
{
    assert(banners.push(banner).drop_last() == banners);
}

/// The first banners of a list have no more revealed slots than all of them.
pub proof fn lemma_total_pulled_prefix(banners: Seq<BannerView>, count: int)
    requires
        0 <= count <= banners.len(),
    ensures
        total_pulled(banners.take(count)) <= total_pulled(banners),
    decreases banners.len(),
{
    if count == banners.len() {
        assert(banners.take(count) == banners);
    } else {
        lemma_total_pulled_prefix(banners.drop_last(), count);
        assert(banners.drop_last().take(count) == banners.take(count));
    }
}

/// What is left of a quota and what is used up of it add up to the quota.
pub proof fn lemma_quota_balance(pulls: PullsData)
    ensures
        pulls@.remaining_singles() + pulls@.consumed_singles() == pulls.singles,
        pulls@.remaining_bulks() + pulls@.consumed_bulks() == pulls.bulks,
{
}

impl PullsData {
    /// The summons of a new order with the given quotas: nothing is archived
    /// and no summon is active.
    pub fn new(singles: usize, bulks: usize) -> (pulls: PullsData)
        ensures
            pulls.singles == singles,
            pulls.bulks == bulks,
            pulls.single_pulls@.len() == 0,
            pulls.bulk_pulls@.len() == 0,
            pulls.active is Idle,
            pulls@.wf(),
            pulls@.remaining_singles() == singles,
            pulls@.remaining_bulks() == bulks,
    {
        let pulls = PullsData {
            singles,
            bulks,
            bulk_pulls: Vec::new(),
            single_pulls: Vec::new(),
            active: ActiveBanner::Idle,
        };
        pulls
    }

    /// Whether no more is used up than the quotas grant. Every operation on
    /// the summons of an order keeps it so; pulls that come from storage are
    /// tested with this before anything else is done with them.
    pub fn is_valid(&self) -> (valid: bool)
        ensures
            valid == self@.wf(),
    {
        let ghost past = self@.single_pulls;
        let mut used: usize = 0;
        let mut i: usize = 0;
        while i < self.single_pulls.len()
            invariant
                i <= self.single_pulls@.len(),
                past == self@.single_pulls,
                used == total_pulled(past.take(i as int)),
                used <= self.singles,
            decreases self.single_pulls@.len() - i,
        {
            let pulled = self.single_pulls[i].pulled();
            proof {
                assert(past.take(i + 1).drop_last() == past.take(i as int));
                assert(past.take(i + 1).last() == self.single_pulls@[i as int]@);
                lemma_total_pulled_prefix(past, i + 1);
            }
            if pulled > self.singles - used {
                return false;
            }
            used = used + pulled;
            i += 1;
        }
        proof {
            assert(past.take(i as int) == past);
        }
        let active_pulled = match &self.active {
            ActiveBanner::Single(banner) => banner.pulled(),
            _ => 0,
        };
        if active_pulled > self.singles - used {
            return false;
        }
        match &self.active {
            ActiveBanner::Bulk(_) => self.bulk_pulls.len() < self.bulks,
            _ => self.bulk_pulls.len() <= self.bulks,
        }
    }

    /// The single summons that are used up.
    pub fn pulled_singles(&self) -> (used: usize)
        requires
            self@.wf(),
        ensures
            used == self@.consumed_singles(),
            used <= self.singles,
    {
        let ghost past = self@.single_pulls;
        let mut used: usize = 0;
        let mut i: usize = 0;
        while i < self.single_pulls.len()
            invariant
                i <= self.single_pulls@.len(),
                past == self@.single_pulls,
                used == total_pulled(past.take(i as int)),
                total_pulled(past) <= self.singles,
            decreases self.single_pulls@.len() - i,
        {
            let pulled = self.single_pulls[i].pulled();
            proof {
                assert(past.take(i + 1).drop_last() == past.take(i as int));
                assert(past.take(i + 1).last() == self.single_pulls@[i as int]@);
                lemma_total_pulled_prefix(past, i + 1);
            }
            used = used + pulled;
            i += 1;
        }
        proof {
            assert(past.take(i as int) == past);
        }
        match &self.active {
            ActiveBanner::Single(banner) => used + banner.pulled(),
            _ => used,
        }
    }

    /// The bulk summons that are used up.
    pub fn pulled_bulks(&self) -> (used: usize)
        requires
            self@.wf(),
        ensures
            used == self@.consumed_bulks(),
            used <= self.bulks,
    {
        match &self.active {
            ActiveBanner::Bulk(_) => self.bulk_pulls.len() + 1,
            _ => self.bulk_pulls.len(),
        }
    }

    /// The single summons that are left, derived from the banners.
    pub fn remaining_singles(&self) -> (left: usize)
        requires
            self@.wf(),
        ensures
            left == self@.remaining_singles(),
            left + self@.consumed_singles() == self.singles,
    {
        self.singles - self.pulled_singles()
    }

    /// The bulk summons that are left, derived from the banners.
    pub fn remaining_bulks(&self) -> (left: usize)
        requires
            self@.wf(),
        ensures
            left == self@.remaining_bulks(),
            left + self@.consumed_bulks() == self.bulks,
    {
        self.bulks - self.pulled_bulks()
    }

    /// Archives the active summon, whatever it has revealed, and puts `next`
    /// in its place.
    pub fn set_active(&mut self, next: ActiveBanner)
        ensures
            final(self)@ == old(self)@.replaced(next@),
            final(self).active == next,
    {
        let ghost before = self@;
        let mut previous = next;
        std::mem::swap(&mut self.active, &mut previous);
        match previous {
            ActiveBanner::Single(banner) => {
                self.single_pulls.push(banner);
                assert(self@.single_pulls =~= before.single_pulls.push(banner@));
            },
            ActiveBanner::Bulk(banner) => {
                self.bulk_pulls.push(banner);
                assert(self@.bulk_pulls =~= before.bulk_pulls.push(banner@));
            },
            ActiveBanner::Idle => {},
        }
    }
}

impl PullsView {
    /// Why a new summon may not replace the active one, if it may not: a
    /// single summon that has revealed nothing is not rerolled, and a bulk
    /// summon is finished first.
    pub open spec fn replace_refusal(self, fresh_single: PullError) -> Option<PullError> {
        match self.active {
            ActiveView::Single(banner) => if banner.pulled() == 0 {
                Some(fresh_single)
            } else {
                None
            },
            ActiveView::Bulk(banner) => if banner.pulled() != 5 {
                Some(PullError::BannerInProgress)
            } else {
                None
            },
            ActiveView::Idle => None,
        }
    }

    /// Why a single summon may not start, if it may not.
    pub open spec fn single_refusal(self) -> Option<PullError> {
        if self.remaining_singles() <= 0 {
            Some(PullError::NoQuotaRemaining)
        } else {
            self.replace_refusal(PullError::RerollRefused)
        }
    }

    /// Why a bulk summon may not start, if it may not.
    pub open spec fn bulk_refusal(self) -> Option<PullError> {
        if self.remaining_bulks() <= 0 {
            Some(PullError::NoQuotaRemaining)
        } else {
            self.replace_refusal(PullError::BannerInProgress)
        }
    }

    /// Why a slot may not be revealed, if it may not.
    pub open spec fn reveal_refusal(self, slot: int) -> Option<PullError> {
        match self.active.banner() {
            None => Some(PullError::NoActiveBanner),
            Some(banner) => if slot < 0 || slot >= 5 {
                Some(PullError::SlotIndexOutOfRange)
            } else if banner.revealed[slot] {
                Some(PullError::SlotAlreadyRevealed)
            } else if self.active is Single && self.remaining_singles() <= 0 {
                Some(PullError::NoQuotaRemaining)
            } else {
                None
            },
        }
    }

    /// The state after a slot of the active summon has been revealed.
    pub open spec fn revealed_at(self, slot: int) -> PullsView {
        PullsView {
            bulks: self.bulks,
            singles: self.singles,
            bulk_pulls: self.bulk_pulls,
            single_pulls: self.single_pulls,
            active: match self.active {
                ActiveView::Single(banner) => ActiveView::Single(
                    BannerView { slots: banner.slots, revealed: banner.revealed.update(slot, true) },
                ),
                ActiveView::Bulk(banner) => ActiveView::Bulk(
                    BannerView { slots: banner.slots, revealed: banner.revealed.update(slot, true) },
                ),
                ActiveView::Idle => ActiveView::Idle,
            },
        }
    }
}

/// Archiving the active summon uses up nothing: with a fresh single summon
/// in its place as much is used up as before, and with a fresh bulk summon
/// one bulk summon more.
pub proof fn lemma_replaced_consumes(pulls: PullsView, next: ActiveView)
    requires
        next.banner() matches Some(banner) && banner.pulled() == 0,
    ensures
        pulls.replaced(next).consumed_singles() == pulls.consumed_singles(),
        pulls.replaced(next).consumed_bulks() == pulls.consumed_bulks() + next.bulk_count(),
{
    match pulls.active {
        ActiveView::Single(banner) => {
            lemma_total_pulled_push(pulls.single_pulls, banner);
        },
        _ => {},
    }
}

/// A slot can be revealed only on a banner that is not yet fully revealed.
pub proof fn lemma_revealable_banner_is_not_full(pulls: PullsView, slot: int)
    requires
        pulls.reveal_refusal(slot) is None,
        pulls.active.banner().unwrap().revealed.len() == 5,
    ensures
        pulls.active.banner().unwrap().pulled() < 5,
        pulls.active is Single ==> pulls.consumed_singles() < pulls.singles,
{
    let revealed = pulls.active.banner().unwrap().revealed;
    lemma_count_true_full(revealed);
    lemma_count_true_bounded(revealed);
}

/// A single summon that has just started is not rerolled: a second start
/// before any slot is revealed is refused.
pub proof fn lemma_fresh_single_is_not_rerolled(before: PullsView, banner: BannerView)
    requires
        before.single_refusal() is None,
        banner.pulled() == 0,
    ensures
        before.replaced(ActiveView::Single(banner)).single_refusal() == Some(PullError::RerollRefused),
{
    lemma_replaced_consumes(before, ActiveView::Single(banner));
}

/// A bulk summon is finished before a new summon starts: while a slot of it
/// is unrevealed, a start is refused, whatever is left of the quotas.
pub proof fn lemma_bulk_in_progress_blocks(pulls: PullsView, banner: BannerView)
    requires
        pulls.active == ActiveView::Bulk(banner),
        banner.pulled() != 5,
    ensures
        pulls.single_refusal() is Some,
        pulls.bulk_refusal() is Some,
        pulls.remaining_singles() > 0 ==> pulls.single_refusal() == Some(PullError::BannerInProgress),
        pulls.remaining_bulks() > 0 ==> pulls.bulk_refusal() == Some(PullError::BannerInProgress),
{
}

impl PullsData {
    /// Whether the active summon may be replaced, and the refusal if not.
    fn check_replace(&self, fresh_single: PullError) -> (outcome: Result<(), PullError>)
        ensures
            outcome == match self@.replace_refusal(fresh_single) {
                Some(e) => Err::<(), PullError>(e),
                None => Ok::<(), PullError>(()),
            },
    {
        match &self.active {
            ActiveBanner::Single(banner) => {
                if banner.pulled() == 0 {
                    Err(fresh_single)
                } else {
                    Ok(())
                }
            },
            ActiveBanner::Bulk(banner) => {
                if banner.pulled() != 5 {
                    Err(PullError::BannerInProgress)
                } else {
                    Ok(())
                }
            },
            ActiveBanner::Idle => Ok(()),
        }
    }

    /// Whether a single summon may start, and the refusal if not.
    pub fn check_single(&self) -> (outcome: Result<(), PullError>)
        requires
            self@.wf(),
        ensures
            outcome == match self@.single_refusal() {
                Some(e) => Err::<(), PullError>(e),
                None => Ok::<(), PullError>(()),
            },
    {
        if self.remaining_singles() == 0 {
            return Err(PullError::NoQuotaRemaining);
        }
        self.check_replace(PullError::RerollRefused)
    }

    /// Whether a bulk summon may start, and the refusal if not.
    pub fn check_bulk(&self) -> (outcome: Result<(), PullError>)
        requires
            self@.wf(),
        ensures
            outcome == match self@.bulk_refusal() {
                Some(e) => Err::<(), PullError>(e),
                None => Ok::<(), PullError>(()),
            },
    {
        if self.remaining_bulks() == 0 {
            return Err(PullError::NoQuotaRemaining);
        }
        self.check_replace(PullError::BannerInProgress)
    }

    /// Starts a single summon on the given five products, if one may start:
    /// the active summon is archived, and a banner of the five products, none
    /// of them revealed, becomes the active one.
    pub fn start_single_with(&mut self, slots: [Product; 5]) -> (outcome: Result<(), PullError>)
        requires
            old(self)@.wf(),
        ensures
            final(self)@.wf(),
            outcome matches Err(e) ==> old(self)@.single_refusal() == Some(e) && *final(self) == *old(self),
            outcome is Ok ==> old(self)@.single_refusal() is None && final(self)@ == old(self)@.replaced(
                ActiveView::Single(fresh_banner(listing(slots@))),
            ) && (final(self).active matches ActiveBanner::Single(banner) && banner.slots == slots),
    {
        match self.check_single() {
            Err(e) => Err(e),
            Ok(()) => {
                let banner = Banner::new(slots);
                proof {
                    lemma_replaced_consumes(self@, ActiveView::Single(banner@));
                }
                self.set_active(ActiveBanner::Single(banner));
                Ok(())
            },
        }
    }

    /// Starts a bulk summon on the given five products, if one may start:
    /// the active summon is archived, and a banner of the five products, none
    /// of them revealed, becomes the active one.
    pub fn start_bulk_with(&mut self, slots: [Product; 5]) -> (outcome: Result<(), PullError>)
        requires
            old(self)@.wf(),
        ensures
            final(self)@.wf(),
            outcome matches Err(e) ==> old(self)@.bulk_refusal() == Some(e) && *final(self) == *old(self),
            outcome is Ok ==> old(self)@.bulk_refusal() is None && final(self)@ == old(self)@.replaced(
                ActiveView::Bulk(fresh_banner(listing(slots@))),
            ) && (final(self).active matches ActiveBanner::Bulk(banner) && banner.slots == slots),
    {
        match self.check_bulk() {
            Err(e) => Err(e),
            Ok(()) => {
                let banner = Banner::new(slots);
                proof {
                    lemma_replaced_consumes(self@, ActiveView::Bulk(banner@));
                }
                self.set_active(ActiveBanner::Bulk(banner));
                Ok(())
            },
        }
    }

    /// Starts a single summon, if one may start and a product can be drawn:
    /// the active summon is archived, and a banner whose five slots are
    /// drawn with replacement among the products in stock becomes the active
    /// one. A refusal leaves everything as it was.
    pub fn start_banner_single(&mut self, products: &Products, inventory: &Vec<Item>) -> (outcome: Result<
        (),
        PullError,
    >)
        requires
            old(self)@.wf(),
        ensures
            final(self)@.wf(),
            outcome is Ok <==> old(self)@.single_refusal() is None && any_drawable(
                listing(products.product@),
                report(inventory@),
                Seq::empty(),
            ),
            outcome matches Err(e) ==> *final(self) == *old(self) && e == match old(self)@.single_refusal() {
                Some(refusal) => refusal,
                None => PullError::NoEligibleProduct,
            },
            outcome is Ok ==> final(self)@ == old(self)@.replaced(final(self)@.active),
            outcome is Ok ==> (final(self)@.active matches ActiveView::Single(banner) && banner.is_fresh()
                && is_single_draw(listing(products.product@), report(inventory@), banner.slots)),
    {
        match self.check_single() {
            Err(e) => Err(e),
            Ok(()) => match products.banner_with_replacement(inventory) {
                Err(e) => Err(e),
                Ok(banner) => self.start_single_with(banner.slots),
            },
        }
    }

    /// Starts a bulk summon, if one may start and five different SKUs can be
    /// drawn: the active summon is archived, and a banner whose five slots
    /// are drawn without replacement among the products in stock becomes the
    /// active one. A refusal leaves everything as it was.
    pub fn start_banner_bulk(&mut self, products: &Products, inventory: &Vec<Item>) -> (outcome: Result<
        (),
        PullError,
    >)
        requires
            old(self)@.wf(),
        ensures
            final(self)@.wf(),
            outcome is Ok <==> old(self)@.bulk_refusal() is None && has_distinct_drawable(
                listing(products.product@),
                report(inventory@),
                5,
            ),
            outcome matches Err(e) ==> *final(self) == *old(self) && e == match old(self)@.bulk_refusal() {
                Some(refusal) => refusal,
                None => PullError::NoEligibleProduct,
            },
            outcome is Ok ==> final(self)@ == old(self)@.replaced(final(self)@.active),
            outcome is Ok ==> (final(self)@.active matches ActiveView::Bulk(banner) && banner.is_fresh()
                && is_bulk_draw(listing(products.product@), report(inventory@), banner.slots)),
    {
        match self.check_bulk() {
            Err(e) => Err(e),
            Ok(()) => match products.banner(inventory) {
                Err(e) => Err(e),
                Ok(banner) => self.start_bulk_with(banner.slots),
            },
        }
    }

    /// The product in a slot of the active summon, revealed or not.
    pub fn check_slot(&self, slot: usize) -> (product: Option<&Product>)
        ensures
            product is Some <==> self@.active.banner() is Some && slot < 5,
            product matches Some(p) ==> p@ == self@.active.banner().unwrap().slots[slot as int],
    {
        match self.active.as_banner() {
            Some(banner) => {
                if slot < 5 {
                    Some(&banner.slots[slot])
                } else {
                    None
                }
            },
            None => None,
        }
    }

    /// Reveals a slot of the active summon and gives the product that is in
    /// it. A slot of a single summon uses up one single summon of the quota.
    /// A refusal leaves everything as it was.
    pub fn pull_slot(&mut self, slot: usize) -> (outcome: Result<Product, PullError>)
        requires
            old(self)@.wf(),
        ensures
            final(self)@.wf(),
            outcome matches Err(e) ==> old(self)@.reveal_refusal(slot as int) == Some(e) && *final(self) == *old(self),
            (old(self)@.active.banner() matches Some(banner) && slot < 5 && banner.revealed[slot as int])
                ==> outcome == Err::<Product, PullError>(PullError::SlotAlreadyRevealed) && *final(self) == *old(self),
            old(self)@.active.banner() matches Some(before) ==> (final(self)@.active.banner() matches Some(after)
                && before.pulled() <= after.pulled()),
            outcome matches Ok(product) ==> {
                &&& old(self)@.reveal_refusal(slot as int) is None
                &&& final(self)@ == old(self)@.revealed_at(slot as int)
                &&& product@ == old(self)@.active.banner().unwrap().slots[slot as int]
                &&& final(self)@.active.banner().unwrap().pulled() == old(self)@.active.banner().unwrap().pulled()
                    + 1
            },
    {
        let used = self.pulled_singles();
        let quota = self.singles;
        match &mut self.active {
            ActiveBanner::Idle => Err(PullError::NoActiveBanner),
            ActiveBanner::Single(banner) => {
                if slot < 5 && !banner.revealed[slot] && used >= quota {
                    Err(PullError::NoQuotaRemaining)
                } else {
                    match banner.reveal_slot(slot) {
                        Ok(()) => Ok(banner.slots[slot].clone()),
                        Err(e) => Err(e),
                    }
                }
            },
            ActiveBanner::Bulk(banner) => match banner.reveal_slot(slot) {
                Ok(()) => Ok(banner.slots[slot].clone()),
                Err(e) => Err(e),
            },
        }
    }
}

/// The products in the revealed slots of a list of banners, banner by
/// banner and in slot order.
pub open spec fn pulled_of(banners: Seq<BannerView>) -> Seq<ProductView>
    decreases banners.len(),
{
    if banners.len() == 0 {
        Seq::empty()
    } else {
        pulled_of(banners.drop_last()) + banners.last().pulled_products()
    }
}

impl PullsView {
    /// Every product that the order has revealed: those of the archived bulk
    /// summons, then those of the archived single summons, then those of the
    /// active summon.
    pub open spec fn pulled_products(self) -> Seq<ProductView> {
        pulled_of(self.bulk_pulls) + pulled_of(self.single_pulls) + match self.active.banner() {
            Some(banner) => banner.pulled_products(),
            None => Seq::empty(),
        }
    }

    /// The names of the revealed products.
    pub open spec fn names(self) -> Seq<Seq<char>> {
        self.pulled_products().map_values(|product: ProductView| product.name)
    }

    /// The SKUs of the revealed products.
    pub open spec fn skus(self) -> Seq<Seq<char>> {
        self.pulled_products().map_values(|product: ProductView| product.sku)
    }
}

/// Adds the products in the revealed slots of a banner to a list.
fn push_pulled<'a>(found: &mut Vec<&'a Product>, banner: &'a Banner)
    ensures
        final(found)@.len() == old(found)@.len() + banner@.pulled_products().len(),
        forall|k: int| 0 <= k < old(found)@.len() ==> final(found)@[k] == old(found)@[k],
        forall|k: int|
            0 <= k < banner@.pulled_products().len() ==> (#[trigger] final(found)@[old(found)@.len() + k])@
                == banner@.pulled_products()[k],
{
    let ghost before = found@;
    let products = banner.pulled_products();
    let mut k: usize = 0;
    while k < products.len()
        invariant
            k <= products@.len(),
            found@.len() == before.len() + k,
            forall|j: int| 0 <= j < before.len() ==> found@[j] == before[j],
            forall|j: int| 0 <= j < k ==> #[trigger] found@[before.len() + j] == products@[j],
        decreases products@.len() - k,
    {
        found.push(products[k]);
        k += 1;
    }
}

/// Adds the products in the revealed slots of a list of banners to a list.
fn push_pulled_of<'a>(found: &mut Vec<&'a Product>, banners: &'a Vec<Banner>)
    ensures
        final(found)@.len() == old(found)@.len() + pulled_of(history(banners@)).len(),
        forall|k: int| 0 <= k < old(found)@.len() ==> final(found)@[k] == old(found)@[k],
        forall|k: int|
            0 <= k < pulled_of(history(banners@)).len() ==> (#[trigger] final(found)@[old(found)@.len() + k])@
                == pulled_of(history(banners@))[k],
{
    let ghost before = found@;
    let ghost past = history(banners@);
    let mut i: usize = 0;
    while i < banners.len()
        invariant
            i <= banners@.len(),
            past == history(banners@),
            found@.len() == before.len() + pulled_of(past.take(i as int)).len(),
            forall|j: int| 0 <= j < before.len() ==> found@[j] == before[j],
            forall|j: int|
                0 <= j < pulled_of(past.take(i as int)).len() ==> (#[trigger] found@[before.len() + j])@
                    == pulled_of(past.take(i as int))[j],
        decreases banners@.len() - i,
    {
        let ghost earlier = found@;
        let ghost done = pulled_of(past.take(i as int));
        proof {
            assert(past.take(i + 1).drop_last() == past.take(i as int));
            assert(past.take(i + 1).last() == banners@[i as int]@);
        }
        push_pulled(found, &banners[i]);
        proof {
            let more = banners@[i as int]@.pulled_products();
            assert(pulled_of(past.take(i + 1)) == done + more);
            assert forall|j: int| 0 <= j < (done + more).len() implies (#[trigger] found@[before.len() + j])@ == (
            done + more)[j] by {
                if j < done.len() {
                    assert(found@[before.len() + j] == earlier[before.len() + j]);
                } else {
                    assert(found@[earlier.len() + (j - done.len())]@ == more[j - done.len()]);
                }
            }
        }
        i += 1;
    }
    proof {
        assert(past.take(i as int) == past);
    }
}

impl PullsData {
    /// Every product that the order has revealed: those of the archived bulk
    /// summons, then those of the archived single summons, then those of the
    /// active summon, each in slot order.
    pub fn pulled_products(&self) -> (found: Vec<&Product>)
        ensures
            found@.len() == self@.pulled_products().len(),
            forall|k: int| 0 <= k < found@.len() ==> (#[trigger] found@[k])@ == self@.pulled_products()[k],
    {
        let mut found: Vec<&Product> = Vec::new();
        push_pulled_of(&mut found, &self.bulk_pulls);
        let ghost bulk = pulled_of(self@.bulk_pulls);
        let ghost first = found@;
        push_pulled_of(&mut found, &self.single_pulls);
        let ghost single = pulled_of(self@.single_pulls);
        let ghost second = found@;
        assert forall|k: int| 0 <= k < (bulk + single).len() implies (#[trigger] found@[k])@ == (bulk + single)[k] by {
            if k < bulk.len() {
                assert(found@[k] == first[0 + k]);
            } else {
                assert(found@[first.len() + (k - bulk.len())]@ == single[k - bulk.len()]);
            }
        }
        match self.active.as_banner() {
            Some(banner) => {
                push_pulled(&mut found, banner);
                let ghost last = banner@.pulled_products();
                assert forall|k: int| 0 <= k < found@.len() implies (#[trigger] found@[k])@
                    == self@.pulled_products()[k] by {
                    if k < second.len() {
                        assert(found@[k] == second[k]);
                    } else {
                        assert(found@[second.len() + (k - second.len())]@ == last[k - second.len()]);
                    }
                }
            },
            None => {
                assert(self@.pulled_products() =~= bulk + single);
            },
        }
        found
    }

    /// The names of the revealed products, in the order of `pulled_products`.
    pub fn names(&self) -> (names: Vec<String>)
        ensures
            names@.len() == self@.names().len(),
            forall|k: int| 0 <= k < names@.len() ==> (#[trigger] names@[k])@ == self@.names()[k],
    {
        let found = self.pulled_products();
        let mut names: Vec<String> = Vec::new();
        let mut k: usize = 0;
        while k < found.len()
            invariant
                k <= found@.len(),
                names@.len() == k,
                forall|j: int| 0 <= j < k ==> (#[trigger] names@[j])@ == found@[j]@.name,
            decreases found@.len() - k,
        {
            names.push(found[k].name.clone());
            k += 1;
        }
        names
    }

    /// The SKUs of the revealed products, in the order of `pulled_products`.
    pub fn skus(&self) -> (skus: Vec<String>)
        ensures
            skus@.len() == self@.skus().len(),
            forall|k: int| 0 <= k < skus@.len() ==> (#[trigger] skus@[k])@ == self@.skus()[k],
    {
        let found = self.pulled_products();
        let mut skus: Vec<String> = Vec::new();
        let mut k: usize = 0;
        while k < found.len()
            invariant
                k <= found@.len(),
                skus@.len() == k,
                forall|j: int| 0 <= j < k ==> (#[trigger] skus@[j])@ == found@[j]@.sku,
            decreases found@.len() - k,
        {
            skus.push(found[k].sku.clone());
            k += 1;
        }
        skus
    }
}

} // verus!
