use vstd::prelude::*;
use crate::banner::{Banner, BannerView};
use crate::error::{error_text, PullError};
use crate::order_number::{order_number_text, OrderNumber};
use crate::pool::{pool_name, Pool};
use crate::pulls_data::{ActiveBanner, ActiveView, PullsData, PullsView};
use crate::text::{decimal, digits};

verus! {

/// What a customer can ask for by pressing a button.
#[derive(Copy, Clone, PartialEq, Eq, Structural, Debug)]
pub enum Action {
    Single,
    Bulk,
    Pull(usize),
    Share,
}

/// How a button is coloured.
#[derive(Copy, Clone, PartialEq, Eq, Structural, Debug)]
pub enum ButtonStyle {
    Primary,
    Secondary,
    Success,
    Danger,
}

/// One button under a message.
#[derive(Debug, PartialEq, Eq)]
pub struct Button {
    pub action: Action,
    pub label: String,
    pub style: ButtonStyle,
}

/// A button as plain values.
pub ghost struct ButtonView {
    pub action: Action,
    pub label: Seq<char>,
    pub style: ButtonStyle,
}

impl View for Button {
    type V = ButtonView;

    open spec fn view(&self) -> ButtonView {
        ButtonView { action: self.action, label: self.label@, style: self.style }
    }
}

/// What an order is shown: a text, rows of buttons, and whether the picture
/// of the active summon goes with it.
#[derive(Debug, PartialEq, Eq)]
pub struct Message {
    pub message: String,
    pub buttons: Vec<Vec<Button>>,
    pub has_image: bool,
}

/// A row of buttons as plain values.
pub open spec fn row_view(row: Seq<Button>) -> Seq<ButtonView> {
    row.map_values(|button: Button| button@)
}

/// Rows of buttons as plain values.
pub open spec fn rows_view(rows: Seq<Vec<Button>>) -> Seq<Seq<ButtonView>> {
    rows.map_values(|row: Vec<Button>| row_view(row@))
}

/// The colour of the button of a slot: that of its pool.
pub open spec fn pool_style(pool: Pool) -> ButtonStyle {
    match pool {
        Pool::Red => ButtonStyle::Danger,
        Pool::Green => ButtonStyle::Success,
        Pool::Blue => ButtonStyle::Primary,
        Pool::White => ButtonStyle::Secondary,
    }
}

/// The button that reveals a slot. Slots are counted from 1 on the label.
pub open spec fn slot_button(pool: Pool, slot: nat) -> ButtonView {
    ButtonView {
        action: Action::Pull(slot as usize),
        label: "Summon "@ + pool_name(pool) + " #"@ + digits(slot + 1),
        style: pool_style(pool),
    }
}

/// The buttons of the unrevealed slots among the first `count` slots of a
/// banner, in slot order.
pub open spec fn slot_buttons(banner: BannerView, count: nat) -> Seq<ButtonView>
    decreases count,
{
    if count == 0 {
        Seq::empty()
    } else {
        let before = slot_buttons(banner, (count - 1) as nat);
        if banner.revealed[count - 1] {
            before
        } else {
            before.push(slot_button(banner.slots[count - 1].pool, (count - 1) as nat))
        }
    }
}

/// The button that starts a single summon.
pub open spec fn single_button() -> ButtonView {
    ButtonView { action: Action::Single, label: "Start new single summon"@, style: ButtonStyle::Primary }
}

/// The button that starts a bulk summon.
pub open spec fn bulk_button() -> ButtonView {
    ButtonView { action: Action::Bulk, label: "Start new full summon"@, style: ButtonStyle::Primary }
}

/// The button that shares the active summon.
pub open spec fn share_button() -> ButtonView {
    ButtonView { action: Action::Share, label: "Share current results"@, style: ButtonStyle::Secondary }
}

/// A text, or nothing, as plain values.
pub open spec fn text_view(text: Option<String>) -> Option<Seq<char>> {
    match text {
        Some(t) => Some(t@),
        None => None,
    }
}

impl PullsView {
    /// Whether the active summon may be replaced by a new one.
    pub open spec fn can_start(self) -> bool {
        self.replace_refusal(PullError::RerollRefused) is None
    }

    /// The banner that can be gone on with: an active summon with a slot to
    /// reveal, and for a single summon something left of the single quota.
    pub open spec fn continued(self) -> Option<BannerView> {
        match self.active {
            ActiveView::Single(banner) => if banner.pulled() != 5 && self.remaining_singles() > 0 {
                Some(banner)
            } else {
                None
            },
            ActiveView::Bulk(banner) => if banner.pulled() != 5 {
                Some(banner)
            } else {
                None
            },
            ActiveView::Idle => None,
        }
    }

    /// The buttons that start or share a summon.
    pub open spec fn start_buttons(self) -> Seq<ButtonView> {
        let single = if self.can_start() && self.remaining_singles() > 0 {
            seq![single_button()]
        } else {
            Seq::empty()
        };
        let bulk = if self.can_start() && self.remaining_bulks() > 0 {
            seq![bulk_button()]
        } else {
            Seq::empty()
        };
        let share = if self.active is Idle {
            Seq::empty()
        } else {
            seq![share_button()]
        };
        single + bulk + share
    }

    /// The rows of buttons: the slots that can be revealed, if the active
    /// summon can be gone on with, and then the row that starts or shares a
    /// summon, if it holds a button.
    pub open spec fn button_rows(self) -> Seq<Seq<ButtonView>> {
        let slots = match self.continued() {
            Some(banner) => seq![slot_buttons(banner, 5)],
            None => Seq::empty(),
        };
        let start = if self.start_buttons().len() > 0 {
            seq![self.start_buttons()]
        } else {
            Seq::empty()
        };
        slots + start
    }

    /// The text that an order is shown.
    pub open spec fn message_text(self, order: OrderNumber, extra: Option<Seq<char>>) -> Seq<char> {
        let head = "You are viewing **Order "@ + order_number_text(order) + "**.\n"@ + "You have **"@ + digits(
            self.remaining_bulks() as nat,
        ) + " full summons** and **"@ + digits(self.remaining_singles() as nat)
            + " single summons** remaining.\n"@;
        let either = if self.continued() is Some && self.can_start() {
            "You may continue making single summons from the current pool or choose to start a new one.\n"@
        } else {
            Seq::empty()
        };
        let going = if self.continued() is Some {
            "You have started a full summon. Choose an option to continue.\n"@
        } else {
            Seq::empty()
        };
        let starting = if self.can_start() && self.active is Idle {
            "Choose an option to begin summoning.\n"@
        } else if self.can_start() {
            "Choose an option below to continue summoning.\n"@
        } else {
            Seq::empty()
        };
        let tail = match extra {
            Some(text) => "\n"@ + text + "\n"@,
            None => Seq::empty(),
        };
        head + either + going + starting + tail
    }
}

/// The colour of the button of a slot.
pub fn style_of(pool: Pool) -> (style: ButtonStyle)
    ensures
        style == pool_style(pool),
{
    match pool {
        Pool::Red => ButtonStyle::Danger,
        Pool::Green => ButtonStyle::Success,
        Pool::Blue => ButtonStyle::Primary,
        Pool::White => ButtonStyle::Secondary,
    }
}

/// The buttons of the slots of a banner that are not revealed yet.
pub fn slot_row(banner: &Banner) -> (row: Vec<Button>)
    ensures
        row_view(row@) == slot_buttons(banner@, 5),
{
    let mut row: Vec<Button> = Vec::new();
    let mut i: usize = 0;
    assert(row_view(row@) =~= slot_buttons(banner@, 0));
    while i < 5
        invariant
            i <= 5,
            row_view(row@) == slot_buttons(banner@, i as nat),
        decreases 5 - i,
    {
        if !banner.revealed[i] {
            let ghost before = row_view(row@);
            let pool = banner.slots[i].pool;
            let mut label = String::from_str("Summon ");
            let name = pool.to_string();
            label.append(name.as_str());
            label.append(" #");
            let number = decimal((i + 1) as u64);
            label.append(number.as_str());
            let button = Button { action: Action::Pull(i), label, style: style_of(pool) };
            assert(button@ == slot_button(banner@.slots[i as int].pool, i as nat));
            row.push(button);
            assert(row_view(row@) =~= before.push(button@));
        }
        i += 1;
    }
    row
}

impl PullsData {
    /// What the order is shown in its present state: how much is left of its
    /// quotas, what it can do next, and a button for each thing it can do.
    pub fn to_message(&self, order_number: OrderNumber, extra: Option<String>) -> (shown: Message)
        requires
            self@.wf(),
        ensures
            shown.message@ == self@.message_text(order_number, text_view(extra)),
            rows_view(shown.buttons@) == self@.button_rows(),
            shown.has_image == !(self@.active is Idle),
    {
        let singles_available = self.remaining_singles();
        let bulks_available = self.remaining_bulks();
        let can_start = match &self.active {
            ActiveBanner::Idle => true,
            ActiveBanner::Single(banner) => banner.pulled() > 0,
            ActiveBanner::Bulk(banner) => banner.pulled() == 5,
        };
        let continued: Option<&Banner> = match &self.active {
            ActiveBanner::Single(banner) => if banner.pulled() != 5 && singles_available > 0 {
                Some(banner)
            } else {
                None
            },
            ActiveBanner::Bulk(banner) => if banner.pulled() != 5 {
                Some(banner)
            } else {
                None
            },
            ActiveBanner::Idle => None,
        };
        let is_idle = match &self.active {
            ActiveBanner::Idle => true,
            _ => false,
        };

        let mut buttons: Vec<Vec<Button>> = Vec::new();
        match continued {
            Some(banner) => {
                let row = slot_row(banner);
                buttons.push(row);
            },
            None => {},
        }
        let ghost slots = rows_view(buttons@);
        assert(slots =~= match self@.continued() {
            Some(banner) => seq![slot_buttons(banner, 5)],
            None => Seq::empty(),
        });

        let mut row: Vec<Button> = Vec::new();
        if can_start && singles_available > 0 {
            row.push(
                Button {
                    action: Action::Single,
                    label: String::from_str("Start new single summon"),
                    style: ButtonStyle::Primary,
                },
            );
        }
        if can_start && bulks_available > 0 {
            row.push(
                Button {
                    action: Action::Bulk,
                    label: String::from_str("Start new full summon"),
                    style: ButtonStyle::Primary,
                },
            );
        }
        if !is_idle {
            row.push(
                Button {
                    action: Action::Share,
                    label: String::from_str("Share current results"),
                    style: ButtonStyle::Secondary,
                },
            );
        }
        assert(row_view(row@) =~= self@.start_buttons());
        if row.len() > 0 {
            let ghost start = row_view(row@);
            buttons.push(row);
            assert(rows_view(buttons@) =~= slots + seq![start]);
        }
        assert(rows_view(buttons@) =~= self@.button_rows());

        let mut message = String::from_str("You are viewing **Order ");
        let order = order_number.to_string();
        message.append(order.as_str());
        message.append("**.\n");
        message.append("You have **");
        let bulks = decimal(bulks_available as u64);
        message.append(bulks.as_str());
        message.append(" full summons** and **");
        let singles = decimal(singles_available as u64);
        message.append(singles.as_str());
        message.append(" single summons** remaining.\n");
        if continued.is_some() && can_start {
            message.append(
                "You may continue making single summons from the current pool or choose to start a new one.\n",
            );
        }
        if continued.is_some() {
            message.append("You have started a full summon. Choose an option to continue.\n");
        }
        if can_start && is_idle {
            message.append("Choose an option to begin summoning.\n");
        } else if can_start {
            message.append("Choose an option below to continue summoning.\n");
        }
        match &extra {
            Some(text) => {
                message.append("\n");
                message.append(text.as_str());
                message.append("\n");
            },
            None => {},
        }
        assert(message@ =~= self@.message_text(order_number, text_view(extra)));
        Message { message, buttons, has_image: !is_idle }
    }
}

/// What revealing a slot came to: the SKU that was in the slot, for the
/// stock keeper, and the sentence that tells the customer.
#[derive(Debug, PartialEq, Eq)]
pub struct PullReport {
    pub sku: String,
    pub extra: String,
}

/// The sentence that names a revealed product.
pub open spec fn got_text(name: Seq<char>) -> Seq<char> {
    "You got **"@ + name + "**!"@
}

/// The sentence that tells of a refused reveal.
pub open spec fn failed_text(error: PullError) -> Seq<char> {
    "An error has occurred, please try again. ("@ + error_text(error) + ")"@
}

/// The sentence that goes with a shared summon.
pub open spec fn share_text(reference: Seq<char>) -> Seq<char> {
    reference + " has shared their pull!"@
}

impl PullsData {
    /// Reveals a slot of the active summon for a customer who pressed its
    /// button. Where the active summon has such a slot there is a report,
    /// whether the reveal was allowed or refused; where it has none, nothing
    /// happens.
    pub fn reveal_report(&mut self, slot: usize) -> (report: Option<PullReport>)
        requires
            old(self)@.wf(),
        ensures
            final(self)@.wf(),
            report is Some <==> old(self)@.active.banner() is Some && slot < 5,
            report is None ==> *final(self) == *old(self),
            report matches Some(r) ==> {
                let product = old(self)@.active.banner().unwrap().slots[slot as int];
                &&& r.sku@ == product.sku
                &&& match old(self)@.reveal_refusal(slot as int) {
                    None => r.extra@ == got_text(product.name) && final(self)@ == old(self)@.revealed_at(
                        slot as int,
                    ),
                    Some(e) => r.extra@ == failed_text(e) && *final(self) == *old(self),
                }
            },
    {
        let (sku, name) = match self.check_slot(slot) {
            Some(product) => (product.sku.clone(), product.name.clone()),
            None => {
                return None;
            },
        };
        let extra = match self.pull_slot(slot) {
            Ok(_) => {
                let mut extra = String::from_str("You got **");
                extra.append(name.as_str());
                extra.append("**!");
                extra
            },
            Err(e) => {
                let mut extra = String::from_str("An error has occurred, please try again. (");
                extra.append(e.message());
                extra.append(")");
                extra
            },
        };
        Some(PullReport { sku, extra })
    }

    /// What is posted when a customer shares the active summon: a sentence,
    /// and the picture of the summon if one is active.
    pub fn into_share_message(self, discord_reference: String) -> (shown: Message)
        ensures
            shown.message@ == share_text(discord_reference@),
            shown.buttons@.len() == 0,
            shown.has_image == !(self@.active is Idle),
    {
        let mut message = discord_reference;
        message.append(" has shared their pull!");
        let has_image = match &self.active {
            ActiveBanner::Idle => false,
            _ => true,
        };
        Message { message, buttons: Vec::new(), has_image }
    }
}

} // verus!
