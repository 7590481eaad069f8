use gacha::banner::{overlay_origin, Banner};
use gacha::catalog::Products;
use gacha::error::CustomError;
use gacha::message::{Action, Button, ButtonStyle, PullReport};
use gacha::order_number::OrderNumber;
use gacha::pool::Pool;
use gacha::product::{Product, Ticket};
use gacha::pulls_data::PullsData;
use gacha::row::{load_range, save_range, Row};
use gacha::shop::{first_order, order_query, Connection, LineItem, Order};
use gacha::text::decimal;

fn product(tag: &str, pool: Pool) -> Product {
    Product { name: format!("Hero {tag}"), sku: format!("PIN-{tag}"), pool, rarity: 1 }
}

fn banner(prefix: &str) -> Banner {
    Banner::new([
        product(&format!("{prefix}1"), Pool::Red),
        product(&format!("{prefix}2"), Pool::Blue),
        product(&format!("{prefix}3"), Pool::Green),
        product(&format!("{prefix}4"), Pool::White),
        product(&format!("{prefix}5"), Pool::Red),
    ])
}

fn button(action: Action, label: &str, style: ButtonStyle) -> Button {
    Button { action, label: label.to_string(), style }
}

fn tickets() -> Products {
    Products::new(
        vec![
            Ticket { sku: "ONE".to_string(), bulks: 0, singles: 1 },
            Ticket { sku: "FIVE".to_string(), bulks: 1, singles: 0 },
            Ticket { sku: "MIX".to_string(), bulks: 2, singles: 3 },
            Ticket { sku: "ONE".to_string(), bulks: 0, singles: 2 },
        ],
        vec![],
    )
}

fn order(lines: &[(&str, usize)]) -> Order {
    Order {
        line_items: Connection {
            nodes: lines.iter().map(|(sku, quantity)| LineItem { sku: sku.to_string(), quantity: *quantity }).collect(),
        },
    }
}

#[test]
fn decimal_writes_every_digit() {
    assert_eq!(decimal(0), "0");
    assert_eq!(decimal(7), "7");
    assert_eq!(decimal(10), "10");
    assert_eq!(decimal(1234567890), "1234567890");
    assert_eq!(decimal(u64::MAX), "18446744073709551615");
}

#[test]
fn order_number_is_read_with_or_without_hash() {
    assert_eq!(OrderNumber::from_str("#1234"), Some(OrderNumber(1234)));
    assert_eq!(OrderNumber::from_str("1234"), Some(OrderNumber(1234)));
    assert_eq!(OrderNumber::from_str("#0"), Some(OrderNumber(0)));
    assert_eq!(OrderNumber::from_str("4294967295"), Some(OrderNumber(u32::MAX)));
    assert_eq!(OrderNumber::from_str("4294967296"), None);
    assert_eq!(OrderNumber::from_str("#"), None);
    assert_eq!(OrderNumber::from_str(""), None);
    assert_eq!(OrderNumber::from_str("##12"), None);
    assert_eq!(OrderNumber::from_str("12a"), None);
    assert_eq!(OrderNumber::from_str("-1"), None);
    assert_eq!(OrderNumber::from_str("+12"), Some(OrderNumber(12)));
    assert_eq!(OrderNumber::from_str("#+12"), Some(OrderNumber(12)));
    assert_eq!(OrderNumber::from_str("++12"), None);
    assert_eq!(OrderNumber::from_str("+"), None);
    assert_eq!(OrderNumber::from_str("007"), Some(OrderNumber(7)));
    assert_eq!(OrderNumber::from_str(" 7"), None);
    assert_eq!(OrderNumber::from_str("1_000"), None);
    assert_eq!(OrderNumber::from_str("\u{661}"), None);
    assert_eq!(OrderNumber::from_parsed(Some(9)), Some(OrderNumber(9)));
    assert_eq!(OrderNumber::from_parsed(None), None);
}

#[test]
fn order_number_is_shown_with_a_hash() {
    assert_eq!(OrderNumber(1234).to_string(), "#1234");
    assert_eq!(OrderNumber(0).to_string(), "#0");
    assert_eq!(OrderNumber(u32::MAX).to_string(), "#4294967295");
    assert_eq!(OrderNumber::from_str(&OrderNumber(77).to_string()), Some(OrderNumber(77)));
}

#[test]
fn quota_adds_up_the_tickets_of_an_order() {
    let catalog = tickets();
    // The later ticket of a SKU is the one that counts.
    assert_eq!(catalog.find_ticket(&"ONE".to_string()).unwrap().singles, 2);
    assert!(catalog.find_ticket(&"PIN".to_string()).is_none());
    assert_eq!(catalog.quota(&order(&[])), Some((0, 0)));
    assert_eq!(catalog.quota(&order(&[("PIN", 4)])), Some((0, 0)));
    assert_eq!(catalog.quota(&order(&[("ONE", 3), ("PIN", 1), ("FIVE", 2), ("MIX", 2)])), Some((12, 6)));
    assert_eq!(catalog.quota(&order(&[("MIX", 0)])), Some((0, 0)));
}

#[test]
fn quota_that_does_not_fit_is_no_quota() {
    let catalog = tickets();
    assert_eq!(catalog.quota(&order(&[("MIX", usize::MAX)])), None);
    assert_eq!(catalog.quota(&order(&[("FIVE", usize::MAX), ("FIVE", 1)])), None);
    assert_eq!(catalog.quota(&order(&[("FIVE", usize::MAX)])), Some((0, usize::MAX)));
}

#[test]
fn message_of_a_new_order() {
    let pulls = PullsData::new(3, 2);
    let shown = pulls.to_message(OrderNumber(1001), None);
    assert_eq!(
        shown.message,
        "You are viewing **Order #1001**.\n\
         You have **2 full summons** and **3 single summons** remaining.\n\
         Choose an option to begin summoning.\n"
    );
    assert_eq!(
        shown.buttons,
        vec![vec![
            button(Action::Single, "Start new single summon", ButtonStyle::Primary),
            button(Action::Bulk, "Start new full summon", ButtonStyle::Primary),
        ]]
    );
    assert!(!shown.has_image);
}

#[test]
fn message_of_a_bulk_summon_in_progress() {
    let mut pulls = PullsData::new(3, 2);
    assert_eq!(pulls.start_bulk_with(banner("B").slots), Ok(()));
    assert!(pulls.pull_slot(1).is_ok());
    assert!(pulls.pull_slot(3).is_ok());
    let shown = pulls.to_message(OrderNumber(7), Some("You got **Hero B4**!".to_string()));
    assert_eq!(
        shown.message,
        "You are viewing **Order #7**.\n\
         You have **1 full summons** and **3 single summons** remaining.\n\
         You have started a full summon. Choose an option to continue.\n\
         \nYou got **Hero B4**!\n"
    );
    assert_eq!(
        shown.buttons,
        vec![
            vec![
                button(Action::Pull(0), "Summon Red #1", ButtonStyle::Danger),
                button(Action::Pull(2), "Summon Green #3", ButtonStyle::Success),
                button(Action::Pull(4), "Summon Red #5", ButtonStyle::Danger),
            ],
            vec![button(Action::Share, "Share current results", ButtonStyle::Secondary)],
        ]
    );
    assert!(shown.has_image);
}

#[test]
fn message_of_a_single_summon_that_can_go_either_way() {
    let mut pulls = PullsData::new(3, 0);
    assert_eq!(pulls.start_single_with(banner("S").slots), Ok(()));
    assert!(pulls.pull_slot(0).is_ok());
    let shown = pulls.to_message(OrderNumber(42), None);
    assert_eq!(
        shown.message,
        "You are viewing **Order #42**.\n\
         You have **0 full summons** and **2 single summons** remaining.\n\
         You may continue making single summons from the current pool or choose to start a new one.\n\
         You have started a full summon. Choose an option to continue.\n\
         Choose an option below to continue summoning.\n"
    );
    assert_eq!(
        shown.buttons,
        vec![
            vec![
                button(Action::Pull(1), "Summon Blue #2", ButtonStyle::Primary),
                button(Action::Pull(2), "Summon Green #3", ButtonStyle::Success),
                button(Action::Pull(3), "Summon White #4", ButtonStyle::Secondary),
                button(Action::Pull(4), "Summon Red #5", ButtonStyle::Danger),
            ],
            vec![
                button(Action::Single, "Start new single summon", ButtonStyle::Primary),
                button(Action::Share, "Share current results", ButtonStyle::Secondary),
            ],
        ]
    );
}

#[test]
fn message_of_a_fresh_single_summon_offers_no_start() {
    let mut pulls = PullsData::new(1, 1);
    assert_eq!(pulls.start_single_with(banner("S").slots), Ok(()));
    let shown = pulls.to_message(OrderNumber(42), None);
    assert_eq!(
        shown.message,
        "You are viewing **Order #42**.\n\
         You have **1 full summons** and **1 single summons** remaining.\n\
         You have started a full summon. Choose an option to continue.\n"
    );
    assert_eq!(shown.buttons.len(), 2);
    assert_eq!(shown.buttons[0].len(), 5);
    assert_eq!(shown.buttons[1], vec![button(Action::Share, "Share current results", ButtonStyle::Secondary)]);
}

#[test]
fn message_of_a_spent_order() {
    let mut pulls = PullsData::new(1, 0);
    assert_eq!(pulls.start_single_with(banner("S").slots), Ok(()));
    assert!(pulls.pull_slot(2).is_ok());
    let shown = pulls.to_message(OrderNumber(5), None);
    assert_eq!(
        shown.message,
        "You are viewing **Order #5**.\n\
         You have **0 full summons** and **0 single summons** remaining.\n\
         Choose an option below to continue summoning.\n"
    );
    assert_eq!(shown.buttons, vec![vec![button(Action::Share, "Share current results", ButtonStyle::Secondary)]]);
    assert!(shown.has_image);
}

#[test]
fn row_becomes_cells_and_back() {
    let mut pulls = PullsData::new(2, 0);
    assert_eq!(pulls.start_single_with(banner("S").slots), Ok(()));
    assert!(pulls.pull_slot(3).is_ok());
    assert!(pulls.pull_slot(1).is_ok());
    let row = Row::new(OrderNumber(1001), "42".to_string(), "kitty".to_string(), pulls);
    assert_eq!(row.existing, None);
    let cells = row.into_cells("{stored}".to_string());
    assert_eq!(cells, vec!["#1001", "42", "kitty", "{stored}", "Hero S2", "Hero S4"]);

    let head = Row::head(&cells).unwrap();
    assert_eq!(head.order_number, OrderNumber(1001));
    assert_eq!(head.discord_user_id, "42");
    assert_eq!(head.discord_username, "kitty");
    assert_eq!(head.pulls, "{stored}");
    let back = Row::from_head(head, PullsData::new(2, 0), 17);
    assert_eq!(back.existing, Some(17));
    assert_eq!(back.order_number, OrderNumber(1001));
    assert_eq!(back.pulls, PullsData::new(2, 0));
}

#[test]
fn row_that_is_no_order_has_no_head() {
    let cell = |text: &str| text.to_string();
    assert!(Row::head(&vec![]).is_none());
    assert!(Row::head(&vec![cell("#1"), cell("2"), cell("3")]).is_none());
    assert!(Row::head(&vec![cell("Order"), cell("User"), cell("Name"), cell("Pulls")]).is_none());
    assert!(Row::head(&vec![cell("1"), cell(""), cell(""), cell("")]).is_some());
}

#[test]
fn ranges_are_in_a1_notation() {
    assert_eq!(save_range(None, 4), "A1:D1");
    assert_eq!(save_range(Some(0), 1), "A1:A1");
    assert_eq!(save_range(Some(4), 6), "A5:F5");
    assert_eq!(save_range(Some(99), 28), "A100:AB100");
    assert_eq!(load_range(0), "A1:D1");
    assert_eq!(load_range(1000), "A1:D1001");
}

#[test]
fn reveal_report_names_the_product() {
    let mut pulls = PullsData::new(1, 0);
    assert_eq!(pulls.reveal_report(0), None);
    assert_eq!(pulls.start_single_with(banner("S").slots), Ok(()));
    assert_eq!(pulls.reveal_report(5), None);
    assert_eq!(
        pulls.reveal_report(1),
        Some(PullReport { sku: "PIN-S2".to_string(), extra: "You got **Hero S2**!".to_string() })
    );
    assert_eq!(pulls.active.as_banner().unwrap().revealed, [false, true, false, false, false]);
    let before = format!("{pulls:?}");
    assert_eq!(
        pulls.reveal_report(1),
        Some(PullReport {
            sku: "PIN-S2".to_string(),
            extra: "An error has occurred, please try again. (This hero has already been summoned.)".to_string(),
        })
    );
    assert_eq!(
        pulls.reveal_report(2),
        Some(PullReport {
            sku: "PIN-S3".to_string(),
            extra: "An error has occurred, please try again. (There are no more summons of this kind available for this order.)"
                .to_string(),
        })
    );
    assert_eq!(format!("{pulls:?}"), before);
}

#[test]
fn share_message_goes_with_the_active_summon() {
    let idle = PullsData::new(1, 1).into_share_message("<@42>".to_string());
    assert_eq!(idle.message, "<@42> has shared their pull!");
    assert!(idle.buttons.is_empty());
    assert!(!idle.has_image);
    let mut pulls = PullsData::new(1, 1);
    assert_eq!(pulls.start_bulk_with(banner("B").slots), Ok(()));
    let shared = pulls.into_share_message("<@7>".to_string());
    assert_eq!(shared.message, "<@7> has shared their pull!");
    assert!(shared.has_image);
}

#[test]
fn row_knows_its_customer() {
    let row = Row::new(OrderNumber(1), "42".to_string(), "kitty".to_string(), PullsData::new(0, 0));
    assert!(row.is_owned_by(&"42".to_string()));
    assert!(!row.is_owned_by(&"43".to_string()));
    assert!(!row.is_owned_by(&"kitty".to_string()));
    assert_eq!(row.mention(), "<@42>");
}

#[test]
fn shop_is_asked_by_order_number() {
    assert_eq!(
        order_query(OrderNumber(1234)),
        "query GetOrder { orders(first: 1, query: \"name:'#1234'\") { nodes { lineItems(first: 30) { nodes { sku quantity } } } } }"
    );
}

#[test]
fn first_order_of_the_page_is_the_order() {
    let page = Connection { nodes: vec![order(&[("ONE", 1)]), order(&[("FIVE", 2)])] };
    assert_eq!(first_order(page, OrderNumber(9)), Ok(order(&[("ONE", 1)])));
    let empty: Connection<Order> = Connection { nodes: vec![] };
    assert_eq!(
        first_order(empty, OrderNumber(9)),
        Err(CustomError(
            "Order #9 was not found. You will find your order number in the email you receive from our shop."
                .to_string()
        ))
    );
}

#[test]
fn overlays_are_centred_on_their_slot() {
    assert_eq!(overlay_origin(0, 100, 60), (450, 180));
    assert_eq!(overlay_origin(1, 101, 61), (730, 370));
    assert_eq!(overlay_origin(2, 0, 0), (710, 775));
    assert_eq!(overlay_origin(3, 600, 2000), (-5, -225));
    assert_eq!(overlay_origin(4, 10, 10), (200, 395));
}
