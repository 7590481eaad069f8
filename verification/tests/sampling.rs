use gacha::catalog::{candidates, contains_sku, draw, draw_position, Pools, Products};
use gacha::distribution::{part_of, sum_weights, Share};
use gacha::error::PullError;
use gacha::inventory::{quantity, Item};
use gacha::pool::Pool;
use gacha::product::{Product, Ticket};
use gacha::pulls_data::{ActiveBanner, PullsData};
use gacha::sampler::resolve_pick;
use std::collections::HashSet;

fn product(sku: &str, pool: Pool, rarity: u64) -> Product {
    Product { name: format!("Hero {sku}"), sku: sku.to_string(), pool, rarity }
}

fn item(sku: &str, quantity: usize) -> Item {
    Item { sku: sku.to_string(), quantity }
}

fn catalog() -> Products {
    Products::new(
        vec![Ticket { sku: "TICKET".to_string(), bulks: 0, singles: 1 }],
        vec![
            product("R1", Pool::Red, 10),
            product("R2", Pool::Red, 5),
            product("B1", Pool::Blue, 3),
            product("B2", Pool::Blue, 1),
            product("G1", Pool::Green, 2),
            product("G2", Pool::Green, 0),
            product("W1", Pool::White, 7),
        ],
    )
}

fn full_stock() -> Vec<Item> {
    ["R1", "R2", "B1", "B2", "G1", "G2", "W1"].iter().map(|sku| item(sku, 3)).collect()
}

#[test]
fn stock_report_is_read_by_its_last_line() {
    let report = vec![item("A", 2), item("B", 0), item("A", 5), item("C", 1)];
    assert_eq!(quantity(&report, &"A".to_string()), 5);
    assert_eq!(quantity(&report, &"B".to_string()), 0);
    assert_eq!(quantity(&report, &"C".to_string()), 1);
    assert_eq!(quantity(&report, &"D".to_string()), 0);
    assert_eq!(quantity(&vec![], &"A".to_string()), 0);
}

#[test]
fn candidates_are_in_stock_and_not_left_out() {
    let catalog = catalog();
    let stock = vec![item("R1", 1), item("B1", 0), item("G2", 4), item("W1", 2), item("R2", 9)];
    let omit = vec!["R2".to_string()];
    let (positions, weights) = candidates(catalog.iter(), &stock, &omit);
    assert_eq!(positions, vec![0, 5, 6]);
    assert_eq!(weights, vec![10, 0, 7]);
    assert!(contains_sku(&omit, &"R2".to_string()));
    assert!(!contains_sku(&omit, &"R1".to_string()));
}

#[test]
fn pick_is_resolved_among_the_candidates() {
    let positions = vec![4usize, 7, 9];
    assert_eq!(resolve_pick(&positions, Some(0)), Ok(4));
    assert_eq!(resolve_pick(&positions, Some(2)), Ok(9));
    assert_eq!(resolve_pick(&positions, Some(3)), Err(PullError::NoEligibleProduct));
    assert_eq!(resolve_pick(&positions, None), Err(PullError::NoEligibleProduct));
    assert_eq!(resolve_pick(&vec![], Some(0)), Err(PullError::NoEligibleProduct));
}

#[test]
fn draw_gives_the_only_product_that_can_be_drawn() {
    let catalog = catalog();
    let stock = vec![item("B2", 1), item("G2", 5)];
    for _ in 0..50 {
        // Position 3 is the only one in stock with a positive weight.
        assert_eq!(draw_position(catalog.iter(), &stock, &vec![]), Ok(3));
        assert_eq!(catalog.pull(&stock), Ok(product("B2", Pool::Blue, 1)));
    }
    assert_eq!(
        draw_position(catalog.iter(), &stock, &vec!["B2".to_string()]),
        Err(PullError::NoEligibleProduct)
    );
}

#[test]
fn product_of_weight_zero_is_never_drawn() {
    let catalog = catalog();
    let stock = full_stock();
    for _ in 0..300 {
        let drawn = catalog.pull(&stock).unwrap();
        assert_ne!(drawn.sku, "G2");
        assert!(drawn.rarity > 0);
    }
}

#[test]
fn pool_out_of_stock_is_never_drawn() {
    let catalog = catalog();
    let stock = vec![
        item("R1", 0),
        item("R2", 0),
        item("B1", 2),
        item("B2", 2),
        item("G1", 2),
        item("G2", 2),
        item("W1", 2),
    ];
    for _ in 0..300 {
        let drawn = catalog.pull(&stock).unwrap();
        assert_ne!(drawn.pool, Pool::Red);
    }
    for _ in 0..40 {
        let banner = catalog.banner_with_replacement(&stock).unwrap();
        assert!(banner.slots.iter().all(|slot| slot.pool != Pool::Red));
    }
}

#[test]
fn empty_stock_gives_no_eligible_product() {
    let catalog = catalog();
    let nothing: Vec<Item> = ["R1", "R2", "B1", "B2", "G1", "G2", "W1"].iter().map(|sku| item(sku, 0)).collect();
    assert_eq!(catalog.pull(&nothing), Err(PullError::NoEligibleProduct));
    assert_eq!(catalog.pull(&vec![]), Err(PullError::NoEligibleProduct));
    assert_eq!(catalog.banner(&nothing), Err(PullError::NoEligibleProduct));
    assert_eq!(catalog.banner_with_replacement(&nothing), Err(PullError::NoEligibleProduct));
    assert_eq!(draw(catalog.iter(), &nothing), Err(PullError::NoEligibleProduct));
    let empty = Products::new(vec![], vec![]);
    assert_eq!(empty.pull(&full_stock()), Err(PullError::NoEligibleProduct));
}

#[test]
fn bulk_banner_has_five_different_skus() {
    let catalog = catalog();
    let stock = full_stock();
    for _ in 0..100 {
        let banner = catalog.banner(&stock).unwrap();
        let skus: HashSet<&str> = banner.slots.iter().map(|slot| slot.sku.as_str()).collect();
        assert_eq!(skus.len(), 5);
        assert!(!skus.contains("G2"));
        assert_eq!(banner.revealed, [false; 5]);
    }
}

#[test]
fn bulk_banner_of_exactly_five_skus_holds_them_all() {
    let catalog = catalog();
    let stock = vec![item("R1", 1), item("R2", 1), item("B1", 1), item("G1", 1), item("W1", 1), item("G2", 1)];
    for _ in 0..20 {
        let banner = catalog.banner(&stock).unwrap();
        let mut skus: Vec<&str> = banner.slots.iter().map(|slot| slot.sku.as_str()).collect();
        skus.sort();
        assert_eq!(skus, vec!["B1", "G1", "R1", "R2", "W1"]);
    }
}

#[test]
fn bulk_banner_needs_five_different_skus() {
    let catalog = catalog();
    let stock = vec![item("R1", 9), item("R2", 9), item("B1", 9), item("G1", 9), item("G2", 9)];
    assert_eq!(catalog.banner(&stock), Err(PullError::NoEligibleProduct));
    // With replacement the four of them are enough.
    assert!(catalog.banner_with_replacement(&stock).is_ok());
}

#[test]
fn same_sku_twice_in_the_catalog_is_one_sku() {
    let catalog = Products::new(
        vec![],
        vec![
            product("A", Pool::Red, 1),
            product("A", Pool::Blue, 1),
            product("B", Pool::Red, 1),
            product("C", Pool::Red, 1),
            product("D", Pool::Red, 1),
        ],
    );
    let stock = vec![item("A", 1), item("B", 1), item("C", 1), item("D", 1)];
    assert_eq!(catalog.banner(&stock), Err(PullError::NoEligibleProduct));
}

#[test]
fn single_banner_slots_are_all_in_stock() {
    let catalog = catalog();
    let stock = vec![item("R1", 1), item("W1", 1)];
    for _ in 0..50 {
        let banner = catalog.banner_with_replacement(&stock).unwrap();
        assert!(banner.slots.iter().all(|slot| slot.sku == "R1" || slot.sku == "W1"));
        assert_eq!(banner.pulled(), 0);
    }
}

#[test]
fn start_banner_single_draws_and_installs() {
    let catalog = catalog();
    let stock = full_stock();
    let mut pulls = PullsData::new(3, 2);
    assert_eq!(pulls.start_banner_single(&catalog, &stock), Ok(()));
    assert!(matches!(pulls.active, ActiveBanner::Single(_)));
    assert_eq!(pulls.active.as_banner().unwrap().revealed, [false; 5]);
    assert_eq!(pulls.remaining_singles(), 3);
    assert_eq!(pulls.start_banner_single(&catalog, &stock), Err(PullError::RerollRefused));
    let shown = pulls.check_slot(0).unwrap().clone();
    assert_eq!(pulls.pull_slot(0), Ok(shown));
    assert_eq!(pulls.start_banner_single(&catalog, &stock), Ok(()));
    assert_eq!(pulls.single_pulls.len(), 1);
    assert_eq!(pulls.remaining_singles(), 2);
}

#[test]
fn start_banner_bulk_draws_and_installs() {
    let catalog = catalog();
    let stock = full_stock();
    let mut pulls = PullsData::new(3, 2);
    assert_eq!(pulls.start_banner_bulk(&catalog, &stock), Ok(()));
    assert!(matches!(pulls.active, ActiveBanner::Bulk(_)));
    let slots = pulls.active.as_banner().unwrap().slots.clone();
    let skus: HashSet<&str> = slots.iter().map(|slot| slot.sku.as_str()).collect();
    assert_eq!(skus.len(), 5);
    assert_eq!(pulls.remaining_bulks(), 1);
    assert_eq!(pulls.start_banner_bulk(&catalog, &stock), Err(PullError::BannerInProgress));
    assert_eq!(pulls.start_banner_single(&catalog, &stock), Err(PullError::BannerInProgress));
}

#[test]
fn start_without_stock_changes_nothing() {
    let catalog = catalog();
    let mut pulls = PullsData::new(3, 2);
    let before = format!("{pulls:?}");
    assert_eq!(pulls.start_banner_single(&catalog, &vec![]), Err(PullError::NoEligibleProduct));
    assert_eq!(pulls.start_banner_bulk(&catalog, &vec![item("R1", 1)]), Err(PullError::NoEligibleProduct));
    assert_eq!(format!("{pulls:?}"), before);
    // A refusal by the quota comes before the draw.
    let mut none = PullsData::new(0, 0);
    assert_eq!(none.start_banner_single(&catalog, &vec![]), Err(PullError::NoQuotaRemaining));
    assert_eq!(none.start_banner_bulk(&catalog, &full_stock()), Err(PullError::NoQuotaRemaining));
}

#[test]
fn pools_draw_within_their_pool() {
    let pools = Pools {
        red: vec![product("R1", Pool::Red, 10), product("R2", Pool::Red, 5)],
        blue: vec![product("B1", Pool::Blue, 3)],
        green: vec![product("G2", Pool::Green, 0)],
        white: vec![],
    };
    let stock = vec![item("R2", 1), item("B1", 1), item("G2", 1)];
    for _ in 0..30 {
        assert_eq!(pools.pull(Pool::Red, &stock), Ok(&product("R2", Pool::Red, 5)));
        assert_eq!(pools.pull(Pool::Blue, &stock), Ok(&product("B1", Pool::Blue, 3)));
    }
    assert_eq!(pools.pull(Pool::Green, &stock), Err(PullError::NoEligibleProduct));
    assert_eq!(pools.pull(Pool::White, &stock), Err(PullError::NoEligibleProduct));
}

#[test]
fn shares_are_rounded_to_the_nearest_part() {
    assert_eq!(part_of(1, 4, 10000), 2500);
    assert_eq!(part_of(1, 3, 10000), 3333);
    assert_eq!(part_of(2, 3, 10000), 6667);
    // A half goes upwards.
    assert_eq!(part_of(1, 8, 100), 13);
    assert_eq!(part_of(7, 8, 100), 88);
    assert_eq!(part_of(0, 8, 100), 0);
    assert_eq!(part_of(8, 8, 100), 100);
    assert_eq!(part_of(5, 0, 100), 0);
    assert_eq!(part_of(u64::MAX, 1, u64::MAX), u64::MAX as u128 * u64::MAX as u128);
}

#[test]
fn distribution_lists_every_product_with_its_share() {
    let catalog = catalog();
    assert_eq!(sum_weights(catalog.iter()), 28);
    let shares = catalog.distribution();
    let listed: Vec<(&str, u64, u128)> =
        shares.iter().map(|share| (share.name.as_str(), share.rarity, share.share)).collect();
    assert_eq!(
        listed,
        vec![
            ("Hero R1", 10, 3571),
            ("Hero R2", 5, 1786),
            ("Hero B1", 3, 1071),
            ("Hero B2", 1, 357),
            ("Hero G1", 2, 714),
            ("Hero G2", 0, 0),
            ("Hero W1", 7, 2500),
        ]
    );
    assert!(Products::new(vec![], vec![]).distribution().is_empty());
    assert_eq!(sum_weights(&vec![product("A", Pool::Red, u64::MAX), product("B", Pool::Red, u64::MAX)]), 2 * (u64::MAX as u128));
}

#[test]
fn pools_have_a_distribution_each() {
    let pools = Pools {
        red: vec![product("R1", Pool::Red, 10), product("R2", Pool::Red, 5)],
        blue: vec![product("B1", Pool::Blue, 3)],
        green: vec![product("G2", Pool::Green, 0)],
        white: vec![],
    };
    let red: Vec<u128> = pools.distribution(Pool::Red).iter().map(|share| share.share).collect();
    assert_eq!(red, vec![67, 33]);
    assert_eq!(
        pools.distribution(Pool::Blue),
        vec![Share { name: "Hero B1".to_string(), rarity: 3, share: 100 }]
    );
    assert_eq!(
        pools.distribution(Pool::Green),
        vec![Share { name: "Hero G2".to_string(), rarity: 0, share: 0 }]
    );
    assert!(pools.distribution(Pool::White).is_empty());
}
