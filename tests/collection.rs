use mtgoupdater::browser::{decimal_string, BrowserItems};
use mtgoupdater::card::Rarity;
use mtgoupdater::column::{Column, Ordering, SortStates, SortedBy};
use mtgoupdater::stats::{CategoryStat, CollectionStats, MultiValueStat, UniqueTotal};
use mtgoupdater::table::{Category, CollectionColumn, CtMessage};

#[test]
fn sorted_by_queries() {
    assert!(!SortedBy::Unsorted.is_sorted());
    assert!(!SortedBy::Unsorted.is_descending());
    assert!(SortedBy::Name(Ordering::Descending).is_descending());
    assert!(!SortedBy::Rarity(Ordering::Ascending).is_descending());
    assert!(SortedBy::CardSet(Ordering::Ascending).is_sorted());
}

#[test]
fn sort_states_start_unsorted_and_set_one_column() {
    let mut states = SortStates::new();
    assert_eq!(states.name_ord(), SortedBy::Unsorted);
    states.set_quantity_ord(SortedBy::Quantity(Ordering::Descending));
    states.set_set_ord(SortedBy::CardSet(Ordering::Ascending));
    assert_eq!(states.quantity_ord(), SortedBy::Quantity(Ordering::Descending));
    assert_eq!(states.set_ord(), SortedBy::CardSet(Ordering::Ascending));
    assert_eq!(states.foil_ord(), SortedBy::Unsorted);
    states.set_name_ord(SortedBy::Name(Ordering::Ascending));
    states.set_foil_ord(SortedBy::Foil(Ordering::Ascending));
    states.set_goatbots_ord(SortedBy::Goatbots(Ordering::Ascending));
    states.set_cardhoarder_ord(SortedBy::Scryfall(Ordering::Descending));
    states.set_rarity_ord(SortedBy::Rarity(Ordering::Descending));
    assert_eq!(states.name_ord(), SortedBy::Name(Ordering::Ascending));
    assert_eq!(states.goatbots_ord(), SortedBy::Goatbots(Ordering::Ascending));
    assert_eq!(states.cardhoarder_ord(), SortedBy::Scryfall(Ordering::Descending));
    assert_eq!(states.rarity_ord(), SortedBy::Rarity(Ordering::Descending));
    assert_eq!(SortStates::default(), SortStates::new());
    let _ = Column::Quantity;
}

#[test]
fn unique_total_holds_both_counts() {
    let ut = UniqueTotal::new(3, 10);
    assert_eq!((ut.unique(), ut.total()), (3, 10));
    let zero = UniqueTotal::default();
    assert_eq!((zero.unique(), zero.total()), (0, 0));
}

#[test]
fn multi_value_stat_add_and_take() {
    let mut stat = MultiValueStat::new("Total value".to_string(), vec!["a".to_string()]);
    stat.add_value("b".to_string());
    assert_eq!(stat.title(), "Total value");
    assert_eq!(stat.take_values(), vec!["a".to_string(), "b".to_string()]);
    assert!(stat.take_values().is_empty());
    stat.add_value("c".to_string());
    assert_eq!(stat.take_values(), vec!["c".to_string()]);
}

#[test]
fn collection_stats_setters_and_getters() {
    let mut stats = CollectionStats::new();
    assert_eq!(stats.file_from(), "");
    stats.set_file_from("Full Trade List.dek");
    stats.set_total_cards(391, 3000);
    stats.set_most_expensive_item("Swamp (1 tix @Goatbots)");
    stats.set_cards_under_a_tenth_tix(5, 6);
    stats.set_cards_over_5_tix(7, 8);
    assert_eq!(stats.file_from(), "Full Trade List.dek");
    assert_eq!(stats.total_cards(), UniqueTotal::new(391, 3000));
    assert_eq!(stats.most_expensive_item(), "Swamp (1 tix @Goatbots)");
    assert_eq!(stats.cards_under_a_tenth_tix(), UniqueTotal::new(5, 6));
    assert_eq!(stats.cards_over_5_tix(), UniqueTotal::new(7, 8));
    assert!(stats.take_total_value().is_none());
    stats.set_total_value(MultiValueStat::new("Total value".to_string(), vec![]));
    assert_eq!(stats.take_total_value().unwrap().title(), "Total value");
    assert!(stats.take_total_value().is_none());
    stats.set_rarity_distribution(MultiValueStat::new("Rarity distribution".to_string(), vec![]));
    assert!(stats.take_rarity_distribution().is_some());
    assert!(stats.take_rarity_distribution().is_none());
}

#[test]
fn decimal_forms() {
    assert_eq!(decimal_string(0), "0");
    assert_eq!(decimal_string(7), "7");
    assert_eq!(decimal_string(3000), "3000");
    assert_eq!(decimal_string(usize::MAX), usize::MAX.to_string());
}

#[test]
fn browser_items_alternate_formats() {
    let mut items = BrowserItems::new();
    items.add_item("dek-File added", "trade.dek");
    items.add_item_unique_total("Total items", UniqueTotal::new(391, 3000));
    items.add_multi_value_item(MultiValueStat::new(
        "Total value".to_string(),
        vec!["v1".to_string(), "v2".to_string()],
    ));
    assert_eq!(
        items.drain(),
        vec![
            "@S15@b@.dek-File added\t@S13@F13@.trade.dek".to_string(),
            "@S15@b@B49@.Total items\t@S13@F13@B49@.391 (3000)".to_string(),
            "@S15@b@.Total value\t@S13@F13v1".to_string(),
            "@S15@b@. \t@S13@F13v2".to_string(),
        ]
    );
    assert!(items.drain().is_empty());
}

#[test]
fn browser_items_category_and_append() {
    let mut items = BrowserItems::new();
    items.add_category_item(CategoryStat::new(
        "Prices updated".to_string(),
        vec![("Goatbots".to_string(), "2023-10-21T22:29:53Z".to_string())],
    ));
    let mut other = BrowserItems::new();
    other.add_multi_value_item(MultiValueStat::new("Empty".to_string(), vec![]));
    items.append(&mut other);
    assert!(other.drain().is_empty());
    assert_eq!(
        items.drain(),
        vec![
            "@_@S15@b@.Prices updated\t@S13@F13".to_string(),
            "@S13@r@.Goatbots   \t@S13@F13@.2023-10-21T22:29:53Z".to_string(),
            "@S15@b@.Empty\t@S13@F13".to_string(),
        ]
    );
}

#[test]
fn rarity_from_codes_and_names() {
    assert_eq!(Rarity::from("C"), Rarity::Common);
    assert_eq!(Rarity::from("Uncommon"), Rarity::Uncommon);
    assert_eq!(Rarity::from("R"), Rarity::Rare);
    assert_eq!(Rarity::from("Mythic"), Rarity::Mythic);
    assert_eq!(Rarity::from("B"), Rarity::Booster);
    assert_eq!(Rarity::from("Event Ticket"), Rarity::Other);
    assert_eq!(Rarity::from("c"), Rarity::Other);
    assert_eq!(Rarity::Rare.to_string(), "Rare");
    assert_eq!(Rarity::Other.to_string(), "None");
    assert_eq!(Rarity::default(), Rarity::Common);
}

#[test]
fn table_column_and_message() {
    let col = CollectionColumn::new(2, "Foil", 60);
    assert_eq!((col.idx, col.name, col.width), (2, "Foil", 60));
    assert_eq!(CtMessage::SortBy(Category::Rarity), CtMessage::SortBy(Category::Rarity));
}
