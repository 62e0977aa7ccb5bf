use password_manager_backend::category_favorite::category::Category;
use password_manager_backend::category_favorite::category_collection::CategoryCollection;
use password_manager_backend::category_favorite::favorite_collection::FavoriteCollection;
use password_manager_backend::clock::Timestamp;
use password_manager_backend::entry::entry::Entry;
use password_manager_backend::entry::sensitive_data::EncryptedSensitiveData;
use password_manager_backend::error::category_error::CategoryError;

fn entry(id: u128, category: Option<(u128, &str)>) -> Entry {
    Entry::from_parts(
        id,
        format!("entry {}", id),
        None,
        None,
        category.map(|c| c.0),
        category.map(|c| c.1.to_string()),
        false,
        Timestamp { seconds: 1, nanos: 2 },
        Timestamp { seconds: 3, nanos: 4 },
        EncryptedSensitiveData::from_parts(None, None),
    )
}

fn names(collection: &CategoryCollection) -> Vec<String> {
    collection.get_all_categories().iter().map(|c| c.name().to_string()).collect()
}

#[test]
fn a_category_keeps_its_parts() {
    let category = Category::new(7, "Work".to_string());
    assert_eq!(category.id(), 7);
    assert_eq!(category.name(), "Work");
    let copy = category.clone();
    assert_eq!(copy.id(), 7);
    assert_eq!(copy.name(), "Work");
}

#[test]
fn favourites_are_a_set_with_a_count_of_its_own() {
    let mut favorites = FavoriteCollection::new();
    assert_eq!(favorites.favorite_count(), 0);
    assert!(favorites.add_favorite(1));
    assert!(favorites.add_favorite(2));
    assert!(!favorites.add_favorite(1));
    assert_eq!(favorites.get_all_favorites(), &vec![1, 2]);
    // The count goes up with every marking.
    assert_eq!(favorites.favorite_count(), 3);
    assert!(favorites.is_favorite(&1));
    assert!(!favorites.is_favorite(&3));

    assert!(favorites.remove_favorite(&1));
    assert!(!favorites.remove_favorite(&1));
    assert_eq!(favorites.favorite_count(), 2);
    assert_eq!(favorites.get_all_favorites(), &vec![2]);

    // Toggling leaves the count alone.
    assert!(favorites.toggle_favorite(5));
    assert!(!favorites.toggle_favorite(2));
    assert_eq!(favorites.get_all_favorites(), &vec![5]);
    assert_eq!(favorites.favorite_count(), 2);
}

#[test]
fn the_count_of_favourites_stops_at_its_ends() {
    let mut favorites = FavoriteCollection::from_parts(vec![1], 0);
    assert!(favorites.remove_favorite(&1));
    assert_eq!(favorites.favorite_count(), 0);
    let mut favorites = FavoriteCollection::from_parts(Vec::new(), usize::MAX);
    favorites.add_favorite(1);
    assert_eq!(favorites.favorite_count(), usize::MAX);
}

#[test]
fn categories_are_created_with_trimmed_unique_names() {
    let mut categories = CategoryCollection::new();
    let work = categories.create_category("  Work ".to_string()).expect("created");
    let bank = categories.create_category_with_id("Bank".to_string(), 42).expect("created");
    assert_eq!(bank, 42);
    assert_ne!(work, bank);
    assert_eq!(names(&categories), vec!["Work", "Bank"]);
    assert_eq!(categories.len(), 2);
    assert_eq!(categories.get_category(&work).map(|c| c.name()), Some("Work"));
    assert!(categories.get_category(&1).is_none());
    assert!(categories.has_category(&42));

    assert!(matches!(
        categories.create_category("   ".to_string()),
        Err(CategoryError::InvalidName(ref n)) if n.is_empty()
    ));
    assert!(matches!(
        categories.create_category(" wORK".to_string()),
        Err(CategoryError::DuplicateName(ref n)) if n == "wORK"
    ));
    assert_eq!(categories.len(), 2);
}

#[test]
fn a_category_is_found_by_name_without_regard_to_case() {
    let mut categories = CategoryCollection::new();
    categories.create_category_with_id("Work".to_string(), 1).unwrap();
    categories.create_category_with_id("Bank".to_string(), 2).unwrap();
    assert_eq!(categories.get_category_id_by_name("work"), Some(1));
    assert_eq!(categories.get_category_id_by_name("BANK"), Some(2));
    assert_eq!(categories.get_category_id_by_name("Shop"), None);
    // The name is compared as it is given, not trimmed.
    assert_eq!(categories.get_category_id_by_name(" Work"), None);
}

#[test]
fn entries_are_filed_and_taken_out() {
    let mut categories = CategoryCollection::new();
    categories.create_category_with_id("Work".to_string(), 1).unwrap();
    assert!(categories.add_entry_to_category(&1, 10).is_ok());
    assert!(categories.add_entry_to_category(&1, 11).is_ok());
    assert!(categories.add_entry_to_category(&1, 10).is_ok());
    assert_eq!(categories.get_entries_in_category("work".to_string()).unwrap(), &vec![10, 11]);
    assert!(categories.remove_entry_from_category(&1, &10).is_ok());
    assert!(categories.remove_entry_from_category(&1, &99).is_ok());
    assert_eq!(categories.get_entries_in_category("Work".to_string()).unwrap(), &vec![11]);

    assert!(matches!(
        categories.add_entry_to_category(&5, 10),
        Err(CategoryError::NotFound(5))
    ));
    assert!(matches!(
        categories.remove_entry_from_category(&5, &10),
        Err(CategoryError::NotFound(5))
    ));
    assert!(matches!(
        categories.get_entries_in_category("Shop".to_string()),
        Err(CategoryError::NotFoundByName(ref n)) if n == "Shop"
    ));
}

#[test]
fn renaming_reaches_the_entries_of_the_category() {
    let mut categories = CategoryCollection::new();
    categories.create_category_with_id("Work".to_string(), 1).unwrap();
    categories.create_category_with_id("Bank".to_string(), 2).unwrap();
    categories.add_entry_to_category(&1, 10).unwrap();
    categories.add_entry_to_category(&2, 11).unwrap();
    let mut entries =
        vec![entry(10, Some((1, "Work"))), entry(11, Some((2, "Bank"))), entry(12, None)];

    categories.rename_category(1, " Office ".to_string(), &mut entries).expect("renamed");
    assert_eq!(names(&categories), vec!["Office", "Bank"]);
    assert_eq!(entries[0].category_name(), Some("Office"));
    assert_eq!(entries[0].category_id(), Some(&1));
    assert_eq!(entries[1].category_name(), Some("Bank"));
    assert_eq!(entries[2].category_name(), None);

    // A category may take its own name in another case.
    categories.rename_category(1, "OFFICE".to_string(), &mut entries).expect("renamed");
    assert_eq!(entries[0].category_name(), Some("OFFICE"));

    assert!(matches!(
        categories.rename_category(1, "bank".to_string(), &mut entries),
        Err(CategoryError::DuplicateName(ref n)) if n == "bank"
    ));
    assert!(matches!(
        categories.rename_category(1, "  ".to_string(), &mut entries),
        Err(CategoryError::InvalidName(_))
    ));
    assert!(matches!(
        categories.rename_category(9, "Shop".to_string(), &mut entries),
        Err(CategoryError::NotFound(9))
    ));
    assert_eq!(names(&categories), vec!["OFFICE", "Bank"]);
    assert_eq!(entries[0].category_name(), Some("OFFICE"));
}

#[test]
fn deleting_takes_the_entries_out_of_the_category() {
    let mut categories = CategoryCollection::new();
    categories.create_category_with_id("Work".to_string(), 1).unwrap();
    categories.create_category_with_id("Bank".to_string(), 2).unwrap();
    categories.add_entry_to_category(&1, 10).unwrap();
    categories.add_entry_to_category(&2, 11).unwrap();
    let mut entries = vec![entry(10, Some((1, "Work"))), entry(11, Some((2, "Bank")))];

    categories.delete_category(&1, &mut entries).expect("deleted");
    assert_eq!(names(&categories), vec!["Bank"]);
    assert_eq!(entries[0].category_id(), None);
    assert_eq!(entries[0].category_name(), None);
    assert_eq!(entries[1].category_id(), Some(&2));

    assert!(matches!(
        categories.delete_category(&1, &mut entries),
        Err(CategoryError::NotFound(1))
    ));
    assert_eq!(entries[1].category_name(), Some("Bank"));
}

#[test]
fn categories_by_identifier_and_by_search() {
    let mut categories = CategoryCollection::new();
    categories.create_category_with_id("Work".to_string(), 1).unwrap();
    categories.create_category_with_id("Bank".to_string(), 2).unwrap();
    categories.create_category_with_id("Network".to_string(), 3).unwrap();

    let found: Vec<u128> =
        categories.get_categories_by_ids(&[3, 9, 1]).iter().map(|c| c.id()).collect();
    assert_eq!(found, vec![3, 1]);

    let found: Vec<&str> = categories.search_categories("WOR").iter().map(|c| c.name()).collect();
    assert_eq!(found, vec!["Work", "Network"]);
    let found: Vec<&str> = categories.search_categories("  ").iter().map(|c| c.name()).collect();
    assert_eq!(found, vec!["Work", "Bank", "Network"]);
    assert!(categories.search_categories("shop").is_empty());
    // Only an empty query is trimmed.
    assert!(categories.search_categories(" wor").is_empty());
}

#[test]
fn stored_categories_come_back() {
    let mut categories = CategoryCollection::new();
    categories.restore_category(5, "Work".to_string(), vec![1, 2]);
    let (category, entries) = categories.shelf(0).expect("a shelf");
    assert_eq!(category.id(), 5);
    assert_eq!(category.name(), "Work");
    assert_eq!(entries, &vec![1, 2]);
    assert!(categories.shelf(1).is_none());
}
