use password_manager_backend::clock::Timestamp;
use password_manager_backend::crypto::{KeyDerivation, KeyHierarchy, SecureMemory};
use password_manager_backend::entry::collection::EntryCollection;
use password_manager_backend::entry::entry::Entry;
use password_manager_backend::entry::overview::EntryData;
use password_manager_backend::entry::search::SearchQuery;
use password_manager_backend::entry::search::SearchIndex;
use password_manager_backend::error::category_error::CategoryError;
use password_manager_backend::error::crypto_error::CryptoError;
use password_manager_backend::error::entry_error::EntryError;

fn keys(mek: u8) -> KeyHierarchy {
    KeyHierarchy {
        master_key: SecureMemory::new(vec![1u8; 32]),
        mek: SecureMemory::new(vec![mek; 32]),
        key_derivation: KeyDerivation::unchecked(64, 1, 1),
    }
}

fn input(title: &str, category: Option<&str>, favorite: bool) -> EntryData {
    EntryData {
        title: title.to_string(),
        username: Some(format!("{}@example.com", title.to_lowercase())),
        password: Some(format!("secret of {}", title)),
        url: Some(format!("https://{}.example.com", title.to_lowercase())),
        notes: None,
        category_name: category.map(str::to_string),
        favorite,
    }
}

const STAMP: Timestamp = Timestamp { seconds: 1_700_000_000, nanos: 5 };

fn add(collection: &mut EntryCollection, id: u128, data: EntryData) -> u128 {
    collection
        .create_entry_with(data, &keys(3), id, 1000 + id, STAMP, [1u8; 12], [2u8; 12])
        .expect("created")
}

fn query(text: Option<&str>, category: Option<&str>, favorites_only: bool) -> SearchQuery {
    SearchQuery::new(text.map(str::to_string), category.map(str::to_string), favorites_only)
}

fn found(collection: &EntryCollection, q: SearchQuery) -> Vec<u128> {
    collection.search(q).entries.iter().map(|e| e.id).collect()
}

#[test]
fn an_entry_is_made_of_its_input() {
    let entry = Entry::new_internal_with(
        input("Mail", Some("Work"), true),
        Some(9),
        &keys(3),
        7,
        STAMP,
        [1u8; 12],
        [2u8; 12],
    )
    .expect("made");
    assert_eq!(entry.id(), &7);
    assert_eq!(entry.title(), "Mail");
    assert_eq!(entry.username(), Some("mail@example.com"));
    assert_eq!(entry.url(), Some("https://mail.example.com"));
    assert_eq!(entry.category_id(), Some(&9));
    assert_eq!(entry.category_name(), Some("Work"));
    assert!(entry.favorite());
    assert_eq!(entry.created_at(), STAMP);
    assert_eq!(entry.updated_at(), STAMP);
    assert_eq!(entry.sensitive_data().password().unwrap().nonce(), &[1u8; 12]);
    assert!(entry.sensitive_data().notes().is_none());

    let clear = entry.decrypt(&keys(3)).expect("opened");
    assert_eq!(clear.id, 7);
    assert_eq!(clear.title, "Mail");
    assert_eq!(clear.password.as_deref(), Some("secret of Mail"));
    assert_eq!(clear.notes, None);
    assert_eq!(clear.created_at, STAMP);

    let overview = entry.to_overview();
    assert_eq!(overview.id, 7);
    assert_eq!(overview.title, "Mail");
    assert_eq!(overview.category_name.as_deref(), Some("Work"));
    assert!(overview.favorite);

    assert!(matches!(
        entry.decrypt(&keys(4)),
        Err(EntryError::DecryptionError(CryptoError::DecryptionFailed))
    ));
}

#[test]
fn a_fresh_entry_has_a_fresh_identifier_and_one_stamp() {
    let first = Entry::new_internal(input("Mail", None, false), None, &keys(3)).unwrap();
    let second = Entry::new_internal(input("Mail", None, false), None, &keys(3)).unwrap();
    assert_ne!(first.id(), second.id());
    assert_eq!(first.created_at(), first.updated_at());
    assert!(first.created_at().seconds > 1_600_000_000);
    assert!(first.created_at().nanos < 1_000_000_000);
}

#[test]
fn input_that_breaks_the_rules_makes_no_entry() {
    assert!(matches!(
        Entry::new_internal(input("", None, false), None, &keys(3)),
        Err(EntryError::InvalidTitle)
    ));
    let mut long = input("Mail", None, false);
    long.password = Some("p".repeat(129));
    assert!(matches!(
        Entry::new_internal(long, None, &keys(3)),
        Err(EntryError::InvalidLength(ref f)) if f == "Password"
    ));
}

#[test]
fn updating_keeps_identifier_and_creation() {
    let mut entry = Entry::new_internal_with(
        input("Mail", None, false),
        None,
        &keys(3),
        7,
        STAMP,
        [1u8; 12],
        [2u8; 12],
    )
    .unwrap();
    let later = Timestamp { seconds: STAMP.seconds + 60, nanos: 0 };
    let mut changes = input("Post", Some("Work"), true);
    changes.notes = Some("a note".to_string());
    entry
        .update_internal_with(changes, Some(4), &keys(3), later, [5u8; 12], [6u8; 12])
        .expect("updated");
    assert_eq!(entry.id(), &7);
    assert_eq!(entry.title(), "Post");
    assert_eq!(entry.category_id(), Some(&4));
    assert_eq!(entry.created_at(), STAMP);
    assert_eq!(entry.updated_at(), later);
    let clear = entry.decrypt(&keys(3)).unwrap();
    assert_eq!(clear.password.as_deref(), Some("secret of Post"));
    assert_eq!(clear.notes.as_deref(), Some("a note"));

    assert!(matches!(
        entry.update_internal(input("", None, false), None, &keys(3)),
        Err(EntryError::InvalidTitle)
    ));
    assert_eq!(entry.title(), "Post");
    assert_eq!(entry.updated_at(), later);
}

#[test]
fn wiping_an_entry_leaves_no_text() {
    let mut entry = Entry::new_internal(input("Mail", Some("Work"), true), Some(4), &keys(3))
        .unwrap();
    let id = *entry.id();
    entry.zeroize();
    assert_eq!(entry.title(), "");
    assert_eq!(entry.username(), Some(""));
    assert_eq!(entry.url(), Some(""));
    assert!(entry.sensitive_data().password().is_none());
    assert_eq!(entry.id(), &id);

    let mut clear = Entry::new_internal(input("Mail", None, false), None, &keys(3))
        .unwrap()
        .decrypt(&keys(3))
        .unwrap();
    clear.zeroize();
    assert_eq!(clear.title, "");
    assert_eq!(clear.password.as_deref(), Some(""));
    assert_eq!(clear.notes, None);
}

#[test]
fn the_index_finds_entries_by_any_of_their_texts() {
    let mut index = SearchIndex::new();
    index.add_entry(1, "Mail", &Some("Alice".to_string()), &Some("https://mail.example.com".to_string()));
    index.add_entry(2, "MAIL", &None, &Some(String::new()));
    index.add_entry(3, "Bank", &Some("alice".to_string()), &None);
    assert_eq!(index.line_counts(), (2, 1, 1));

    assert_eq!(index.search_text("mail"), vec![1, 2]);
    assert_eq!(index.search_text("AI"), vec![1, 2]);
    assert_eq!(index.search_text("alice"), vec![1, 3]);
    assert_eq!(index.search_text("example"), vec![1]);
    assert_eq!(index.search_text("a"), vec![1, 2, 3]);
    assert_eq!(index.search_text(""), vec![1, 2, 3]);
    assert!(index.search_text("shop").is_empty());

    index.remove_entry(1, "Mail", &Some("Alice".to_string()), &Some("https://mail.example.com".to_string()));
    assert_eq!(index.line_counts(), (2, 1, 0));
    assert_eq!(index.search_text("mail"), vec![2]);
    assert_eq!(index.search_text("alice"), vec![3]);
    index.remove_entry(2, "mail", &None, &None);
    index.remove_entry(3, "Bank", &Some("ALICE".to_string()), &None);
    assert_eq!(index.line_counts(), (0, 0, 0));
    // Striking what is not there changes nothing.
    index.remove_entry(3, "Bank", &None, &None);
    index.remove_entry(3, "", &None, &None);
    assert_eq!(index.line_counts(), (0, 0, 0));
}

#[test]
fn a_created_entry_is_filed_marked_and_indexed() {
    let mut collection = EntryCollection::new();
    let id = add(&mut collection, 1, input("Mail", Some(" Work "), true));
    assert_eq!(id, 1);
    assert_eq!(collection.entry_count, 1);
    assert_eq!(collection.entries.len(), 1);
    assert_eq!(collection.entries[0].category_id(), Some(&1001));
    assert_eq!(collection.categories.get_category(&1001).map(|c| c.name()), Some("Work"));
    assert_eq!(collection.categories.get_entries_in_category("work".to_string()).unwrap(), &vec![1]);
    assert!(collection.favorites.is_favorite(&1));
    assert_eq!(collection.search_index.search_text("mail"), vec![1]);

    // The second entry joins the category that is there.
    add(&mut collection, 2, input("Post", Some("work"), false));
    assert_eq!(collection.categories.len(), 1);
    assert_eq!(collection.entries[1].category_id(), Some(&1001));
    assert_eq!(collection.categories.get_entries_in_category("Work".to_string()).unwrap(), &vec![1, 2]);
    assert!(!collection.favorites.is_favorite(&2));

    add(&mut collection, 3, input("Bank", None, false));
    assert_eq!(collection.entries[2].category_id(), None);
    assert_eq!(collection.entry_count, 3);

    let overview = collection.get_entry_overview(&2).unwrap();
    assert_eq!(overview.title, "Post");
    assert!(matches!(collection.get_entry_overview(&9), Err(EntryError::NotFound(9))));
    let titles: Vec<String> =
        collection.get_all_overviews().iter().map(|o| o.title.clone()).collect();
    assert_eq!(titles, vec!["Mail", "Post", "Bank"]);
    let clear = collection.get_decrypted_entry(&3, &keys(3)).unwrap();
    assert_eq!(clear.password.as_deref(), Some("secret of Bank"));
    assert!(matches!(
        collection.get_decrypted_entry(&9, &keys(3)),
        Err(EntryError::NotFound(9))
    ));
}

#[test]
fn a_refused_entry_leaves_at_most_its_category() {
    let mut collection = EntryCollection::new();
    assert!(matches!(
        collection.create_entry(input("", Some("Work"), true), &keys(3)),
        Err(EntryError::InvalidTitle)
    ));
    assert_eq!(collection.entries.len(), 0);
    assert_eq!(collection.entry_count, 0);
    assert_eq!(collection.categories.len(), 1);
    assert!(collection.favorites.get_all_favorites().is_empty());

    assert!(matches!(
        collection.create_entry(input("Mail", Some("   "), true), &keys(3)),
        Err(EntryError::CategoryError(CategoryError::InvalidName(_)))
    ));
    // The name as given is not there, the trimmed name is.
    assert!(matches!(
        collection.create_entry(input("Mail", Some(" Work"), true), &keys(3)),
        Err(EntryError::CategoryError(CategoryError::DuplicateName(ref n))) if n == "Work"
    ));
    assert_eq!(collection.entries.len(), 0);
    assert_eq!(collection.categories.len(), 1);
}

#[test]
fn fresh_entries_get_fresh_identifiers() {
    let mut collection = EntryCollection::new();
    let first = collection.create_entry(input("Mail", None, false), &keys(3)).unwrap();
    let second = collection.create_entry(input("Mail", None, false), &keys(3)).unwrap();
    assert_ne!(first, second);
    assert_eq!(collection.entry_count, 2);
}

#[test]
fn deleting_an_entry_removes_every_trace() {
    let mut collection = EntryCollection::new();
    add(&mut collection, 1, input("Mail", Some("Work"), true));
    add(&mut collection, 2, input("Post", Some("Work"), true));
    collection.delete_entry(&1).expect("deleted");
    assert_eq!(collection.entries.len(), 1);
    assert_eq!(collection.entry_count, 1);
    assert_eq!(collection.categories.get_entries_in_category("Work".to_string()).unwrap(), &vec![2]);
    assert!(!collection.favorites.is_favorite(&1));
    assert!(collection.favorites.is_favorite(&2));
    assert!(collection.search_index.search_text("mail").is_empty());
    assert_eq!(collection.search_index.search_text("post"), vec![2]);
    assert!(matches!(collection.delete_entry(&1), Err(EntryError::NotFound(1))));
    assert_eq!(collection.entry_count, 1);
}

#[test]
fn an_entry_of_a_missing_category_is_deleted_and_the_category_reported() {
    let mut collection = EntryCollection::new();
    add(&mut collection, 1, input("Mail", Some("Work"), false));
    let mut none = Vec::new();
    collection.categories.delete_category(&1001, &mut none).unwrap();
    assert!(matches!(
        collection.delete_entry(&1),
        Err(EntryError::CategoryError(CategoryError::NotFound(1001)))
    ));
    assert!(collection.entries.is_empty());
    assert!(collection.search_index.search_text("mail").is_empty());
}

#[test]
fn updating_an_entry_moves_it() {
    let mut collection = EntryCollection::new();
    add(&mut collection, 1, input("Mail", Some("Work"), true));
    let later = Timestamp { seconds: STAMP.seconds + 60, nanos: 0 };
    collection
        .update_entry_with(&1, input("Post", Some("Home"), false), &keys(3), 77, later, [5u8; 12], [6u8; 12])
        .expect("updated");
    let entry = &collection.entries[0];
    assert_eq!(entry.id(), &1);
    assert_eq!(entry.title(), "Post");
    assert_eq!(entry.category_id(), Some(&77));
    assert_eq!(entry.category_name(), Some("Home"));
    assert_eq!(entry.created_at(), STAMP);
    assert_eq!(entry.updated_at(), later);
    assert!(collection.categories.get_entries_in_category("Work".to_string()).unwrap().is_empty());
    assert_eq!(collection.categories.get_entries_in_category("Home".to_string()).unwrap(), &vec![1]);
    assert!(!collection.favorites.is_favorite(&1));
    assert!(collection.search_index.search_text("mail").is_empty());
    assert_eq!(collection.search_index.search_text("post"), vec![1]);
    assert_eq!(collection.entry_count, 1);
    let clear = collection.get_decrypted_entry(&1, &keys(3)).unwrap();
    assert_eq!(clear.password.as_deref(), Some("secret of Post"));

    // Out of every category.
    collection.update_entry(&1, input("Post", None, true), &keys(3)).expect("updated");
    assert_eq!(collection.entries[0].category_id(), None);
    assert!(collection.categories.get_entries_in_category("Home".to_string()).unwrap().is_empty());
    assert!(collection.favorites.is_favorite(&1));
}

#[test]
fn a_refused_update_changes_no_entry() {
    let mut collection = EntryCollection::new();
    add(&mut collection, 1, input("Mail", Some("Work"), true));
    assert!(matches!(
        collection.update_entry(&1, input("", None, false), &keys(3)),
        Err(EntryError::InvalidTitle)
    ));
    assert!(matches!(
        collection.update_entry(&9, input("Post", None, false), &keys(3)),
        Err(EntryError::NotFound(9))
    ));
    let short = KeyHierarchy {
        master_key: SecureMemory::new(vec![1u8; 32]),
        mek: SecureMemory::new(vec![3u8; 5]),
        key_derivation: KeyDerivation::unchecked(64, 1, 1),
    };
    assert!(matches!(
        collection.update_entry(&1, input("Post", Some("Home"), false), &short),
        Err(EntryError::EncryptionError(CryptoError::EncryptionFailed))
    ));
    let entry = &collection.entries[0];
    assert_eq!(entry.title(), "Mail");
    assert_eq!(entry.category_name(), Some("Work"));
    assert!(collection.favorites.is_favorite(&1));
    assert_eq!(collection.categories.get_entries_in_category("Work".to_string()).unwrap(), &vec![1]);
    assert_eq!(collection.search_index.search_text("mail"), vec![1]);
}

fn filled() -> EntryCollection {
    let mut collection = EntryCollection::new();
    add(&mut collection, 1, input("Mail", Some("Work"), true));
    add(&mut collection, 2, input("Post", Some("Work"), false));
    add(&mut collection, 3, input("Bank", Some("Money"), true));
    add(&mut collection, 4, input("Mailbox", None, false));
    add(&mut collection, 5, input("Shop", Some("Aisle"), false));
    collection
}

#[test]
fn a_search_without_filters_finds_everything() {
    let collection = filled();
    let results = collection.search(query(None, None, false));
    assert_eq!(results.entries.iter().map(|e| e.id).collect::<Vec<_>>(), vec![1, 2, 3, 4, 5]);
    assert_eq!(results.total_count, 5);
    assert_eq!(results.max_count, 5);
    let spread: Vec<(String, usize)> = results
        .category_distribution
        .iter()
        .map(|c| (c.name.clone(), c.entry_count))
        .collect();
    assert_eq!(
        spread,
        vec![("Aisle".to_string(), 1), ("Money".to_string(), 1), ("Work".to_string(), 2)]
    );
    assert_eq!(results.category_distribution[2].id, 1001);
}

#[test]
fn a_search_filters_by_favourites_text_and_category() {
    let collection = filled();
    assert_eq!(found(&collection, query(None, None, true)), vec![1, 3]);
    assert_eq!(found(&collection, query(Some("MAIL"), None, false)), vec![1, 4]);
    assert_eq!(found(&collection, query(Some("mail"), None, true)), vec![1]);
    assert_eq!(found(&collection, query(None, Some("work"), false)), vec![1, 2]);
    assert_eq!(found(&collection, query(Some("post"), Some("Work"), false)), vec![2]);
    assert!(found(&collection, query(Some("bank"), Some("Work"), false)).is_empty());
    assert!(found(&collection, query(None, Some("Nowhere"), false)).is_empty());
    assert!(found(&collection, query(Some("nothing"), None, false)).is_empty());
}

#[test]
fn the_largest_count_ignores_the_category() {
    let collection = filled();
    let results = collection.search(query(Some("a"), Some("Work"), false));
    // Mail, Bank and Mailbox hold an a in their title; Post and Shop in
    // their address.
    assert_eq!(results.max_count, 5);
    assert_eq!(results.total_count, 2);
    let results = collection.search(query(None, Some("Money"), true));
    assert_eq!(results.max_count, 2);
    assert_eq!(results.total_count, 1);
    assert_eq!(results.category_distribution.len(), 1);
    assert_eq!(results.category_distribution[0].name, "Money");
    assert_eq!(results.category_distribution[0].entry_count, 1);
    let results = collection.search(query(None, Some("Nowhere"), false));
    assert_eq!(results.max_count, 5);
    assert_eq!(results.total_count, 0);
    assert!(results.category_distribution.is_empty());
}

#[test]
fn favourites_without_an_entry_are_not_found() {
    let mut collection = filled();
    collection.favorites.add_favorite(99);
    let results = collection.search(query(None, None, true));
    assert_eq!(results.entries.iter().map(|e| e.id).collect::<Vec<_>>(), vec![1, 3]);
    assert_eq!(results.total_count, 2);
    assert_eq!(results.max_count, 3);
}
