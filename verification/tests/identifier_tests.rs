use password_manager_backend::category_favorite::category_collection::CategoryCollection;
use password_manager_backend::error::category_error::CategoryError;

const MARKS: u128 = 0xF000_C000_0000_0000_0000;
const RANDOM: u128 = 0x4000_8000_0000_0000_0000;

#[test]
fn fresh_identifiers_carry_the_marks_of_random_ones() {
    let mut categories = CategoryCollection::new();
    let mut seen: Vec<u128> = Vec::new();
    for i in 0..64 {
        let id = categories
            .create_category(format!("category {}", i))
            .expect("created");
        assert_eq!(id & MARKS, RANDOM, "identifier {:032x}", id);
        assert!(!seen.contains(&id));
        seen.push(id);
    }
    assert_eq!(categories.len(), 64);
}

#[test]
fn a_refused_name_is_reported_before_anything_is_drawn() {
    let mut categories = CategoryCollection::new();
    categories.create_category("Work".to_string()).expect("created");
    assert!(matches!(
        categories.create_category("   ".to_string()),
        Err(CategoryError::InvalidName(ref name)) if name.is_empty()
    ));
    assert!(matches!(
        categories.create_category(" Work ".to_string()),
        Err(CategoryError::DuplicateName(ref name)) if name == "Work"
    ));
    assert_eq!(categories.len(), 1);
}
