use bk::category::Category;
use bk::registry::init_shortcuts;

#[test]
fn every_category_has_its_shortcuts() {
    let registry = init_shortcuts();
    assert_eq!(registry.shortcuts(Category::Movement).len(), 9);
    assert_eq!(registry.shortcuts(Category::Edit).len(), 18);
    assert_eq!(registry.shortcuts(Category::Recall).len(), 17);
    assert_eq!(registry.shortcuts(Category::Process).len(), 5);
}

#[test]
fn shortcuts_keep_the_order_they_are_declared_in() {
    let registry = init_shortcuts();
    let movement = registry.shortcuts(Category::Movement);
    assert_eq!(movement[0].key, "ctrl+a");
    assert_eq!(movement[0].description, "Go to line start (home)");
    assert_eq!(movement[8].key, "ctrl+xx");
    assert_eq!(movement[8].description, "Toggle between line start and cursor");
    let edit = registry.shortcuts(Category::Edit);
    assert_eq!(edit[0].key, "ctrl+l");
    assert_eq!(edit[16].key, "ctrl+_");
    assert_eq!(edit[16].description, "Undo");
    assert_eq!(edit[17].key, "tab");
    let recall = registry.shortcuts(Category::Recall);
    assert_eq!(recall[6].key, "!!");
    assert_eq!(recall[9].key, "!n:$");
    assert_eq!(
        recall[9].description,
        "Repeat from the last command: args n to the last argument"
    );
    assert_eq!(recall[16].key, "^abc^def");
    let process = registry.shortcuts(Category::Process);
    let keys: Vec<&str> = process.iter().map(|s| s.key).collect();
    assert_eq!(keys, vec!["ctrl+c", "ctrl+s", "ctrl+q", "ctrl+d", "ctrl+z"]);
}

#[test]
fn building_the_registry_twice_gives_the_same_content() {
    let first = init_shortcuts();
    let second = init_shortcuts();
    for category in [Category::Movement, Category::Edit, Category::Recall, Category::Process] {
        let one = first.shortcuts(category);
        let other = second.shortcuts(category);
        assert!(!one.is_empty());
        assert_eq!(one.len(), other.len());
        for i in 0..one.len() {
            assert_eq!(one[i].key, other[i].key);
            assert_eq!(one[i].description, other[i].description);
        }
    }
}

#[test]
fn lookup_by_name_finds_the_lists_of_the_categories() {
    let registry = init_shortcuts();
    for category in [Category::Movement, Category::Edit, Category::Recall, Category::Process] {
        let by_name = registry.get(category.name()).unwrap();
        let by_category = registry.shortcuts(category);
        assert_eq!(by_name.len(), by_category.len());
        assert_eq!(by_name[0].key, by_category[0].key);
    }
}

#[test]
fn lookup_by_another_name_finds_nothing() {
    let registry = init_shortcuts();
    assert!(!registry.contains_key("History"));
    assert!(registry.get("History").is_none());
    assert!(!registry.contains_key("recall"));
    assert!(registry.get("").is_none());
}

#[test]
fn no_description_is_wider_than_the_column() {
    let registry = init_shortcuts();
    for category in [Category::Movement, Category::Edit, Category::Recall, Category::Process] {
        for shortcut in registry.shortcuts(category) {
            assert!(shortcut.description.chars().count() <= 57);
            assert!(!shortcut.key.is_empty());
        }
    }
}
