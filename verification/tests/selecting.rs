use bk::category::Category;
use bk::selection::{select_categories, Args, Mode};

fn flags(movement: bool, edit: bool, recall: bool, process: bool) -> Args {
    Args { movement, edit, recall, process, uninstall: false }
}

#[test]
fn no_flag_selects_every_category() {
    assert_eq!(
        select_categories(&flags(false, false, false, false)),
        vec![Category::Movement, Category::Edit, Category::Recall, Category::Process]
    );
}

#[test]
fn all_flags_select_every_category() {
    assert_eq!(
        select_categories(&flags(true, true, true, true)),
        vec![Category::Movement, Category::Edit, Category::Recall, Category::Process]
    );
}

#[test]
fn one_flag_selects_its_category() {
    assert_eq!(select_categories(&flags(true, false, false, false)), vec![Category::Movement]);
    assert_eq!(select_categories(&flags(false, true, false, false)), vec![Category::Edit]);
    assert_eq!(select_categories(&flags(false, false, true, false)), vec![Category::Recall]);
    assert_eq!(select_categories(&flags(false, false, false, true)), vec![Category::Process]);
}

#[test]
fn selection_is_in_display_order() {
    assert_eq!(
        select_categories(&flags(false, true, false, true)),
        vec![Category::Edit, Category::Process]
    );
    assert_eq!(
        select_categories(&flags(true, false, true, true)),
        vec![Category::Movement, Category::Recall, Category::Process]
    );
}

#[test]
fn every_subset_of_flags_selects_exactly_itself() {
    let order = [Category::Movement, Category::Edit, Category::Recall, Category::Process];
    for bits in 0..16u8 {
        let set = [bits & 1 != 0, bits & 2 != 0, bits & 4 != 0, bits & 8 != 0];
        let shown = select_categories(&flags(set[0], set[1], set[2], set[3]));
        let mut expected = Vec::new();
        for i in 0..4 {
            if bits == 0 || set[i] {
                expected.push(order[i]);
            }
        }
        assert_eq!(shown, expected);
    }
}

#[test]
fn the_uninstall_flag_does_not_change_the_selection() {
    let mut args = flags(false, true, true, false);
    let without = select_categories(&args);
    args.uninstall = true;
    assert_eq!(select_categories(&args), without);
}

#[test]
fn uninstall_goes_before_the_category_flags() {
    let mut args = flags(true, true, false, false);
    assert_eq!(args.mode(), Mode::Show);
    args.uninstall = true;
    assert_eq!(args.mode(), Mode::Uninstall);
    assert_eq!(flags(false, false, false, false).mode(), Mode::Show);
}

#[test]
fn categories_have_their_names() {
    assert_eq!(Category::Movement.name(), "Movement");
    assert_eq!(Category::Edit.name(), "Edit");
    assert_eq!(Category::Recall.name(), "Recall");
    assert_eq!(Category::Process.name(), "Process");
}

#[test]
fn categories_are_found_by_name() {
    assert_eq!(Category::from_name("Movement"), Some(Category::Movement));
    assert_eq!(Category::from_name("Edit"), Some(Category::Edit));
    assert_eq!(Category::from_name("Recall"), Some(Category::Recall));
    assert_eq!(Category::from_name("Process"), Some(Category::Process));
    assert_eq!(Category::from_name("History"), None);
    assert_eq!(Category::from_name("movement"), None);
    assert_eq!(Category::from_name(""), None);
}
