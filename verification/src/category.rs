//! The four groups that the shortcuts are filed under.

use vstd::prelude::*;

verus! {

/// A group of shortcuts. The variants are declared in display order.
#[derive(Clone, Copy, Debug, PartialEq, Eq, Structural)]
pub enum Category {
    Movement,
    Edit,
    Recall,
    Process,
}

impl Category {
    /// The position of the category in display order.
    pub open spec fn rank(self) -> int {
        match self {
            Category::Movement => 0,
            Category::Edit => 1,
            Category::Recall => 2,
            Category::Process => 3,
        }
    }

    /// The name that the category is shown and looked up under.
    pub open spec fn spec_name(self) -> Seq<char> {
        match self {
            Category::Movement => "Movement"@,
            Category::Edit => "Edit"@,
            Category::Recall => "Recall"@,
            Category::Process => "Process"@,
        }
    }

    /// The name that the category is shown and looked up under.
    pub fn name(self) -> (name: &'static str)
        ensures
            name@ == self.spec_name(),
    {
        match self {
            Category::Movement => "Movement",
            Category::Edit => "Edit",
            Category::Recall => "Recall",
            Category::Process => "Process",
        }
    }

    /// The category with the given name, if there is one. Names are matched
    /// exactly, letter case included.
    pub fn from_name(name: &str) -> (found: Option<Category>)
        ensures
            match found {
                Some(category) => category.spec_name() == name@,
                None => forall|category: Category| category.spec_name() != name@,
            },
    {
        let wanted = name.to_owned();
        if wanted == "Movement".to_owned() {
            Some(Category::Movement)
        } else if wanted == "Edit".to_owned() {
            Some(Category::Edit)
        } else if wanted == "Recall".to_owned() {
            Some(Category::Recall)
        } else if wanted == "Process".to_owned() {
            Some(Category::Process)
        } else {
            None
        }
    }
}

/// All categories, in display order.
pub open spec fn display_order() -> Seq<Category> {
    seq![Category::Movement, Category::Edit, Category::Recall, Category::Process]
}

/// No two categories share a name.
pub proof fn lemma_names_differ(a: Category, b: Category)
    ensures
        a.spec_name() == b.spec_name() <==> a == b,
{
    reveal_strlit("Movement");
    reveal_strlit("Edit");
    reveal_strlit("Recall");
    reveal_strlit("Process");
    assert("Movement"@.len() == 8);
    assert("Edit"@.len() == 4);
    assert("Recall"@.len() == 6);
    assert("Process"@.len() == 7);
}

/// Display order lists every category once, each at its rank.
pub proof fn lemma_display_order_complete(category: Category)
    ensures
        0 <= category.rank() < display_order().len(),
        display_order()[category.rank()] == category,
        display_order().len() == 4,
{
}

} // verus!
