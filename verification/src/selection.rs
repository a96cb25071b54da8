//! From the flags of an invocation to the categories it shows.

use vstd::prelude::*;

use crate::category::{display_order, Category};

verus! {

/// The flags of one invocation: one per category, and one that asks for the
/// program to be removed.
#[derive(Clone, Copy, Debug, PartialEq, Eq, Structural)]
pub struct Args {
    pub movement: bool,
    pub edit: bool,
    pub recall: bool,
    pub process: bool,
    pub uninstall: bool,
}

impl Args {
    /// Whether the flag of a category is set.
    pub open spec fn flag(self, category: Category) -> bool {
        match category {
            Category::Movement => self.movement,
            Category::Edit => self.edit,
            Category::Recall => self.recall,
            Category::Process => self.process,
        }
    }

    /// Whether no category flag is set, which asks for every category.
    pub open spec fn shows_all(self) -> bool {
        !self.movement && !self.edit && !self.recall && !self.process
    }

    /// Whether a category is shown: its flag is set, or none is.
    pub open spec fn shows(self, category: Category) -> bool {
        self.shows_all() || self.flag(category)
    }
}

/// What an invocation asks for.
#[derive(Clone, Copy, Debug, PartialEq, Eq, Structural)]
pub enum Mode {
    /// Remove the program.
    Uninstall,
    /// Show the shortcuts of the selected categories.
    Show,
}

impl Args {
    /// What the flags ask for. The `uninstall` flag goes before the category
    /// flags: where it is set, nothing is shown.
    pub fn mode(&self) -> (mode: Mode)
        ensures
            mode == (if self.uninstall {
                Mode::Uninstall
            } else {
                Mode::Show
            }),
    {
        if self.uninstall {
            Mode::Uninstall
        } else {
            Mode::Show
        }
    }
}

/// The categories that the flags show, in display order.
pub open spec fn selection(args: Args) -> Seq<Category> {
    display_order().filter(|category: Category| args.shows(category))
}

/// The categories to show, in display order: those whose flag is set, or
/// all of them where no category flag is set. The `uninstall` flag plays no
/// part.
pub fn select_categories(args: &Args) -> (shown: Vec<Category>)
    ensures
        shown@ == selection(*args),
{
    let all = !args.movement && !args.edit && !args.recall && !args.process;
    let mut shown: Vec<Category> = Vec::new();
    if all || args.movement {
        shown.push(Category::Movement);
    }
    if all || args.edit {
        shown.push(Category::Edit);
    }
    if all || args.recall {
        shown.push(Category::Recall);
    }
    if all || args.process {
        shown.push(Category::Process);
    }
    proof {
        lemma_selection_unfolds(*args);
    }
    shown
}

/// The selection, written out category by category.
pub proof fn lemma_selection_unfolds(args: Args)
    ensures
        selection(args) == only_if(args.shows(Category::Movement), Category::Movement) + only_if(
            args.shows(Category::Edit),
            Category::Edit,
        ) + only_if(args.shows(Category::Recall), Category::Recall) + only_if(
            args.shows(Category::Process),
            Category::Process,
        ),
{
    let shows = |category: Category| args.shows(category);
    let order = display_order();
    let three = order.drop_last();
    let two = three.drop_last();
    let one = two.drop_last();
    let none = one.drop_last();
    reveal_with_fuel(Seq::filter, 5);
    assert(three.filter(shows) =~= two.filter(shows) + only_if(
        args.shows(Category::Recall),
        Category::Recall,
    ));
    assert(two.filter(shows) =~= one.filter(shows) + only_if(
        args.shows(Category::Edit),
        Category::Edit,
    ));
    assert(one.filter(shows) =~= none.filter(shows) + only_if(
        args.shows(Category::Movement),
        Category::Movement,
    ));
    assert(order.filter(shows) =~= three.filter(shows) + only_if(
        args.shows(Category::Process),
        Category::Process,
    ));
}

/// The one-element sequence of `category` where `shown` holds, else the
/// empty sequence.
pub open spec fn only_if(shown: bool, category: Category) -> Seq<Category> {
    if shown {
        seq![category]
    } else {
        Seq::empty()
    }
}

/// A category is in the selection exactly when the flags show it: the
/// selection holds the categories whose flag is set, or every category where
/// no flag is set, and nothing else.
pub proof fn lemma_selection_is_exact(args: Args, category: Category)
    ensures
        selection(args).contains(category) <==> args.shows(category),
        args.shows_all() ==> selection(args) == display_order(),
{
    lemma_selection_unfolds(args);
    let shown = selection(args);
    if args.shows(category) {
        let before = match category {
            Category::Movement => 0int,
            Category::Edit => only_if(args.shows(Category::Movement), Category::Movement).len()
                as int,
            Category::Recall => (only_if(args.shows(Category::Movement), Category::Movement)
                + only_if(args.shows(Category::Edit), Category::Edit)).len() as int,
            Category::Process => shown.len() - 1,
        };
        assert(shown[before] == category);
    }
    if args.shows_all() {
        assert(shown =~= display_order());
    }
}

/// The selection is in display order whatever the flags are: of two shown
/// categories the one with the lower rank comes first, and none comes twice.
pub proof fn lemma_selection_in_display_order(args: Args, i: int, j: int)
    requires
        0 <= i < j < selection(args).len(),
    ensures
        selection(args)[i].rank() < selection(args)[j].rank(),
{
    lemma_selection_unfolds(args);
}

} // verus!
