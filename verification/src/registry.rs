//! The reference data: every shortcut, filed under its category.

use vstd::prelude::*;

use crate::category::Category;
use crate::shortcut::{entries_of, Entry, Shortcut};

verus! {

/// The entry with the given trigger and description.
pub open spec fn entry(trigger: &str, description: &str) -> Entry {
    Entry { trigger: trigger@, description: description@ }
}

/// The shortcuts for moving the cursor, in display order.
pub open spec fn movement_entries() -> Seq<Entry> {
    seq![
        entry("ctrl+a", "Go to line start (home)"),
        entry("ctrl+e", "Go to line end (end)"),
        entry("ctrl+p", "Previous command (up)"),
        entry("ctrl+n", "Next command (down)"),
        entry("ctrl+f", "Move forward one char (right)"),
        entry("ctrl+b", "Move back one char (left)"),
        entry("alt+f", "Move forward one word (alt+right)"),
        entry("alt+b", "Move back one word (alt+left)"),
        entry("ctrl+xx", "Toggle between line start and cursor"),
    ]
}

/// The shortcuts for editing the line, in display order.
pub open spec fn edit_entries() -> Seq<Entry> {
    seq![
        entry("ctrl+l", "Clear screen"),
        entry("alt+del", "Delete word before cursor"),
        entry("alt+d", "Delete word after cursor"),
        entry("ctrl+d", "Delete char under cursor"),
        entry("ctrl+h", "Delete char before cursor (backspace)"),
        entry("ctrl+w", "Cut word before cursor to clipboard"),
        entry("ctrl+k", "Cut line after cursor to clipboard"),
        entry("ctrl+u", "Cut line before cursor to clipboard"),
        entry("alt+t", "Swap current word with previous"),
        entry("ctrl+t", "Swap last two chars before cursor"),
        entry("esc+t", "Swap last two words before cursor"),
        entry("ctrl+y", "Paste from clipboard (yank)"),
        entry("alt+u", "UPPERCASE word from cursor"),
        entry("alt+l", "lowercase word from cursor"),
        entry("alt+c", "Capitalize char and move to word end"),
        entry("alt+r", "Revert line to history version"),
        entry("ctrl+_", "Undo"),
        entry("tab", "Auto-complete file/directory names"),
    ]
}

/// The shortcuts for recalling earlier commands, in display order.
pub open spec fn recall_entries() -> Seq<Entry> {
    seq![
        entry("ctrl+r", "Search command history as you type"),
        entry("ctrl+p", "Previous command in history (walk back)"),
        entry("ctrl+n", "Next command in history (walk forward)"),
        entry("ctrl+s", "Go back to the next most recent command"),
        entry("ctrl+o", "Execute the command found via ctrl+r or ctrl+s"),
        entry("ctrl+g", "Escape from history searching mode"),
        entry("!!", "Repeat last command"),
        entry("!n", "Repeat nth arg from last command (!:2 for second arg)"),
        entry("!n:m", "Repeat args n to m from last command (!:2-3)"),
        entry("!n:$", "Repeat from the last command: args n to the last argument"),
        entry("!n:p", "Print last command starting with n"),
        entry("!string", "Print the last command beginning with string"),
        entry("!:q", "Quote the last command with proper Bash escaping applied"),
        entry("!$", "Last argument of previous command"),
        entry("alt+.", "Last argument of previous command"),
        entry("!*", "All arguments of previous command"),
        entry("^abc^def", "Run previous command, replacing abc with def"),
    ]
}

/// The shortcuts for controlling processes and the screen, in display order.
pub open spec fn process_entries() -> Seq<Entry> {
    seq![
        entry("ctrl+c", "Kill/Interrupt current process (SIGINT)"),
        entry("ctrl+s", "Stop screen output (scroll with PgUp/PgDn)"),
        entry("ctrl+q", "Resume screen output (after ctrl+s)"),
        entry("ctrl+d", "Send EOF - closes shell if empty (EXIT)"),
        entry("ctrl+z", "Suspend process (SIGTSTP) - resume: fg"),
    ]
}

/// The entries that the reference data files under a category.
pub open spec fn reference_entries(category: Category) -> Seq<Entry> {
    match category {
        Category::Movement => movement_entries(),
        Category::Edit => edit_entries(),
        Category::Recall => recall_entries(),
        Category::Process => process_entries(),
    }
}

fn movement_shortcuts() -> (list: Vec<Shortcut>)
    ensures
        entries_of(list@) == movement_entries(),
{
    let list = vec![
        Shortcut::new("ctrl+a", "Go to line start (home)"),
        Shortcut::new("ctrl+e", "Go to line end (end)"),
        Shortcut::new("ctrl+p", "Previous command (up)"),
        Shortcut::new("ctrl+n", "Next command (down)"),
        Shortcut::new("ctrl+f", "Move forward one char (right)"),
        Shortcut::new("ctrl+b", "Move back one char (left)"),
        Shortcut::new("alt+f", "Move forward one word (alt+right)"),
        Shortcut::new("alt+b", "Move back one word (alt+left)"),
        Shortcut::new("ctrl+xx", "Toggle between line start and cursor"),
    ];
    assert(entries_of(list@) =~= movement_entries());
    list
}

fn edit_shortcuts() -> (list: Vec<Shortcut>)
    ensures
        entries_of(list@) == edit_entries(),
{
    let list = vec![
        Shortcut::new("ctrl+l", "Clear screen"),
        Shortcut::new("alt+del", "Delete word before cursor"),
        Shortcut::new("alt+d", "Delete word after cursor"),
        Shortcut::new("ctrl+d", "Delete char under cursor"),
        Shortcut::new("ctrl+h", "Delete char before cursor (backspace)"),
        Shortcut::new("ctrl+w", "Cut word before cursor to clipboard"),
        Shortcut::new("ctrl+k", "Cut line after cursor to clipboard"),
        Shortcut::new("ctrl+u", "Cut line before cursor to clipboard"),
        Shortcut::new("alt+t", "Swap current word with previous"),
        Shortcut::new("ctrl+t", "Swap last two chars before cursor"),
        Shortcut::new("esc+t", "Swap last two words before cursor"),
        Shortcut::new("ctrl+y", "Paste from clipboard (yank)"),
        Shortcut::new("alt+u", "UPPERCASE word from cursor"),
        Shortcut::new("alt+l", "lowercase word from cursor"),
        Shortcut::new("alt+c", "Capitalize char and move to word end"),
        Shortcut::new("alt+r", "Revert line to history version"),
        Shortcut::new("ctrl+_", "Undo"),
        Shortcut::new("tab", "Auto-complete file/directory names"),
    ];
    assert(entries_of(list@) =~= edit_entries());
    list
}

fn recall_shortcuts() -> (list: Vec<Shortcut>)
    ensures
        entries_of(list@) == recall_entries(),
{
    let list = vec![
        Shortcut::new("ctrl+r", "Search command history as you type"),
        Shortcut::new("ctrl+p", "Previous command in history (walk back)"),
        Shortcut::new("ctrl+n", "Next command in history (walk forward)"),
        Shortcut::new("ctrl+s", "Go back to the next most recent command"),
        Shortcut::new("ctrl+o", "Execute the command found via ctrl+r or ctrl+s"),
        Shortcut::new("ctrl+g", "Escape from history searching mode"),
        Shortcut::new("!!", "Repeat last command"),
        Shortcut::new("!n", "Repeat nth arg from last command (!:2 for second arg)"),
        Shortcut::new("!n:m", "Repeat args n to m from last command (!:2-3)"),
        Shortcut::new("!n:$", "Repeat from the last command: args n to the last argument"),
        Shortcut::new("!n:p", "Print last command starting with n"),
        Shortcut::new("!string", "Print the last command beginning with string"),
        Shortcut::new("!:q", "Quote the last command with proper Bash escaping applied"),
        Shortcut::new("!$", "Last argument of previous command"),
        Shortcut::new("alt+.", "Last argument of previous command"),
        Shortcut::new("!*", "All arguments of previous command"),
        Shortcut::new("^abc^def", "Run previous command, replacing abc with def"),
    ];
    assert(entries_of(list@) =~= recall_entries());
    list
}

fn process_shortcuts() -> (list: Vec<Shortcut>)
    ensures
        entries_of(list@) == process_entries(),
{
    let list = vec![
        Shortcut::new("ctrl+c", "Kill/Interrupt current process (SIGINT)"),
        Shortcut::new("ctrl+s", "Stop screen output (scroll with PgUp/PgDn)"),
        Shortcut::new("ctrl+q", "Resume screen output (after ctrl+s)"),
        Shortcut::new("ctrl+d", "Send EOF - closes shell if empty (EXIT)"),
        Shortcut::new("ctrl+z", "Suspend process (SIGTSTP) - resume: fg"),
    ];
    assert(entries_of(list@) =~= process_entries());
    list
}

/// The shortcuts of every category, each list in display order.
pub struct Registry {
    movement: Vec<Shortcut>,
    edit: Vec<Shortcut>,
    recall: Vec<Shortcut>,
    process: Vec<Shortcut>,
}

impl Registry {
    /// The entries filed under a category, in display order.
    pub closed spec fn entries(&self, category: Category) -> Seq<Entry> {
        match category {
            Category::Movement => entries_of(self.movement@),
            Category::Edit => entries_of(self.edit@),
            Category::Recall => entries_of(self.recall@),
            Category::Process => entries_of(self.process@),
        }
    }

    /// Whether the registry holds exactly the reference data.
    pub open spec fn is_reference(&self) -> bool {
        forall|category: Category| #[trigger]
            self.entries(category) == reference_entries(category)
    }

    /// Every category has at least one shortcut.
    #[verifier::type_invariant]
    closed spec fn populated(&self) -> bool {
        &&& self.movement@.len() > 0
        &&& self.edit@.len() > 0
        &&& self.recall@.len() > 0
        &&& self.process@.len() > 0
    }

    /// The shortcuts of a category, in display order. The list is never
    /// empty.
    pub fn shortcuts(&self, category: Category) -> (list: &Vec<Shortcut>)
        ensures
            entries_of(list@) == self.entries(category),
            list@.len() > 0,
    {
        proof {
            use_type_invariant(self);
        }
        match category {
            Category::Movement => &self.movement,
            Category::Edit => &self.edit,
            Category::Recall => &self.recall,
            Category::Process => &self.process,
        }
    }

    /// The shortcuts filed under the category with the given name, or `None`
    /// where no category has that name.
    pub fn get(&self, name: &str) -> (found: Option<&Vec<Shortcut>>)
        ensures
            match found {
                Some(list) => exists|category: Category|
                    #[trigger] category.spec_name() == name@ && entries_of(list@)
                        == self.entries(category),
                None => forall|category: Category| category.spec_name() != name@,
            },
    {
        match Category::from_name(name) {
            Some(category) => Some(self.shortcuts(category)),
            None => None,
        }
    }

    /// Whether a category with the given name exists.
    pub fn contains_key(&self, name: &str) -> (found: bool)
        ensures
            found <==> exists|category: Category| category.spec_name() == name@,
    {
        Category::from_name(name).is_some()
    }
}

/// Builds the registry of the reference data. It takes no input, and every
/// call gives the same content.
pub fn init_shortcuts() -> (registry: Registry)
    ensures
        registry.is_reference(),
{
    let movement = movement_shortcuts();
    let edit = edit_shortcuts();
    let recall = recall_shortcuts();
    let process = process_shortcuts();
    assert(movement@.len() == entries_of(movement@).len());
    assert(edit@.len() == entries_of(edit@).len());
    assert(recall@.len() == entries_of(recall@).len());
    assert(process@.len() == entries_of(process@).len());
    let registry = Registry { movement, edit, recall, process };
    assert forall|category: Category| #[trigger]
        registry.entries(category) == reference_entries(category) by {}
    registry
}

/// The reference data files at least one shortcut under every category.
pub proof fn lemma_reference_populated(category: Category)
    ensures
        reference_entries(category).len() > 0,
{
}

/// Two registries that hold the reference data agree on every category, in
/// content and in order: building the registry again changes nothing.
pub proof fn lemma_reference_is_unique(first: Registry, second: Registry, category: Category)
    requires
        first.is_reference(),
        second.is_reference(),
    ensures
        first.entries(category) == second.entries(category),
        first.entries(category).len() > 0,
{
    lemma_reference_populated(category);
}

} // verus!
