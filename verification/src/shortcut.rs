//! A single keyboard shortcut: the keys to press and what they do.

use vstd::prelude::*;

verus! {

/// What a shortcut is to the contracts: its trigger and its description,
/// each as a sequence of characters.
pub struct Entry {
    pub trigger: Seq<char>,
    pub description: Seq<char>,
}

/// A keyboard shortcut of the reference data.
#[derive(Clone, Copy, Debug)]
pub struct Shortcut {
    pub description: &'static str,
    pub key: &'static str,
}

impl View for Shortcut {
    type V = Entry;

    open spec fn view(&self) -> Entry {
        Entry { trigger: self.key@, description: self.description@ }
    }
}

impl Shortcut {
    /// Pairs a key combination with its description.
    pub fn new(key: &'static str, description: &'static str) -> (shortcut: Shortcut)
        ensures
            shortcut@.trigger == key@,
            shortcut@.description == description@,
    {
        Shortcut { description, key }
    }
}

/// The entries that a list of shortcuts stands for, in the same order.
pub open spec fn entries_of(shortcuts: Seq<Shortcut>) -> Seq<Entry> {
    shortcuts.map_values(|s: Shortcut| s@)
}

} // verus!
