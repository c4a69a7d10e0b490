//! The state of the place search box: what is being searched for, and
//! whether its list of suggestions is shown.

use vstd::prelude::*;
use vstd::string::*;

verus! {

/// The number of suggestions asked for.
pub const MAX_RESULTS: i64 = 5;

/// The search box.
#[derive(Debug, Clone)]
pub struct SearchBox {
    /// The text being searched for, if any.
    pub query: Option<String>,
    /// Whether the list of suggestions is hidden.
    pub hidden: bool,
}

impl SearchBox {
    /// The search box before anything was typed: nothing is searched for and
    /// no suggestions are shown.
    pub fn new() -> (state: SearchBox)
        ensures
            state.query is None,
            state.hidden,
    {
        SearchBox { query: None, hidden: true }
    }

    /// Takes note of the text now in the box. Text is searched for as it is;
    /// an empty box ends the search and hides the suggestions.
    pub fn input(self, value: String) -> (next: SearchBox)
        ensures
            value@.len() == 0 ==> next.query is None && next.hidden,
            value@.len() != 0 ==> next.query == Some(value) && next.hidden == self.hidden,
    {
        if value.as_str().is_empty() {
            SearchBox { query: None, hidden: true }
        } else {
            SearchBox { query: Some(value), hidden: self.hidden }
        }
    }

    /// Takes note of the outcome of a search: the suggestions are shown if
    /// the search gave any answer, and hidden if there was nothing to search
    /// for.
    pub fn answered(self, found: bool) -> (next: SearchBox)
        ensures
            next.query == self.query,
            next.hidden == !found,
    {
        SearchBox { query: self.query, hidden: !found }
    }

    /// Takes note that a suggestion was picked: the suggestions are hidden.
    pub fn picked(self) -> (next: SearchBox)
        ensures
            next.query == self.query,
            next.hidden,
    {
        SearchBox { query: self.query, hidden: true }
    }
}

} // verus!
