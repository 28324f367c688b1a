//! A minimal plugin: it answers one fixed content with one fixed
//! replacement. It exercises the dispatch order and the event loop in
//! tests without any library having to be loaded.

use vstd::prelude::*;

use crate::contract::AutoclipPlugin;

verus! {

/// Replaces the contents `from` with `to`, and claims nothing else. When
/// `to` equals `from` the plugin never applies: a plugin must signal "no
/// change" distinctly rather than return the input as a replacement.
pub struct ReplacePlugin {
    pub from: String,
    pub to: String,
}

impl ReplacePlugin {
    pub fn new(from: String, to: String) -> (r: ReplacePlugin)
        ensures
            r.from == from,
            r.to == to,
    {
        ReplacePlugin { from, to }
    }
}

impl AutoclipPlugin for ReplacePlugin {
    open spec fn on_clip_spec(&self, contents: Seq<char>) -> Option<Seq<char>> {
        if contents == self.from@ && self.to@ != self.from@ {
            Some(self.to@)
        } else {
            None
        }
    }

    fn on_clip(&self, contents: &str) -> (r: Option<String>) {
        let contents_owned = contents.to_owned();
        if contents_owned.eq(&self.from) && !self.to.eq(&self.from) {
            Some(self.to.clone())
        } else {
            None
        }
    }
}

} // verus!
