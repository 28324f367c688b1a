//! The watcher's configuration: how often to poll the clipboard and which
//! clipboard content types to leave alone.

use vstd::prelude::*;

verus! {

/// The content types ignored out of the box: transient or confidential
/// clipboard entries, such as a password manager's, that must never be
/// rewritten.
pub open spec fn default_ignored_types() -> Seq<Seq<char>> {
    seq![
        "com.agilebits.onepassword"@,
        "com.typeit4me.clipping"@,
        "de.petermaurer.TransientPasteboardType"@,
        "net.antelle.keeweb"@,
    ]
}

pub struct Config {
    /// Pause between two clipboard polls, in milliseconds.
    pub polling_interval: u64,
    /// Content type tags whose clipboard entries are never dispatched.
    pub ignored_types: Vec<String>,
}

impl Config {
    /// The default configuration: poll once a second and ignore the
    /// well-known transient and password-manager content types.
    pub fn new() -> (r: Config)
        ensures
            r.polling_interval == 1000,
            r.ignored_types.deep_view() == default_ignored_types(),
    {
        let mut ignored_types: Vec<String> = Vec::new();
        ignored_types.push("com.agilebits.onepassword".to_owned());
        ignored_types.push("com.typeit4me.clipping".to_owned());
        ignored_types.push("de.petermaurer.TransientPasteboardType".to_owned());
        ignored_types.push("net.antelle.keeweb".to_owned());

        proof {
            assert(ignored_types.deep_view() =~= default_ignored_types());
        }

        Config { polling_interval: 1000, ignored_types }
    }
}

} // verus!
