//! One tick of the clipboard-watching loop.
//!
//! The loop itself — pacing, reading and writing the clipboard, asking the
//! platform for content type tags — is the caller's: it hands each freshly
//! read clipboard text to [`EventLoop::tick`] and performs the write the
//! tick asks for. The tick's decisions are all here: unchanged content is
//! left alone, content of an ignored type is recorded but never dispatched,
//! and otherwise the plugin collection's dispatch decides what, if
//! anything, is written back.

use vstd::prelude::*;

use crate::config::Config;
use crate::contract::AutoclipPlugin;
use crate::plugin::{PluginCollection, PluginRef, spec_dispatch};

verus! {

/// Whether any of the content's type tags is an ignored type.
pub open spec fn spec_ignored(types: Seq<Seq<char>>, ignored: Seq<Seq<char>>) -> bool {
    exists|i: int| 0 <= i < types.len() && ignored.contains(types[i])
}

/// One tick's decision, as (content to record as last observed, content to
/// write back, if any):
/// - content equal to the last observed one is left alone entirely;
/// - changed content of an ignored type is recorded, so it is not examined
///   again, but never dispatched;
/// - otherwise dispatch decides: a replacement is both written back and
///   recorded — recording the write is what keeps the loop from treating
///   its own write as the next external change — and "no change" merely
///   records the content.
pub open spec fn spec_tick<P: AutoclipPlugin>(
    previous: Seq<char>,
    contents: Seq<char>,
    types: Seq<Seq<char>>,
    ignored: Seq<Seq<char>>,
    plugins: Seq<PluginRef<P>>,
) -> (Seq<char>, Option<Seq<char>>) {
    if contents == previous {
        (previous, None)
    } else if spec_ignored(types, ignored) {
        (contents, None)
    } else {
        match spec_dispatch(plugins, contents) {
            Some(replacement) => (replacement, Some(replacement)),
            None => (contents, None),
        }
    }
}

/// True exactly when the needle occurs in the haystack.
fn contains_string(haystack: &Vec<String>, needle: &String) -> (r: bool)
    ensures
        r == haystack.deep_view().contains(needle@),
{
    let mut index: usize = 0;

    while index < haystack.len()
        invariant
            index <= haystack@.len(),
            forall|j: int| 0 <= j < index ==> haystack.deep_view()[j] != needle@,
        decreases haystack@.len() - index,
    {
        if haystack[index].eq(needle) {
            assert(haystack.deep_view()[index as int] == needle@);
            return true;
        }
        index += 1;
    }

    assert(forall|j: int| 0 <= j < haystack.deep_view().len()
        ==> haystack.deep_view()[j] != needle@);
    false
}

/// The first of the content's type tags that is an ignored type, if any;
/// the caller reports it and skips dispatch.
pub fn find_ignored_type(types: &Vec<String>, ignored: &Vec<String>) -> (r: Option<usize>)
    ensures
        match r {
            Some(i) => {
                &&& i < types@.len()
                &&& ignored.deep_view().contains(types.deep_view()[i as int])
                &&& forall|j: int|
                    0 <= j < i ==> !ignored.deep_view().contains(types.deep_view()[j])
            },
            None => !spec_ignored(types.deep_view(), ignored.deep_view()),
        },
{
    let mut index: usize = 0;

    while index < types.len()
        invariant
            index <= types@.len(),
            forall|j: int|
                0 <= j < index ==> !ignored.deep_view().contains(types.deep_view()[j]),
        decreases types@.len() - index,
    {
        if contains_string(ignored, &types[index]) {
            return Some(index);
        }
        index += 1;
    }

    None
}

/// The state the clipboard-watching loop threads through its ticks: the
/// last content it has observed, so that only genuine changes are worked
/// on.
pub struct EventLoop {
    pub previous: String,
}

impl EventLoop {
    /// Before the first poll nothing has been observed.
    pub fn new() -> (r: EventLoop)
        ensures
            r.previous@ == Seq::<char>::empty(),
    {
        EventLoop { previous: String::new() }
    }

    /// Works one freshly read clipboard content, as [`spec_tick`] says:
    /// the result is the replacement the caller must write back to the
    /// clipboard, or `None` when this tick writes nothing.
    pub fn tick<P: AutoclipPlugin>(
        &mut self,
        plugins: &PluginCollection<P>,
        contents: String,
        types: &Vec<String>,
        config: &Config,
    ) -> (write: Option<String>)
        ensures
            ({
                let (new_previous, w) = spec_tick(
                    old(self).previous@,
                    contents@,
                    types.deep_view(),
                    config.ignored_types.deep_view(),
                    plugins@,
                );
                &&& final(self).previous@ == new_previous
                &&& write.deep_view() == w
            }),
    {
        if contents == self.previous {
            return None;
        }

        self.previous = contents.clone();

        if let Some(_ignored_index) = find_ignored_type(types, &config.ignored_types) {
            return None;
        }

        match plugins.dispatch_on_clip(contents.as_str()) {
            Some(output) => {
                self.previous = output.clone();
                Some(output)
            }
            None => None,
        }
    }
}

/// Once a tick has written a replacement back, the next tick's read of that
/// very replacement changes nothing: it is already the last observed
/// content, so no second dispatch and no second write happen, whatever type
/// tags the platform reports then.
pub proof fn lemma_write_not_redetected<P: AutoclipPlugin>(
    previous: Seq<char>,
    contents: Seq<char>,
    types: Seq<Seq<char>>,
    next_types: Seq<Seq<char>>,
    ignored: Seq<Seq<char>>,
    plugins: Seq<PluginRef<P>>,
)
    requires
        spec_tick(previous, contents, types, ignored, plugins).1 is Some,
    ensures
        ({
            let (new_previous, write) = spec_tick(previous, contents, types, ignored, plugins);
            spec_tick(new_previous, write.unwrap(), next_types, ignored, plugins)
                == (new_previous, None::<Seq<char>>)
        }),
{
}

/// When no loaded plugin transforms the contents, a tick writes nothing.
pub proof fn lemma_no_transform_no_write<P: AutoclipPlugin>(
    previous: Seq<char>,
    contents: Seq<char>,
    types: Seq<Seq<char>>,
    ignored: Seq<Seq<char>>,
    plugins: Seq<PluginRef<P>>,
)
    requires
        forall|i: int| 0 <= i < plugins.len() ==> plugins[i].plugin.on_clip_spec(contents) is None,
    ensures
        spec_tick(previous, contents, types, ignored, plugins).1 is None,
{
    crate::plugin::lemma_dispatch_no_match(plugins, contents);
}

/// Changed content carrying an ignored type tag never reaches dispatch:
/// whatever the loaded plugins would make of its text, the tick only
/// records the content and writes nothing.
pub proof fn lemma_ignored_type_skips_dispatch<P: AutoclipPlugin>(
    previous: Seq<char>,
    contents: Seq<char>,
    types: Seq<Seq<char>>,
    ignored: Seq<Seq<char>>,
    plugins: Seq<PluginRef<P>>,
)
    requires
        contents != previous,
        spec_ignored(types, ignored),
    ensures
        spec_tick(previous, contents, types, ignored, plugins)
            == (contents, None::<Seq<char>>),
{
}

} // verus!
