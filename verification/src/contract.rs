//! The plugin contract: the interface a host and its plugins agree on.
//!
//! A plugin exposes a declaration carrying two compatibility tags and offers
//! an event callback. The host compares the tags with its own before any
//! further call into the plugin's code, hands a registrar capability to the
//! plugin's registration entry point, and afterwards owns whatever the
//! plugin registered.

use vstd::prelude::*;

verus! {

/// The compatibility tags a plugin library declares at its well-known symbol.
///
/// The host reads these tags out of a freshly mapped library and compares
/// them with its own before calling any further into the library's code.
pub struct PluginDeclaration {
    /// Identity of the toolchain the plugin was compiled with.
    pub rustc_version: String,
    /// Version of the plugin contract the plugin was compiled against.
    pub core_version: String,
}

/// A declaration is incompatible when either tag differs from the host's.
pub open spec fn version_mismatch(declaration: &PluginDeclaration, host: &PluginDeclaration) -> bool {
    declaration.rustc_version@ != host.rustc_version@
        || declaration.core_version@ != host.core_version@
}

/// Returns true exactly when the declaration's tags are incompatible with
/// the host's; a mismatching plugin must never be called into.
pub fn check_version(declaration: &PluginDeclaration, host: &PluginDeclaration) -> (mismatch: bool)
    ensures
        mismatch == version_mismatch(declaration, host),
{
    declaration.rustc_version != host.rustc_version
        || declaration.core_version != host.core_version
}

/// Plugins implement this trait.
///
/// The event callback is the only capability the host ever invokes on a
/// plugin: given the current clipboard text it answers either "no change"
/// (`None`) or a replacement. A replacement must differ from the input;
/// "no change" is signalled distinctly so the host never performs a
/// spurious clipboard write.
pub trait AutoclipPlugin {
    /// Model of the callback: the replacement, if any, for given contents.
    ///
    /// The default says the plugin never applies; an implementation
    /// overrides it with its own rule.
    open spec fn on_clip_spec(&self, contents: Seq<char>) -> Option<Seq<char>> {
        None
    }

    /// Triggered when the content of the clipboard has changed.
    fn on_clip(&self, contents: &str) -> (r: Option<String>)
        ensures
            r.deep_view() == self.on_clip_spec(contents@),
            r matches Some(s) ==> s@ != contents@,
    ;
}

/// The host implements this trait: it is the one capability a plugin's
/// registration entry point receives, letting the plugin hand the host a
/// name and an event-callback implementation and nothing else.
pub trait PluginRegistrar<P: AutoclipPlugin> {
    fn register(&mut self, name: &str, entrypoint: P);
}

} // verus!
