//! Loading plugins into the live collection and dispatching events to it.
//!
//! The host maps a plugin library, reads its declaration, and only when the
//! compatibility tags match its own does it call the library's registration
//! entry point, through a short-lived registrar. Whatever the entry point
//! registered is appended to the ordered collection of live plugins.
//! Dispatch walks that collection in load order and the first plugin that
//! claims the contents wins.

use vstd::prelude::*;

use crate::contract::{AutoclipPlugin, PluginDeclaration, check_version, version_mismatch};

verus! {

/// Why a plugin library was rejected.
#[derive(Debug, Clone, Copy, PartialEq, Eq, Structural)]
pub enum LoadError {
    /// The file could not be used as a plugin: it is missing, is not a
    /// shared library, lacks the declaration symbol, or registered nothing.
    LoadFailed,
    /// The declaration's compatibility tags differ from the host's; the
    /// library's code was never called into.
    VersionMismatch,
}

/// A live plugin instance: its declared name, its event callback, and the
/// identity of the library image its code lives in.
pub struct PluginRef<P> {
    pub name: String,
    pub plugin: P,
    /// Key of the backing library image in the host's arena of loaded
    /// libraries. The image must stay mapped for as long as this instance
    /// is reachable, since the callback's code lives in it.
    pub library: usize,
}

/// A short-lived registrar, one per load operation: it collects what the
/// library's registration entry point registers, bound to that library,
/// and the loader takes the result immediately afterwards.
///
/// The entry point receives this registrar as its sole capability, so
/// plugin code never touches the live collection or any other host state.
pub struct PluginRegistrar<P> {
    /// What the entry point registered; when it registers more than once,
    /// the last registration wins.
    pub plugin_ref: Option<PluginRef<P>>,
    /// Arena key of the library being loaded; every registered instance is
    /// bound to it.
    pub library: usize,
}

/// The registrar a load operation starts from: nothing registered yet,
/// bound to the library being loaded.
pub open spec fn fresh_registrar<P>(library: usize) -> PluginRegistrar<P> {
    PluginRegistrar { plugin_ref: None, library }
}

impl<P: AutoclipPlugin> PluginRegistrar<P> {
    pub fn new(library: usize) -> (r: Self)
        ensures
            r == fresh_registrar::<P>(library),
    {
        PluginRegistrar { plugin_ref: None, library }
    }

    /// Records a registration, binding the instance to the library this
    /// registrar was created for.
    pub fn register(&mut self, name: &str, entrypoint: P)
        ensures
            final(self).library == old(self).library,
            final(self).plugin_ref matches Some(r)
                && r.name@ == name@
                && r.plugin == entrypoint
                && r.library == old(self).library,
    {
        self.plugin_ref = Some(PluginRef {
            name: name.to_owned(),
            plugin: entrypoint,
            library: self.library,
        });
    }
}

impl<P: AutoclipPlugin> crate::contract::PluginRegistrar<P> for PluginRegistrar<P> {
    fn register(&mut self, name: &str, entrypoint: P) {
        PluginRegistrar::register(self, name, entrypoint);
    }
}

/// The live, ordered set of loaded plugins; insertion order is load order,
/// and an inserted instance is never removed or reordered.
pub struct PluginCollection<P> {
    plugins: Vec<PluginRef<P>>,
}

impl<P> View for PluginCollection<P> {
    type V = Seq<PluginRef<P>>;

    closed spec fn view(&self) -> Seq<PluginRef<P>> {
        self.plugins@
    }
}

/// First-match-wins dispatch over a sequence of plugins: the result of the
/// first plugin that claims the contents, or "no change" when none does.
pub open spec fn spec_dispatch<P: AutoclipPlugin>(
    plugins: Seq<PluginRef<P>>,
    contents: Seq<char>,
) -> Option<Seq<char>>
    decreases plugins.len(),
{
    if plugins.len() == 0 {
        None
    } else {
        match plugins[0].plugin.on_clip_spec(contents) {
            Some(replacement) => Some(replacement),
            None => spec_dispatch(plugins.drop_first(), contents),
        }
    }
}

/// What a load operation does to the collection once the version check has
/// passed, given the registrar as the entry point left it: the registered
/// instance is appended and its index returned, or, when nothing was
/// registered, the collection is unchanged and the load has failed.
pub open spec fn spec_load<P>(
    plugins: Seq<PluginRef<P>>,
    registrar: PluginRegistrar<P>,
) -> (Seq<PluginRef<P>>, Result<usize, LoadError>) {
    match registrar.plugin_ref {
        Some(plugin_ref) => (plugins.push(plugin_ref), Ok(plugins.len() as usize)),
        None => (plugins, Err(LoadError::LoadFailed)),
    }
}

impl<P: AutoclipPlugin> PluginCollection<P> {
    /// The collection starts empty; it grows only by successful loads.
    pub fn new() -> (r: PluginCollection<P>)
        ensures
            r@ == Seq::<PluginRef<P>>::empty(),
    {
        PluginCollection { plugins: Vec::new() }
    }

    /// How many plugins are loaded.
    pub fn len(&self) -> (n: usize)
        ensures
            n == self@.len(),
    {
        self.plugins.len()
    }

    /// The plugin at a load-order position.
    pub fn get(&self, index: usize) -> (r: &PluginRef<P>)
        requires
            index < self@.len(),
        ensures
            *r == self@[index as int],
    {
        &self.plugins[index]
    }

    /// Folds one plugin library into the collection.
    ///
    /// The declaration's compatibility tags are checked against the host's
    /// first; on any mismatch the load is rejected at once and `entry` — the
    /// library's registration entry point — is never invoked, since calling
    /// into code built against another contract is unsafe. Only when the
    /// tags match is the entry point run, on a fresh registrar bound to
    /// `library`, and what it registered is folded into the collection.
    pub fn load<F: FnOnce(PluginRegistrar<P>) -> PluginRegistrar<P>>(
        &mut self,
        declaration: &PluginDeclaration,
        host: &PluginDeclaration,
        library: usize,
        entry: F,
    ) -> (r: Result<usize, LoadError>)
        requires
            call_requires(entry, (fresh_registrar::<P>(library),)),
        ensures
            version_mismatch(declaration, host) ==> {
                &&& r == Err::<usize, LoadError>(LoadError::VersionMismatch)
                &&& final(self)@ == old(self)@
            },
            !version_mismatch(declaration, host) ==> exists|registrar: PluginRegistrar<P>| {
                &&& #[trigger] call_ensures(entry, (fresh_registrar::<P>(library),), registrar)
                &&& (final(self)@, r) == spec_load(old(self)@, registrar)
            },
    {
        if check_version(declaration, host) {
            return Err(LoadError::VersionMismatch);
        }

        let registrar = PluginRegistrar::new(library);
        let registrar = entry(registrar);

        match registrar.plugin_ref {
            Some(plugin_ref) => {
                let index = self.plugins.len();
                self.plugins.push(plugin_ref);
                Ok(index)
            }
            None => Err(LoadError::LoadFailed),
        }
    }

    /// Dispatches a clipboard change to the plugins in load order; the
    /// first plugin that returns a replacement short-circuits the walk and
    /// its replacement is the result. When no plugin claims the contents,
    /// the result is "no change", and a replacement is never the input
    /// itself.
    pub fn dispatch_on_clip(&self, contents: &str) -> (r: Option<String>)
        ensures
            r.deep_view() == spec_dispatch(self@, contents@),
            r matches Some(s) ==> s@ != contents@,
    {
        let mut index: usize = 0;

        proof {
            assert(self@.skip(0) =~= self@);
        }

        while index < self.plugins.len()
            invariant
                index <= self@.len(),
                spec_dispatch(self@, contents@) == spec_dispatch(
                    self@.skip(index as int),
                    contents@,
                ),
            decreases self@.len() - index,
        {
            let result = self.plugins[index].plugin.on_clip(contents);

            proof {
                assert(self@.skip(index as int)[0] == self@[index as int]);
                assert(self@.skip(index as int).drop_first() =~= self@.skip(index as int + 1));
            }

            if result.is_some() {
                return result;
            }

            index += 1;
        }

        None
    }
}

/// First-match-wins: when the first plugin in load order claims the
/// contents, dispatch returns that plugin's replacement, whatever every
/// later plugin would have answered.
pub proof fn lemma_dispatch_first_match<P: AutoclipPlugin>(
    plugins: Seq<PluginRef<P>>,
    contents: Seq<char>,
)
    requires
        plugins.len() > 0,
        plugins[0].plugin.on_clip_spec(contents) is Some,
    ensures
        spec_dispatch(plugins, contents) == plugins[0].plugin.on_clip_spec(contents),
{
}

/// When no loaded plugin claims the contents, dispatch answers "no change".
pub proof fn lemma_dispatch_no_match<P: AutoclipPlugin>(
    plugins: Seq<PluginRef<P>>,
    contents: Seq<char>,
)
    requires
        forall|i: int| 0 <= i < plugins.len() ==> plugins[i].plugin.on_clip_spec(contents) is None,
    ensures
        spec_dispatch(plugins, contents) is None,
    decreases plugins.len(),
{
    if plugins.len() > 0 {
        lemma_dispatch_no_match(plugins.drop_first(), contents);
    }
}

/// A load whose tags match and whose entry point registered an instance
/// appends exactly that instance, under the name it was registered with,
/// and reports the position it is reachable at.
pub proof fn lemma_load_appends_registered<P>(
    plugins: Seq<PluginRef<P>>,
    registrar: PluginRegistrar<P>,
)
    requires
        registrar.plugin_ref is Some,
    ensures
        ({
            let (loaded, result) = spec_load(plugins, registrar);
            &&& result == Ok::<usize, LoadError>(plugins.len() as usize)
            &&& loaded.len() == plugins.len() + 1
            &&& loaded.last() == registrar.plugin_ref.unwrap()
            &&& forall|i: int| 0 <= i < plugins.len() ==> loaded[i] == plugins[i]
        }),
{
}

} // verus!

