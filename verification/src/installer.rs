//! The decisions of the plugin installer: which variant of a published
//! plugin fits the running platform, how the registry answers are
//! classified, and how the registry paths and the installed file's name are
//! built. Fetching the manifest and the binary, and writing the file, are
//! the caller's.

use vstd::prelude::*;

verus! {

/// An operating system a plugin variant may be published for.
#[derive(Clone, Copy, Debug, PartialEq, Eq, Structural)]
pub enum Os {
    Windows,
    Macos,
    Linux,
}

impl Os {
    /// Whether a variant built for this operating system runs on the host.
    pub fn is_supported(&self, host: &Os) -> (r: bool)
        ensures
            r == (*self == *host),
    {
        *self == *host
    }
}

/// A processor architecture a plugin variant may be published for.
#[derive(Clone, Copy, Debug, PartialEq, Eq, Structural)]
pub enum Arch {
    X8632,
    X8664,
}

impl Arch {
    /// Whether a variant built for this architecture runs on the host.
    pub fn is_supported(&self, host: &Arch) -> (r: bool)
        ensures
            r == (*self == *host),
    {
        *self == *host
    }
}

/// One published build of a plugin: the platform it was built for and where
/// its binary is downloaded from.
pub struct Variant {
    pub os: Os,
    pub arch: Arch,
    pub url: String,
}

/// A variant fits a host that runs the very system and architecture it was
/// built for.
pub open spec fn spec_variant_supported(variant: Variant, host_os: Os, host_arch: Arch) -> bool {
    variant.os == host_os && variant.arch == host_arch
}

impl Variant {
    /// Whether this variant runs on the given host platform.
    pub fn is_supported(&self, host_os: &Os, host_arch: &Arch) -> (r: bool)
        ensures
            r == spec_variant_supported(*self, *host_os, *host_arch),
    {
        self.os.is_supported(host_os) && self.arch.is_supported(host_arch)
    }
}

/// Who published a plugin.
pub struct Author {
    pub name: String,
    pub email: String,
}

/// A plugin's entry in the registry: its name, who made it, and the
/// variants it was published in.
pub struct Manifest {
    pub name: String,
    pub description: String,
    pub author: Author,
    pub variants: Vec<Variant>,
}

/// The position of the first variant that fits the host, searching from
/// `from` onwards.
pub open spec fn spec_first_supported_from(
    variants: Seq<Variant>,
    host_os: Os,
    host_arch: Arch,
    from: int,
) -> Option<int>
    decreases variants.len() - from when 0 <= from
{
    if from >= variants.len() {
        None
    } else if spec_variant_supported(variants[from], host_os, host_arch) {
        Some(from)
    } else {
        spec_first_supported_from(variants, host_os, host_arch, from + 1)
    }
}

/// The position of the first variant that fits the host, if any does.
pub open spec fn spec_find_supported(
    variants: Seq<Variant>,
    host_os: Os,
    host_arch: Arch,
) -> Option<int> {
    spec_first_supported_from(variants, host_os, host_arch, 0)
}

impl Manifest {
    /// The first of the manifest's variants that fits the host, in the
    /// order they were published; `None` when no variant supports this
    /// platform.
    pub fn find_supported_variant(&self, host_os: &Os, host_arch: &Arch) -> (r: Option<&Variant>)
        ensures
            match r {
                Some(v) => {
                    &&& spec_find_supported(self.variants@, *host_os, *host_arch) matches Some(i)
                        && *v == self.variants@[i]
                },
                None => spec_find_supported(self.variants@, *host_os, *host_arch) is None,
            },
    {
        let mut index: usize = 0;

        while index < self.variants.len()
            invariant
                index <= self.variants@.len(),
                spec_find_supported(self.variants@, *host_os, *host_arch)
                    == spec_first_supported_from(self.variants@, *host_os, *host_arch, index as int),
            decreases self.variants@.len() - index,
        {
            if self.variants[index].is_supported(host_os, host_arch) {
                return Some(&self.variants[index]);
            }
            index += 1;
        }

        None
    }
}

/// How the registry answered a manifest request.
#[derive(Clone, Copy, Debug, PartialEq, Eq, Structural)]
pub enum RegistryStatus {
    /// The manifest is in the response body.
    Found,
    /// No plugin of that name is published.
    NotFound,
    /// Any other answer: the registry failed.
    Failed,
}

/// Classifies the registry's HTTP status code: the manifest was found, the
/// plugin does not exist, or the registry failed.
pub fn classify_registry_status(status: u16) -> (r: RegistryStatus)
    ensures
        r == (if status == 200 {
            RegistryStatus::Found
        } else if status == 404 {
            RegistryStatus::NotFound
        } else {
            RegistryStatus::Failed
        }),
{
    if status == 200 {
        RegistryStatus::Found
    } else if status == 404 {
        RegistryStatus::NotFound
    } else {
        RegistryStatus::Failed
    }
}

/// The registry a plugin is fetched from when the caller names none.
pub open spec fn spec_default_registry() -> Seq<char> {
    "https://autoclip-plugins.projects.siketyan.dev/"@
}

/// The registry to use: the caller's choice, or the default registry.
pub fn registry_or_default(registry: Option<&str>) -> (r: String)
    ensures
        match registry {
            Some(chosen) => r@ == chosen@,
            None => r@ == spec_default_registry(),
        },
{
    match registry {
        Some(chosen) => chosen.to_owned(),
        None => "https://autoclip-plugins.projects.siketyan.dev/".to_owned(),
    }
}

/// The registry path a plugin's manifest is served at.
pub fn manifest_path(name: &str) -> (r: String)
    ensures
        r@ == "/"@ + name@ + ".yaml"@,
{
    String::from_str("/").concat(name).concat(".yaml")
}

/// The native shared-library file extension of plugin binaries on the
/// given operating system.
pub open spec fn spec_plugin_extension(os: Os) -> Seq<char> {
    match os {
        Os::Windows => "dll"@,
        Os::Macos => "dylib"@,
        Os::Linux => "so"@,
    }
}

/// The file extension a plugin binary carries on the given operating
/// system.
pub fn plugin_extension(os: &Os) -> (r: &'static str)
    ensures
        r@ == spec_plugin_extension(*os),
{
    match os {
        Os::Windows => "dll",
        Os::Macos => "dylib",
        Os::Linux => "so",
    }
}

/// The file name an installed plugin is stored under: its name with the
/// platform's native extension.
pub fn plugin_filename(name: &str, os: &Os) -> (r: String)
    ensures
        r@ == name@ + "."@ + spec_plugin_extension(*os),
{
    String::from_str(name).concat(".").concat(plugin_extension(os))
}

} // verus!
