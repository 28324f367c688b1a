use autoclip::installer::{
    classify_registry_status, manifest_path, plugin_extension, plugin_filename,
    registry_or_default, Arch, Author, Manifest, Os, RegistryStatus, Variant,
};

fn manifest(variants: Vec<Variant>) -> Manifest {
    Manifest {
        name: "amazon".to_string(),
        description: "Tidies Amazon product URLs.".to_string(),
        author: Author {
            name: "Someone".to_string(),
            email: "someone@example.org".to_string(),
        },
        variants,
    }
}

fn variant(os: Os, arch: Arch, url: &str) -> Variant {
    Variant {
        os,
        arch,
        url: url.to_string(),
    }
}

#[test]
fn os_and_arch_support_their_own_platform() {
    assert!(Os::Linux.is_supported(&Os::Linux));
    assert!(!Os::Windows.is_supported(&Os::Linux));
    assert!(Arch::X8664.is_supported(&Arch::X8664));
    assert!(!Arch::X8632.is_supported(&Arch::X8664));
}

#[test]
fn find_supported_variant_picks_the_first_fitting_one() {
    let manifest = manifest(vec![
        variant(Os::Windows, Arch::X8664, "https://example.org/w"),
        variant(Os::Linux, Arch::X8664, "https://example.org/l1"),
        variant(Os::Linux, Arch::X8664, "https://example.org/l2"),
    ]);

    let found = manifest
        .find_supported_variant(&Os::Linux, &Arch::X8664)
        .expect("a variant fits");
    assert_eq!(found.url, "https://example.org/l1");
}

#[test]
fn find_supported_variant_needs_both_os_and_arch() {
    let manifest = manifest(vec![
        variant(Os::Linux, Arch::X8632, "https://example.org/l32"),
        variant(Os::Macos, Arch::X8664, "https://example.org/m64"),
    ]);

    assert!(manifest
        .find_supported_variant(&Os::Linux, &Arch::X8664)
        .is_none());
}

#[test]
fn find_supported_variant_on_empty_manifest_is_none() {
    let manifest = manifest(Vec::new());
    assert!(manifest
        .find_supported_variant(&Os::Linux, &Arch::X8664)
        .is_none());
}

#[test]
fn registry_status_is_classified_exactly() {
    assert_eq!(classify_registry_status(200), RegistryStatus::Found);
    assert_eq!(classify_registry_status(404), RegistryStatus::NotFound);
    assert_eq!(classify_registry_status(500), RegistryStatus::Failed);
    assert_eq!(classify_registry_status(301), RegistryStatus::Failed);
}

#[test]
fn registry_defaults_when_none_is_chosen() {
    assert_eq!(
        registry_or_default(None),
        "https://autoclip-plugins.projects.siketyan.dev/"
    );
    assert_eq!(
        registry_or_default(Some("https://registry.example.org/")),
        "https://registry.example.org/"
    );
}

#[test]
fn manifest_path_appends_the_yaml_name() {
    assert_eq!(manifest_path("amazon"), "/amazon.yaml");
}

#[test]
fn plugin_extension_is_platform_native() {
    assert_eq!(plugin_extension(&Os::Windows), "dll");
    assert_eq!(plugin_extension(&Os::Macos), "dylib");
    assert_eq!(plugin_extension(&Os::Linux), "so");
}

#[test]
fn plugin_filename_joins_name_and_extension() {
    assert_eq!(plugin_filename("amazon", &Os::Macos), "amazon.dylib");
    assert_eq!(plugin_filename("amazon", &Os::Linux), "amazon.so");
}
