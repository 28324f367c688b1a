use autoclip::config::Config;
use autoclip::platform::{get_clipboard_types, PlatformError};
use autoclip::plugin::PluginCollection;
use autoclip::replace::ReplacePlugin;
use autoclip::watcher::{find_ignored_type, EventLoop};

fn host() -> autoclip::contract::PluginDeclaration {
    autoclip::contract::PluginDeclaration {
        rustc_version: "rustc 1.46.0".to_string(),
        core_version: "0.3.0".to_string(),
    }
}

fn collection_with(from: &str, to: &str) -> PluginCollection<ReplacePlugin> {
    let mut plugins = PluginCollection::new();
    plugins
        .load(&host(), &host(), 0, |mut registrar| {
            registrar.register("stub", ReplacePlugin::new(from.to_string(), to.to_string()));
            registrar
        })
        .unwrap();
    plugins
}

#[test]
fn write_is_not_redetected_as_a_change() {
    let plugins = collection_with("X", "Y");
    let config = Config::new();
    let mut event_loop = EventLoop::new();
    let no_types: Vec<String> = Vec::new();

    // First tick: the clipboard reads "X", the plugin rewrites it to "Y",
    // so the tick asks for exactly one write.
    let write = event_loop.tick(&plugins, "X".to_string(), &no_types, &config);
    assert_eq!(write, Some("Y".to_string()));
    assert_eq!(event_loop.previous, "Y");

    // Second tick: the clipboard now reads the write itself; nothing is
    // dispatched or written again.
    let write = event_loop.tick(&plugins, "Y".to_string(), &no_types, &config);
    assert_eq!(write, None);
    assert_eq!(event_loop.previous, "Y");
}

#[test]
fn unchanged_contents_are_left_alone() {
    let plugins = collection_with("X", "Y");
    let config = Config::new();
    let mut event_loop = EventLoop::new();
    let no_types: Vec<String> = Vec::new();

    let write = event_loop.tick(&plugins, "X".to_string(), &no_types, &config);
    assert_eq!(write, Some("Y".to_string()));

    // The same external content again: no change, no write.
    let write = event_loop.tick(&plugins, "Y".to_string(), &no_types, &config);
    assert_eq!(write, None);
    let write = event_loop.tick(&plugins, "Y".to_string(), &no_types, &config);
    assert_eq!(write, None);
}

#[test]
fn no_transform_means_no_write() {
    let plugins = collection_with("X", "Y");
    let config = Config::new();
    let mut event_loop = EventLoop::new();
    let no_types: Vec<String> = Vec::new();

    let write = event_loop.tick(&plugins, "Z".to_string(), &no_types, &config);
    assert_eq!(write, None);
    // The unmatched content still becomes the last observed one.
    assert_eq!(event_loop.previous, "Z");
}

#[test]
fn ignored_type_never_reaches_dispatch() {
    let plugins = collection_with("X", "Y");
    let config = Config::new();
    let mut event_loop = EventLoop::new();
    // The text would match the plugin, but the content carries an ignored
    // type tag.
    let types = vec![
        "public.utf8-plain-text".to_string(),
        "com.agilebits.onepassword".to_string(),
    ];

    let write = event_loop.tick(&plugins, "X".to_string(), &types, &config);
    assert_eq!(write, None);
    // The content is still recorded, so it is not examined again.
    assert_eq!(event_loop.previous, "X");

    // The very same content without the ignored tag is dispatched.
    let mut event_loop = EventLoop::new();
    let no_types: Vec<String> = Vec::new();
    let write = event_loop.tick(&plugins, "X".to_string(), &no_types, &config);
    assert_eq!(write, Some("Y".to_string()));
}

#[test]
fn find_ignored_type_reports_first_hit() {
    let types = vec![
        "a".to_string(),
        "net.antelle.keeweb".to_string(),
        "com.agilebits.onepassword".to_string(),
    ];
    let config = Config::new();
    assert_eq!(find_ignored_type(&types, &config.ignored_types), Some(1));

    let clean = vec!["a".to_string(), "b".to_string()];
    assert_eq!(find_ignored_type(&clean, &config.ignored_types), None);
}

#[test]
fn default_config_ignores_known_transient_types() {
    let config = Config::new();
    assert_eq!(config.polling_interval, 1000);
    assert_eq!(
        config.ignored_types,
        vec![
            "com.agilebits.onepassword".to_string(),
            "com.typeit4me.clipping".to_string(),
            "de.petermaurer.TransientPasteboardType".to_string(),
            "net.antelle.keeweb".to_string(),
        ]
    );
}

#[test]
fn clipboard_type_probe_reports_unsupported() {
    assert_eq!(get_clipboard_types(), Err(PlatformError::Unsupported));
}
