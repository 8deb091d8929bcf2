use gluxe::config::{resolve_window_config, RuntimeBuilder, WindowConfig};

type Builder = RuntimeBuilder<f32, (), ()>;

// ---- resolve_window_config ----

#[test]
fn config_resolve_builder_none_manifest_some_uses_manifest() {
    let manifest = Some(WindowConfig {
        width: Some(1024.0),
        height: Some(768.0),
        title: Some("Manifest Title".to_string()),
        titlebar: Some(false),
    });
    let result = resolve_window_config(None, manifest);
    assert_eq!(result.width, Some(1024.0));
    assert_eq!(result.title.as_deref(), Some("Manifest Title"));
    assert_eq!(result.titlebar, Some(false));
}

#[test]
fn config_resolve_builder_overrides_manifest_dimensions_inherits_title_and_titlebar() {
    // .window_size() only sets width/height, leaving title and titlebar as None.
    // Those fields should be inherited from the manifest.
    let builder = Some(WindowConfig {
        width: Some(1280.0),
        height: Some(720.0),
        title: None,
        titlebar: None,
    });
    let manifest = Some(WindowConfig {
        width: Some(800.0),
        height: Some(600.0),
        title: Some("My App".to_string()),
        titlebar: Some(false),
    });
    let result = resolve_window_config(builder, manifest);
    // Dimensions come from the builder (it wins over manifest).
    assert_eq!(result.width, Some(1280.0));
    assert_eq!(result.height, Some(720.0));
    // title and titlebar are inherited from the manifest because the builder
    // left them as None (field-level merge).
    assert_eq!(result.title.as_deref(), Some("My App"));
    assert_eq!(result.titlebar, Some(false));
}

#[test]
fn config_resolve_builder_some_true_titlebar_beats_manifest_false() {
    // An explicit builder `titlebar: Some(true)` must win over a manifest
    // `titlebar: Some(false)` — the builder is highest priority.
    let builder = Some(WindowConfig {
        width: Some(800.0),
        height: Some(600.0),
        title: None,
        titlebar: Some(true),
    });
    let manifest = Some(WindowConfig {
        width: Some(800.0),
        height: Some(600.0),
        title: None,
        titlebar: Some(false),
    });
    let result = resolve_window_config(builder, manifest);
    assert_eq!(result.titlebar, Some(true));
}

#[test]
fn config_resolve_both_none_gives_all_none() {
    // Defaults (800×600) are applied at window-open time, not here.
    let result: WindowConfig<f32> = resolve_window_config(None, None);
    assert_eq!(result.width, None);
    assert_eq!(result.height, None);
    assert!(result.title.is_none());
    assert!(result.titlebar.is_none());
}

// ---- resolve_window_config — regression tests for builder bugs ----

#[test]
fn config_resolve_titlebar_only_builder_inherits_manifest_size_and_title() {
    // Bug 1 regression: `.titlebar(false)` alone must NOT fabricate 800×600.
    // Width/height/title should come from the manifest.
    let builder = Some(WindowConfig {
        titlebar: Some(false),
        ..Default::default()
    });
    let manifest = Some(WindowConfig {
        width: Some(1024.0),
        height: Some(768.0),
        title: Some("App".to_string()),
        titlebar: None,
    });
    let result = resolve_window_config(builder, manifest);
    assert_eq!(result.width, Some(1024.0));
    assert_eq!(result.height, Some(768.0));
    assert_eq!(result.title.as_deref(), Some("App"));
    assert_eq!(result.titlebar, Some(false));
}

// ---- resolve_window_config ----

#[test]
fn lib_resolve_builder_none_manifest_some_uses_manifest() {
    let manifest = Some(WindowConfig {
        width: Some(1024.0),
        height: Some(768.0),
        title: Some("Manifest Title".to_string()),
        titlebar: Some(false),
    });
    let result = resolve_window_config(None, manifest);
    assert_eq!(result.width, Some(1024.0));
    assert_eq!(result.title.as_deref(), Some("Manifest Title"));
    assert_eq!(result.titlebar, Some(false));
}

#[test]
fn lib_resolve_builder_overrides_manifest_dimensions_inherits_title_and_titlebar() {
    // .window_size() only sets width/height, leaving title and titlebar as None.
    // Those fields should be inherited from the manifest.
    let builder = Some(WindowConfig {
        width: Some(1280.0),
        height: Some(720.0),
        title: None,
        titlebar: None,
    });
    let manifest = Some(WindowConfig {
        width: Some(800.0),
        height: Some(600.0),
        title: Some("My App".to_string()),
        titlebar: Some(false),
    });
    let result = resolve_window_config(builder, manifest);
    // Dimensions come from the builder (it wins over manifest).
    assert_eq!(result.width, Some(1280.0));
    assert_eq!(result.height, Some(720.0));
    // title and titlebar are inherited from the manifest because the builder
    // left them as None (field-level merge).
    assert_eq!(result.title.as_deref(), Some("My App"));
    assert_eq!(result.titlebar, Some(false));
}

#[test]
fn lib_resolve_builder_some_true_titlebar_beats_manifest_false() {
    // An explicit builder `titlebar: Some(true)` must win over a manifest
    // `titlebar: Some(false)` — the builder is highest priority.
    let builder = Some(WindowConfig {
        width: Some(800.0),
        height: Some(600.0),
        title: None,
        titlebar: Some(true),
    });
    let manifest = Some(WindowConfig {
        width: Some(800.0),
        height: Some(600.0),
        title: None,
        titlebar: Some(false),
    });
    let result = resolve_window_config(builder, manifest);
    assert_eq!(result.titlebar, Some(true));
}

#[test]
fn lib_resolve_both_none_gives_all_none() {
    // Defaults (800×600) are applied at window-open time, not here.
    let result: WindowConfig<f32> = resolve_window_config(None, None);
    assert_eq!(result.width, None);
    assert_eq!(result.height, None);
    assert!(result.title.is_none());
    assert!(result.titlebar.is_none());
}

// ---- resolve_window_config — regression tests for builder bugs ----

#[test]
fn lib_resolve_titlebar_only_builder_inherits_manifest_size_and_title() {
    // Bug 1 regression: `.titlebar(false)` alone must NOT fabricate 800×600.
    // Width/height/title should come from the manifest.
    let builder = Some(WindowConfig {
        titlebar: Some(false),
        ..Default::default()
    });
    let manifest = Some(WindowConfig {
        width: Some(1024.0),
        height: Some(768.0),
        title: Some("App".to_string()),
        titlebar: None,
    });
    let result = resolve_window_config(builder, manifest);
    assert_eq!(result.width, Some(1024.0));
    assert_eq!(result.height, Some(768.0));
    assert_eq!(result.title.as_deref(), Some("App"));
    assert_eq!(result.titlebar, Some(false));
}

#[test]
fn builder_titlebar_then_window_size_compose() {
    // `.titlebar(false).window_size(1280.0, 720.0)` — order 1
    let result = Builder::new()
        .titlebar(false)
        .window_size(1280.0, 720.0)
        .options
        .window
        .expect("window override set");
    assert_eq!(result.width, Some(1280.0));
    assert_eq!(result.height, Some(720.0));
    assert_eq!(result.titlebar, Some(false));
}

#[test]
fn builder_window_size_then_titlebar_compose() {
    // `.window_size(1280.0, 720.0).titlebar(false)` — order 2 (must equal order 1)
    let result = Builder::new()
        .window_size(1280.0, 720.0)
        .titlebar(false)
        .options
        .window
        .expect("window override set");
    assert_eq!(result.width, Some(1280.0));
    assert_eq!(result.height, Some(720.0));
    assert_eq!(result.titlebar, Some(false));
}

#[test]
fn builder_window_replaces_earlier_titlebar() {
    // `.titlebar(false).window(cfg)` — `.window()` is a full struct replace.
    let cfg = WindowConfig {
        width: Some(640.0),
        height: Some(480.0),
        ..Default::default()
    };
    let result = Builder::new()
        .titlebar(false)
        .window(cfg)
        .options
        .window
        .expect("window override set");
    // The `.window()` call replaced the entire override, so titlebar is now None.
    assert_eq!(result.width, Some(640.0));
    assert_eq!(result.height, Some(480.0));
    assert_eq!(result.titlebar, None);
}

#[test]
fn builder_collects_plugins_and_components_in_order() {
    let opts = RuntimeBuilder::<f32, u8, char>::new()
        .plugin(1)
        .plugins(vec![2, 3])
        .component('a')
        .components(vec!['b'])
        .options();
    assert_eq!(opts.plugins, vec![1, 2, 3]);
    assert_eq!(opts.components, vec!['a', 'b']);
    assert!(opts.window.is_none());
}

#[test]
fn merge_unset_from_keeps_set_fields() {
    let mut w: WindowConfig<f32> = WindowConfig { width: Some(1.0), height: None, title: Some(String::new()), titlebar: None };
    w.merge_unset_from(WindowConfig { width: Some(2.0), height: Some(3.0), title: Some("x".to_string()), titlebar: Some(true) });
    assert_eq!(w.width, Some(1.0));
    assert_eq!(w.height, Some(3.0));
    assert_eq!(w.title.as_deref(), Some(""));
    assert_eq!(w.titlebar, Some(true));
}
