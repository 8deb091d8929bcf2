use gluxe::build_config::{
    build_config_from_json, format_build_command, icon_resource_script, is_ico_extension, BuildConfig,
};

fn config(command: Option<&str>, args: Option<Vec<&str>>) -> BuildConfig {
    BuildConfig {
        bundle_out_dir: "dist".to_string(),
        bundle_build_command: command.map(str::to_string),
        bundle_build_args: args.map(|a| a.into_iter().map(str::to_string).collect()),
        icon: None,
    }
}

#[test]
fn build_command_defaults_independently() {
    assert_eq!(format_build_command(&config(None, None)), "npm run build");
    assert_eq!(format_build_command(&config(Some("pnpm"), None)), "pnpm run build");
    assert_eq!(format_build_command(&config(None, Some(vec!["build"]))), "npm build");
    assert_eq!(format_build_command(&config(Some("bun"), Some(vec![]))), "bun");
    assert_eq!(format_build_command(&config(Some("yarn"), Some(vec!["vite", "build"]))), "yarn vite build");
}

#[test]
fn icon_resource_script_doubles_backslashes() {
    assert_eq!(icon_resource_script("C:\\app\\icon.ico"), "1 ICON \"C:\\\\app\\\\icon.ico\"\n");
    assert_eq!(icon_resource_script("icon.ico"), "1 ICON \"icon.ico\"\n");
}

#[test]
fn ico_extension_ignores_case() {
    assert!(is_ico_extension(Some("ico")));
    assert!(is_ico_extension(Some("ICO")));
    assert!(!is_ico_extension(Some("png")));
    assert!(!is_ico_extension(None));
}

#[test]
fn app_json_fields_are_read() {
    let c = build_config_from_json(
        r#"{"icon":"icons/app.ico","bundle":{"outDir":"out","build":{"command":"pnpm","args":["build",3,"--x"]}}}"#,
    );
    assert_eq!(c.bundle_out_dir, "out");
    assert_eq!(c.bundle_build_command.as_deref(), Some("pnpm"));
    assert_eq!(c.bundle_build_args, Some(vec!["build".to_string(), "--x".to_string()]));
    assert_eq!(c.icon.as_deref(), Some("icons/app.ico"));
}

#[test]
fn app_json_defaults() {
    let c = build_config_from_json("not json");
    assert_eq!(c.bundle_out_dir, "dist");
    assert_eq!(c.bundle_build_command, None);
    assert_eq!(c.bundle_build_args, None);
    assert_eq!(c.icon, None);
    let c = build_config_from_json(r#"{"bundle":{"outDir":5,"build":{"args":"x"}}}"#);
    assert_eq!(c.bundle_out_dir, "dist");
    assert_eq!(c.bundle_build_args, None);
}
