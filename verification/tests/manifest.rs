use gluxe::config::manifest_fields;
use gluxe::window_icon::decode_window_icon;

#[test]
fn manifest_with_window_and_icon() {
    let m = manifest_fields(
        r#"{"version":1,"entry":"assets/index.js","icon":"a.ico","window":{"width":1024,"height":-1,"title":"My App","titlebar":false}}"#,
    )
    .unwrap();
    assert_eq!(m.entry.as_deref(), Some("assets/index.js"));
    assert_eq!(m.icon.as_deref(), Some("a.ico"));
    let w = m.window.unwrap();
    assert_eq!(w.width.and_then(|v| v.as_f64()), Some(1024.0));
    assert_eq!(w.height.and_then(|v| v.as_f64()), Some(-1.0));
    assert_eq!(w.title.as_deref(), Some("My App"));
    assert_eq!(w.titlebar, Some(false));
}

#[test]
fn manifest_without_window_or_with_wrong_types() {
    let m = manifest_fields(r#"{"entry":3,"icon":true}"#).unwrap();
    assert!(m.entry.is_none() && m.icon.is_none() && m.window.is_none());
    let m = manifest_fields(r#"{"window":{"title":7,"titlebar":"no"}}"#).unwrap();
    let w = m.window.unwrap();
    assert!(w.title.is_none() && w.titlebar.is_none() && w.width.is_none());
    assert!(manifest_fields("{broken").is_none());
}

#[test]
fn window_icon_decodes_an_ico() {
    let img = image::RgbaImage::from_raw(2, 1, vec![255, 0, 0, 255, 0, 0, 255, 128]).unwrap();
    let mut bytes = Vec::new();
    image::DynamicImage::ImageRgba8(img)
        .write_to(&mut std::io::Cursor::new(&mut bytes), image::ImageFormat::Ico)
        .unwrap();
    let icon = decode_window_icon(&bytes).unwrap();
    assert_eq!((icon.width, icon.height), (2, 1));
    assert_eq!(icon.rgba, vec![255, 0, 0, 255, 0, 0, 255, 128]);
    assert!(decode_window_icon(b"not an icon").is_err());
}
