//! Window settings and the runtime builder: the window-creation parameters,
//! merged field by field (builder, then bundle manifest, then the defaults
//! applied when the window opens), and the builder that collects them along
//! with the plugins and native components. `D` is the type of a window
//! dimension. The runtime settings come from the bundle manifest, a JSON text.

use vstd::prelude::*;

use crate::build_config::opt_text;
use crate::json::{
    bool_at, bool_at_path, json_clone, lemma_member_at_single, json_member, json_parse, keys_view, lookup, parse_json, str_at,
    string_at,
};

verus! {

/// Window creation parameters; `None` leaves a field unspecified.
/// `Some(String::new())` forces a blank title; `Some(false)` hides the titlebar.
#[derive(Debug, Clone)]
pub struct WindowConfig<D> {
    pub width: Option<D>,
    pub height: Option<D>,
    pub title: Option<String>,
    pub titlebar: Option<bool>,
}

/// `a`, else `b`.
pub open spec fn or_else<T>(a: Option<T>, b: Option<T>) -> Option<T> {
    match a {
        Some(x) => Some(x),
        None => b,
    }
}

/// The title as plain characters.
pub open spec fn title_view(t: Option<String>) -> Option<Seq<char>> {
    match t {
        Some(s) => Some(s@),
        None => None,
    }
}

/// The window override, or an all-unset one.
pub open spec fn override_or_unset<D>(w: Option<WindowConfig<D>>) -> WindowConfig<D> {
    match w {
        Some(w) => w,
        None => WindowConfig { width: None, height: None, title: None, titlebar: None },
    }
}

/// The window override after `window_size(width, height)`.
pub open spec fn with_size<D>(w: Option<WindowConfig<D>>, width: D, height: D) -> Option<WindowConfig<D>> {
    Some(WindowConfig { width: Some(width), height: Some(height), ..override_or_unset(w) })
}

/// The window override after `titlebar(visible)`.
pub open spec fn with_titlebar<D>(w: Option<WindowConfig<D>>, visible: bool) -> Option<WindowConfig<D>> {
    Some(WindowConfig { titlebar: Some(visible), ..override_or_unset(w) })
}

impl<D> WindowConfig<D> {
    /// Every field unspecified.
    pub fn unset() -> (r: Self)
        ensures
            r.width is None,
            r.height is None,
            r.title is None,
            r.titlebar is None,
    {
        WindowConfig { width: None, height: None, title: None, titlebar: None }
    }

    /// Fill every unset field from `other`.
    pub fn merge_unset_from(&mut self, other: WindowConfig<D>)
        ensures
            final(self).width == or_else(old(self).width, other.width),
            final(self).height == or_else(old(self).height, other.height),
            title_view(final(self).title) == or_else(title_view(old(self).title), title_view(other.title)),
            final(self).titlebar == or_else(old(self).titlebar, other.titlebar),
    {
        let WindowConfig { width, height, title, titlebar } = other;
        if self.width.is_none() {
            self.width = width;
        }
        if self.height.is_none() {
            self.height = height;
        }
        if self.title.is_none() {
            self.title = title;
        }
        if self.titlebar.is_none() {
            self.titlebar = titlebar;
        }
    }
}

impl<D> Default for WindowConfig<D> {
    fn default() -> (r: Self)
        ensures
            r.width is None,
            r.height is None,
            r.title is None,
            r.titlebar is None,
    {
        WindowConfig::unset()
    }
}

/// Merge the builder's and the manifest's window settings field by field:
/// the builder wins, the manifest fills what it left unset, and what both
/// leave unset stays unset (the defaults come at window-open time).
pub fn resolve_window_config<D>(builder: Option<WindowConfig<D>>, manifest: Option<WindowConfig<D>>) -> (r:
    WindowConfig<D>)
    ensures
        ({
            let b = match builder {
                Some(b) => b,
                None => WindowConfig { width: None, height: None, title: None, titlebar: None },
            };
            let m = match manifest {
                Some(m) => m,
                None => WindowConfig { width: None, height: None, title: None, titlebar: None },
            };
            &&& r.width == or_else(b.width, m.width)
            &&& r.height == or_else(b.height, m.height)
            &&& title_view(r.title) == or_else(title_view(b.title), title_view(m.title))
            &&& r.titlebar == or_else(b.titlebar, m.titlebar)
        }),
{
    let mut cfg = match builder {
        Some(b) => b,
        None => WindowConfig::unset(),
    };
    if let Some(m) = manifest {
        cfg.merge_unset_from(m);
    }
    cfg
}

/// What the runtime is started with: the window override, the plugins and
/// the native components.
pub struct RuntimeOptions<D, P, C> {
    /// Window override; `None` falls back to the manifest, then to defaults.
    pub window: Option<WindowConfig<D>>,
    pub plugins: Vec<P>,
    pub components: Vec<C>,
}

/// Builder for [`RuntimeOptions`].
pub struct RuntimeBuilder<D, P, C> {
    pub options: RuntimeOptions<D, P, C>,
}

impl<D, P, C> RuntimeBuilder<D, P, C> {
    pub fn new() -> (r: Self)
        ensures
            r.options.window is None,
            r.options.plugins@ == Seq::<P>::empty(),
            r.options.components@ == Seq::<C>::empty(),
    {
        RuntimeBuilder {
            options: RuntimeOptions { window: None, plugins: Vec::new(), components: Vec::new() },
        }
    }

    /// Replace the whole window override, discarding earlier `window_size` /
    /// `titlebar` calls.
    pub fn window(self, window: WindowConfig<D>) -> (r: Self)
        ensures
            r.options.window == Some(window),
            r.options.plugins == self.options.plugins,
            r.options.components == self.options.components,
    {
        let mut b = self;
        b.options.window = Some(window);
        b
    }

    /// The window override so far (all unset when there is none).
    fn take_window(&mut self) -> (r: WindowConfig<D>)
        ensures
            final(self).options.window is None,
            final(self).options.plugins == old(self).options.plugins,
            final(self).options.components == old(self).options.components,
            r == override_or_unset(old(self).options.window),
    {
        match self.options.window.take() {
            Some(w) => w,
            None => WindowConfig::unset(),
        }
    }

    /// Override width and height only; composes with `titlebar` in any order.
    pub fn window_size(self, width: D, height: D) -> (r: Self)
        ensures
            r.options.window == with_size(self.options.window, width, height),
            r.options.plugins == self.options.plugins,
            r.options.components == self.options.components,
    {
        let mut b = self;
        let mut w = b.take_window();
        w.width = Some(width);
        w.height = Some(height);
        b.options.window = Some(w);
        b
    }

    /// Override the titlebar visibility only (`false`: custom titlebar);
    /// composes with `window_size` in any order.
    pub fn titlebar(self, visible: bool) -> (r: Self)
        ensures
            r.options.window == with_titlebar(self.options.window, visible),
            r.options.plugins == self.options.plugins,
            r.options.components == self.options.components,
    {
        let mut b = self;
        let mut w = b.take_window();
        w.titlebar = Some(visible);
        b.options.window = Some(w);
        b
    }

    pub fn plugin(self, plugin: P) -> (r: Self)
        ensures
            r.options.plugins@ == self.options.plugins@.push(plugin),
            r.options.window == self.options.window,
            r.options.components == self.options.components,
    {
        let mut b = self;
        b.options.plugins.push(plugin);
        b
    }

    pub fn plugins(self, plugins: Vec<P>) -> (r: Self)
        ensures
            r.options.plugins@ == self.options.plugins@ + plugins@,
            r.options.window == self.options.window,
            r.options.components == self.options.components,
    {
        let mut b = self;
        let mut more = plugins;
        b.options.plugins.append(&mut more);
        b
    }

    pub fn component(self, component: C) -> (r: Self)
        ensures
            r.options.components@ == self.options.components@.push(component),
            r.options.window == self.options.window,
            r.options.plugins == self.options.plugins,
    {
        let mut b = self;
        b.options.components.push(component);
        b
    }

    pub fn components(self, components: Vec<C>) -> (r: Self)
        ensures
            r.options.components@ == self.options.components@ + components@,
            r.options.window == self.options.window,
            r.options.plugins == self.options.plugins,
    {
        let mut b = self;
        let mut more = components;
        b.options.components.append(&mut more);
        b
    }

    pub fn options(self) -> (r: RuntimeOptions<D, P, C>)
        ensures
            r == self.options,
    {
        self.options
    }
}

/// `window_size` and `titlebar` compose in either order to the same window
/// override.
pub proof fn lemma_window_setters_commute<D>(w: Option<WindowConfig<D>>, width: D, height: D, visible: bool)
    ensures
        with_titlebar(with_size(w, width, height), visible) == with_size(
            with_titlebar(w, visible),
            width,
            height,
        ),
{
}

/// The window part of the bundle manifest. The dimensions are the raw JSON
/// values; the renderer keeps those that are positive finite numbers.
pub struct ManifestWindow {
    pub width: Option<serde_json::Value>,
    pub height: Option<serde_json::Value>,
    pub title: Option<String>,
    pub titlebar: Option<bool>,
}

/// The runtime settings of the bundle manifest.
pub struct ManifestFields {
    /// Dist-root-relative path of the JS entry file.
    pub entry: Option<String>,
    /// Present when the manifest has a `window` member.
    pub window: Option<ManifestWindow>,
    /// Dist-root-relative path of the window icon.
    pub icon: Option<String>,
}

/// The settings of a manifest text: `None` when it is no JSON text;
/// otherwise the string `entry` and `icon`, and, when there is a `window`
/// member, its `width` and `height` members, string `title` and boolean
/// `titlebar`.
pub fn manifest_fields(json: &str) -> (r: Option<ManifestFields>)
    ensures
        match json_parse(json@) {
            None => r is None,
            Some(v) => r matches Some(m) && opt_text(m.entry) == str_at(v, seq!["entry"@]) && opt_text(m.icon)
                == str_at(v, seq!["icon"@]) && match json_member(v, "window"@) {
                None => m.window is None,
                Some(w) => m.window matches Some(mw) && mw.width == json_member(w, "width"@) && mw.height
                    == json_member(w, "height"@) && opt_text(mw.title) == str_at(w, seq!["title"@])
                    && mw.titlebar == bool_at(w, seq!["titlebar"@]),
            },
        },
{
    let v = match parse_json(json) {
        Some(v) => v,
        None => {
            return None;
        },
    };
    let entry_path: [&str; 1] = ["entry"];
    let icon_path: [&str; 1] = ["icon"];
    let window_path: [&str; 1] = ["window"];
    let width_path: [&str; 1] = ["width"];
    let height_path: [&str; 1] = ["height"];
    let title_path: [&str; 1] = ["title"];
    let titlebar_path: [&str; 1] = ["titlebar"];
    proof {
        assert(keys_view(entry_path@) =~= seq!["entry"@]);
        assert(keys_view(icon_path@) =~= seq!["icon"@]);
        assert(keys_view(window_path@) =~= seq!["window"@]);
        assert(keys_view(width_path@) =~= seq!["width"@]);
        assert(keys_view(height_path@) =~= seq!["height"@]);
        assert(keys_view(title_path@) =~= seq!["title"@]);
        assert(keys_view(titlebar_path@) =~= seq!["titlebar"@]);
        lemma_member_at_single(v, "window"@);
    }
    let window = match lookup(&v, &window_path) {
        Some(w) => {
            proof {
                lemma_member_at_single(*w, "width"@);
                lemma_member_at_single(*w, "height"@);
            }
            Some(
            ManifestWindow {
                width: match lookup(w, &width_path) {
                    Some(x) => Some(json_clone(x)),
                    None => None,
                },
                height: match lookup(w, &height_path) {
                    Some(x) => Some(json_clone(x)),
                    None => None,
                },
                title: string_at(w, &title_path),
                titlebar: bool_at_path(w, &titlebar_path),
            },
        )
        },
        None => None,
    };
    Some(ManifestFields { entry: string_at(&v, &entry_path), window, icon: string_at(&v, &icon_path) })
}

} // verus!
