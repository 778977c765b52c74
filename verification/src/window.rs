//! Windows: what the registry keeps of one, how one is described before it exists, and the
//! handle through which one is driven afterwards.

use vstd::prelude::*;
use vstd::string::*;
use crate::config::{get_verso_devtools_port, get_verso_resource_directory, VersoConfig, VersoConfigView};
use crate::engine::EngineCommand;
use crate::error::Error;
use crate::message::{Message, WindowId};
use crate::text::optional_text;

verus! {

/// What the registry keeps of a live window: its label, the controller of its engine instance
/// and the subscribers to its events. `C` and `L` are shared handles; the registry never looks
/// inside them.
#[derive(Clone, Debug, PartialEq)]
pub struct Window<C, L> {
    pub label: String,
    pub webview: C,
    pub on_window_event_listeners: L,
}

/// Light or dark.
#[derive(Clone, Copy, Debug, PartialEq, Eq, Structural)]
pub enum Theme {
    Light,
    Dark,
}

/// Where a window stands among the others.
#[derive(Clone, Copy, Debug, PartialEq, Eq, Structural)]
pub enum WindowLevel {
    AlwaysOnBottom,
    Normal,
    AlwaysOnTop,
}

/// A window icon: `width * height` pixels of four bytes each.
#[derive(Clone, Debug, PartialEq, Eq)]
pub struct Icon {
    pub rgba: Vec<u8>,
    pub width: u32,
    pub height: u32,
}

/// The level of a window that is, or is not, kept above the others.
pub open spec fn spec_level_for_always_on_top(always_on_top: bool) -> WindowLevel {
    if always_on_top {
        WindowLevel::AlwaysOnTop
    } else {
        WindowLevel::Normal
    }
}

/// The level of a window that is, or is not, kept below the others.
pub open spec fn spec_level_for_always_on_bottom(always_on_bottom: bool) -> WindowLevel {
    if always_on_bottom {
        WindowLevel::AlwaysOnBottom
    } else {
        WindowLevel::Normal
    }
}

/// The level of a window that is, or is not, kept above the others.
pub fn level_for_always_on_top(always_on_top: bool) -> (r: WindowLevel)
    ensures
        r == spec_level_for_always_on_top(always_on_top),
{
    if always_on_top {
        WindowLevel::AlwaysOnTop
    } else {
        WindowLevel::Normal
    }
}

/// The level of a window that is, or is not, kept below the others.
pub fn level_for_always_on_bottom(always_on_bottom: bool) -> (r: WindowLevel)
    ensures
        r == spec_level_for_always_on_bottom(always_on_bottom),
{
    if always_on_bottom {
        WindowLevel::AlwaysOnBottom
    } else {
        WindowLevel::Normal
    }
}

/// What the engine is told when a window is built. A setting that is `None` is left to the
/// engine. `N` is the number type of logical units.
#[derive(Clone, Debug, PartialEq)]
pub struct VersoSettings<N> {
    pub resources_directory: Option<String>,
    pub devtools_port: Option<u16>,
    pub focused: Option<bool>,
    pub fullscreen: Option<bool>,
    pub maximized: Option<bool>,
    pub visible: Option<bool>,
    /// Width and height, in logical units.
    pub inner_size: Option<(N, N)>,
    /// Left and top, in logical units.
    pub position: Option<(N, N)>,
    pub title: Option<String>,
    pub decorated: Option<bool>,
    pub transparent: Option<bool>,
    pub window_level: Option<WindowLevel>,
    pub icon: Option<Icon>,
    pub theme: Option<Theme>,
}

/// The part of the host's window configuration that the engine can express.
#[derive(Clone, Debug, PartialEq)]
pub struct WindowConfig<N> {
    pub focus: bool,
    pub fullscreen: bool,
    pub maximized: bool,
    pub visible: bool,
    pub width: N,
    pub height: N,
    pub title: String,
    pub decorations: bool,
    pub transparent: bool,
    pub x: Option<N>,
    pub y: Option<N>,
}

/// Describes a window that is to be created.
#[derive(Clone, Debug, PartialEq)]
pub struct VersoWindowBuilder<N> {
    pub verso_builder: VersoSettings<N>,
    pub has_icon: bool,
}

/// The position that a configuration asks for: one only where it gives both coordinates.
pub open spec fn spec_configured_position<N>(x: Option<N>, y: Option<N>) -> Option<(N, N)> {
    match (x, y) {
        (Some(x), Some(y)) => Some((x, y)),
        _ => None,
    }
}

impl<N> VersoWindowBuilder<N> {
    /// Whether `self` is what a builder starts as under `config`: decorated, opaque, with the
    /// engine's resources and developer tools as `config` has them, and all else left to the
    /// engine.
    pub open spec fn spec_is_default(self, config: VersoConfigView) -> bool {
        &&& optional_text(self.verso_builder.resources_directory) == config.resource_directory
        &&& self.verso_builder.devtools_port == config.devtools_port
        &&& self.verso_builder.focused is None
        &&& self.verso_builder.fullscreen is None
        &&& self.verso_builder.maximized is None
        &&& self.verso_builder.visible is None
        &&& self.verso_builder.inner_size is None
        &&& self.verso_builder.position is None
        &&& self.verso_builder.title is None
        &&& self.verso_builder.decorated == Some(true)
        &&& self.verso_builder.transparent == Some(false)
        &&& self.verso_builder.window_level is None
        &&& self.verso_builder.icon is None
        &&& self.verso_builder.theme is None
        &&& !self.has_icon
    }

    /// Whether `self` is what a builder starts as under `config` when the host has configured
    /// the window as `window`.
    pub open spec fn spec_is_from_config(
        self,
        config: VersoConfigView,
        window: WindowConfig<N>,
    ) -> bool {
        &&& optional_text(self.verso_builder.resources_directory) == config.resource_directory
        &&& self.verso_builder.devtools_port == config.devtools_port
        &&& self.verso_builder.focused == Some(window.focus)
        &&& self.verso_builder.fullscreen == Some(window.fullscreen)
        &&& self.verso_builder.maximized == Some(window.maximized)
        &&& self.verso_builder.visible == Some(window.visible)
        &&& self.verso_builder.inner_size == Some((window.width, window.height))
        &&& self.verso_builder.position == spec_configured_position(window.x, window.y)
        &&& optional_text(self.verso_builder.title) == Some(window.title@)
        &&& self.verso_builder.decorated == Some(window.decorations)
        &&& self.verso_builder.transparent == Some(window.transparent)
        &&& self.verso_builder.window_level is None
        &&& self.verso_builder.icon is None
        &&& self.verso_builder.theme is None
        &&& !self.has_icon
    }

    /// A builder with the defaults that `config` gives.
    pub fn new(config: &VersoConfig) -> (r: Self)
        ensures
            r.spec_is_default(config@),
    {
        let resources_directory = match get_verso_resource_directory(config) {
            Some(path) => Some(String::from_str(path)),
            None => None,
        };
        VersoWindowBuilder {
            verso_builder: VersoSettings {
                resources_directory,
                devtools_port: get_verso_devtools_port(config),
                focused: None,
                fullscreen: None,
                maximized: None,
                visible: None,
                inner_size: None,
                position: None,
                title: None,
                // Decorated and opaque unless told otherwise, as the host expects of a window.
                decorated: Some(true),
                transparent: Some(false),
                window_level: None,
                icon: None,
                theme: None,
            },
            has_icon: false,
        }
    }
}

impl<N: Copy> VersoWindowBuilder<N> {
    /// A builder for a window that the host has configured as `window`.
    pub fn with_config(config: &VersoConfig, window: &WindowConfig<N>) -> (r: Self)
        ensures
            r.spec_is_from_config(config@, *window),
    {
        let builder = Self::new(config);
        let mut verso_builder = builder.verso_builder;
        verso_builder.focused = Some(window.focus);
        verso_builder.fullscreen = Some(window.fullscreen);
        verso_builder.maximized = Some(window.maximized);
        verso_builder.visible = Some(window.visible);
        verso_builder.inner_size = Some((window.width, window.height));
        verso_builder.title = Some(window.title.clone());
        verso_builder.decorated = Some(window.decorations);
        verso_builder.transparent = Some(window.transparent);
        match (window.x, window.y) {
            (Some(x), Some(y)) => {
                verso_builder.position = Some((x, y));
            },
            _ => {},
        }
        VersoWindowBuilder { verso_builder, has_icon: false }
    }
}

impl<N> VersoWindowBuilder<N> {
    /// Asks for a theme. `None` leaves the choice to the runtime.
    pub fn theme(self, theme: Option<Theme>) -> (r: Self)
        ensures
            r == (VersoWindowBuilder {
                verso_builder: VersoSettings { theme, ..self.verso_builder },
                ..self
            }),
    {
        let mut builder = self;
        builder.verso_builder.theme = theme;
        builder
    }

    /// The theme that was asked for.
    pub fn get_theme(&self) -> (r: Option<Theme>)
        ensures
            r == self.verso_builder.theme,
    {
        self.verso_builder.theme
    }
}

impl<N> VersoWindowBuilder<N> {
    /// Not supported: the builder comes back as it is.
    pub fn center(self) -> (r: Self)
        ensures
            r == self,
    {
        self
    }

    /// Where the window goes: `x` and `y` are in logical units.
    pub fn position(self, x: N, y: N) -> (r: Self)
        ensures
            r == (VersoWindowBuilder {
                verso_builder: VersoSettings { position: Some((x, y)), ..self.verso_builder },
                ..self
            }),
    {
        let mut builder = self;
        builder.verso_builder.position = Some((x, y));
        builder
    }

    /// How large the window's content is: `width` and `height` are in logical units.
    pub fn inner_size(self, width: N, height: N) -> (r: Self)
        ensures
            r == (VersoWindowBuilder {
                verso_builder: VersoSettings {
                    inner_size: Some((width, height)),
                    ..self.verso_builder
                },
                ..self
            }),
    {
        let mut builder = self;
        builder.verso_builder.inner_size = Some((width, height));
        builder
    }

    /// Not supported: the builder comes back as it is.
    pub fn min_inner_size(self, min_width: N, min_height: N) -> (r: Self)
        ensures
            r == self,
    {
        self
    }

    /// Not supported: the builder comes back as it is.
    pub fn max_inner_size(self, max_width: N, max_height: N) -> (r: Self)
        ensures
            r == self,
    {
        self
    }

    /// Not supported: the builder comes back as it is.
    pub fn inner_size_constraints<X>(self, constraints: X) -> (r: Self)
        ensures
            r == self,
    {
        self
    }

    /// Not supported: the builder comes back as it is.
    pub fn resizable(self, resizable: bool) -> (r: Self)
        ensures
            r == self,
    {
        self
    }

    /// Not supported: the builder comes back as it is.
    pub fn maximizable(self, maximizable: bool) -> (r: Self)
        ensures
            r == self,
    {
        self
    }

    /// Not supported: the builder comes back as it is.
    pub fn minimizable(self, minimizable: bool) -> (r: Self)
        ensures
            r == self,
    {
        self
    }

    /// Not supported: the builder comes back as it is.
    pub fn closable(self, closable: bool) -> (r: Self)
        ensures
            r == self,
    {
        self
    }

    /// The window's title.
    pub fn title(self, title: String) -> (r: Self)
        ensures
            r == (VersoWindowBuilder {
                verso_builder: VersoSettings { title: Some(title), ..self.verso_builder },
                ..self
            }),
    {
        let mut builder = self;
        builder.verso_builder.title = Some(title);
        builder
    }

    /// Whether the window starts in full screen.
    pub fn fullscreen(self, fullscreen: bool) -> (r: Self)
        ensures
            r == (VersoWindowBuilder {
                verso_builder: VersoSettings { fullscreen: Some(fullscreen), ..self.verso_builder },
                ..self
            }),
    {
        let mut builder = self;
        builder.verso_builder.fullscreen = Some(fullscreen);
        builder
    }

    /// Whether the window starts with the focus.
    pub fn focused(self, focused: bool) -> (r: Self)
        ensures
            r == (VersoWindowBuilder {
                verso_builder: VersoSettings { focused: Some(focused), ..self.verso_builder },
                ..self
            }),
    {
        let mut builder = self;
        builder.verso_builder.focused = Some(focused);
        builder
    }

    /// Whether the window starts maximized.
    pub fn maximized(self, maximized: bool) -> (r: Self)
        ensures
            r == (VersoWindowBuilder {
                verso_builder: VersoSettings { maximized: Some(maximized), ..self.verso_builder },
                ..self
            }),
    {
        let mut builder = self;
        builder.verso_builder.maximized = Some(maximized);
        builder
    }

    /// Whether the window starts visible.
    pub fn visible(self, visible: bool) -> (r: Self)
        ensures
            r == (VersoWindowBuilder {
                verso_builder: VersoSettings { visible: Some(visible), ..self.verso_builder },
                ..self
            }),
    {
        let mut builder = self;
        builder.verso_builder.visible = Some(visible);
        builder
    }

    /// Whether the window has a frame and a title bar.
    pub fn decorations(self, decorations: bool) -> (r: Self)
        ensures
            r == (VersoWindowBuilder {
                verso_builder: VersoSettings { decorated: Some(decorations), ..self.verso_builder },
                ..self
            }),
    {
        let mut builder = self;
        builder.verso_builder.decorated = Some(decorations);
        builder
    }

    /// Whether the window stays below all others.
    pub fn always_on_bottom(self, always_on_bottom: bool) -> (r: Self)
        ensures
            r == (VersoWindowBuilder {
                verso_builder: VersoSettings {
                    window_level: Some(spec_level_for_always_on_bottom(always_on_bottom)),
                    ..self.verso_builder
                },
                ..self
            }),
    {
        let mut builder = self;
        builder.verso_builder.window_level = Some(level_for_always_on_bottom(always_on_bottom));
        builder
    }

    /// Whether the window stays above all others.
    pub fn always_on_top(self, always_on_top: bool) -> (r: Self)
        ensures
            r == (VersoWindowBuilder {
                verso_builder: VersoSettings {
                    window_level: Some(spec_level_for_always_on_top(always_on_top)),
                    ..self.verso_builder
                },
                ..self
            }),
    {
        let mut builder = self;
        builder.verso_builder.window_level = Some(level_for_always_on_top(always_on_top));
        builder
    }

    /// Not supported: the builder comes back as it is.
    pub fn visible_on_all_workspaces(self, visible_on_all_workspaces: bool) -> (r: Self)
        ensures
            r == self,
    {
        self
    }

    /// Not supported: the builder comes back as it is.
    pub fn content_protected(self, protected: bool) -> (r: Self)
        ensures
            r == self,
    {
        self
    }

    /// The window's icon.
    pub fn icon(self, icon: Icon) -> (r: Result<Self, Error>)
        ensures
            r == Ok::<Self, Error>(
                VersoWindowBuilder {
                    verso_builder: VersoSettings { icon: Some(icon), ..self.verso_builder },
                    has_icon: true,
                },
            ),
    {
        let mut builder = self;
        builder.verso_builder.icon = Some(icon);
        builder.has_icon = true;
        Ok(builder)
    }

    /// Not supported: the builder comes back as it is.
    pub fn skip_taskbar(self, skip: bool) -> (r: Self)
        ensures
            r == self,
    {
        self
    }

    /// Not supported: the builder comes back as it is.
    pub fn window_classname(self, classname: String) -> (r: Self)
        ensures
            r == self,
    {
        self
    }

    /// Not supported: the builder comes back as it is.
    pub fn shadow(self, enable: bool) -> (r: Self)
        ensures
            r == self,
    {
        self
    }

    /// Not supported: the builder comes back as it is.
    pub fn parent<X>(self, parent: X) -> (r: Self)
        ensures
            r == self,
    {
        self
    }

    /// Not supported: the builder comes back as it is.
    pub fn transient_for<X>(self, parent: X) -> (r: Self)
        ensures
            r == self,
    {
        self
    }

    /// Not supported: the builder comes back as it is.
    pub fn drag_and_drop(self, enabled: bool) -> (r: Self)
        ensures
            r == self,
    {
        self
    }

    /// Not supported: the builder comes back as it is.
    pub fn title_bar_style<X>(self, style: X) -> (r: Self)
        ensures
            r == self,
    {
        self
    }

    /// Not supported: the builder comes back as it is.
    pub fn hidden_title(self, hidden: bool) -> (r: Self)
        ensures
            r == self,
    {
        self
    }

    /// Not supported: the builder comes back as it is.
    pub fn tabbing_identifier(self, identifier: &str) -> (r: Self)
        ensures
            r == self,
    {
        self
    }

    /// Not supported: the builder comes back as it is.
    pub fn traffic_light_position<X>(self, position: X) -> (r: Self)
        ensures
            r == self,
    {
        self
    }

    /// Whether an icon was given.
    pub fn has_icon(&self) -> (r: bool)
        ensures
            r == self.has_icon,
    {
        self.has_icon
    }

    /// Not supported: the builder comes back as it is.
    pub fn background_color<X>(self, color: X) -> (r: Self)
        ensures
            r == self,
    {
        self
    }

    /// Not supported: the builder comes back as it is.
    pub fn owner<X>(self, owner: X) -> (r: Self)
        ensures
            r == self,
    {
        self
    }

    /// Whether the window's background lets through what is behind it.
    pub fn transparent(self, transparent: bool) -> (r: Self)
        ensures
            r == (VersoWindowBuilder {
                verso_builder: VersoSettings { transparent: Some(transparent), ..self.verso_builder },
                ..self
            }),
    {
        let mut builder = self;
        builder.verso_builder.transparent = Some(transparent);
        builder
    }

    /// Not supported: the builder comes back as it is.
    pub fn prevent_overflow(self) -> (r: Self)
        ensures
            r == self,
    {
        self
    }

    /// Not supported: the builder comes back as it is.
    pub fn prevent_overflow_with_margin<X>(self, margin: X) -> (r: Self)
        ensures
            r == self,
    {
        self
    }
}

/// The handle through which a window is driven once it exists. It holds the window's
/// identifier and shares the engine's controller and the window's subscribers with the registry.
#[derive(Clone, Debug, PartialEq)]
pub struct VersoWindowDispatcher<C, L> {
    pub id: WindowId,
    pub webview: C,
    pub on_window_event_listeners: L,
}

impl<C, L> VersoWindowDispatcher<C, L> {
    /// The command that asks to close this window. Subscribers and the host may object.
    pub fn close<F, G, T>(&self) -> (r: Message<F, G, T>)
        ensures
            r == Message::<F, G, T>::CloseWindow(self.id),
    {
        Message::CloseWindow(self.id)
    }

    /// The command that closes this window without asking.
    pub fn destroy<F, G, T>(&self) -> (r: Message<F, G, T>)
        ensures
            r == Message::<F, G, T>::DestroyWindow(self.id),
    {
        Message::DestroyWindow(self.id)
    }

    /// Not supported: the answer is always no.
    pub fn is_focused(&self) -> (r: Result<bool, Error>)
        ensures
            r == Ok::<bool, Error>(false),
    {
        Ok(false)
    }

    /// Not supported: the answer is always no.
    pub fn is_decorated(&self) -> (r: Result<bool, Error>)
        ensures
            r == Ok::<bool, Error>(false),
    {
        Ok(false)
    }

    /// Not supported: the answer is always yes.
    pub fn is_resizable(&self) -> (r: Result<bool, Error>)
        ensures
            r == Ok::<bool, Error>(true),
    {
        Ok(true)
    }

    /// Not supported: the answer is always yes.
    pub fn is_maximizable(&self) -> (r: Result<bool, Error>)
        ensures
            r == Ok::<bool, Error>(true),
    {
        Ok(true)
    }

    /// Not supported: the answer is always yes.
    pub fn is_minimizable(&self) -> (r: Result<bool, Error>)
        ensures
            r == Ok::<bool, Error>(true),
    {
        Ok(true)
    }

    /// Not supported: the answer is always yes.
    pub fn is_closable(&self) -> (r: Result<bool, Error>)
        ensures
            r == Ok::<bool, Error>(true),
    {
        Ok(true)
    }

    /// Not supported: no monitor is ever reported.
    pub fn current_monitor<M>(&self) -> (r: Result<Option<M>, Error>)
        ensures
            r == Ok::<Option<M>, Error>(None),
    {
        Ok(None)
    }

    /// Not supported: the answer is always the light theme.
    pub fn theme(&self) -> (r: Result<Theme, Error>)
        ensures
            r == Ok::<Theme, Error>(Theme::Light),
    {
        Ok(Theme::Light)
    }

    /// Not supported: nothing happens.
    pub fn center(&self) -> (r: Result<(), Error>)
        ensures
            r == Ok::<(), Error>(()),
    {
        Ok(())
    }

    /// Not supported: nothing happens.
    pub fn request_user_attention<X>(&self, request_type: Option<X>) -> (r: Result<(), Error>)
        ensures
            r == Ok::<(), Error>(()),
    {
        Ok(())
    }

    /// A webview cannot be created apart from its window.
    pub fn create_webview(&self) -> (r: Result<(), Error>)
        ensures
            r == Err::<(), Error>(Error::CreateWindow),
    {
        Err(Error::CreateWindow)
    }

    /// Not supported: nothing happens.
    pub fn set_resizable(&self, resizable: bool) -> (r: Result<(), Error>)
        ensures
            r == Ok::<(), Error>(()),
    {
        Ok(())
    }

    /// Not supported: nothing happens.
    pub fn set_maximizable(&self, maximizable: bool) -> (r: Result<(), Error>)
        ensures
            r == Ok::<(), Error>(()),
    {
        Ok(())
    }

    /// Not supported: nothing happens.
    pub fn set_minimizable(&self, minimizable: bool) -> (r: Result<(), Error>)
        ensures
            r == Ok::<(), Error>(()),
    {
        Ok(())
    }

    /// Not supported: nothing happens.
    pub fn set_closable(&self, closable: bool) -> (r: Result<(), Error>)
        ensures
            r == Ok::<(), Error>(()),
    {
        Ok(())
    }

    /// Sets the window's title.
    pub fn set_title(&self, title: String) -> (r: EngineCommand)
        ensures
            r == EngineCommand::SetTitle(title),
    {
        EngineCommand::SetTitle(title)
    }

    /// Maximizes the window.
    pub fn maximize(&self) -> (r: EngineCommand)
        ensures
            r == EngineCommand::SetMaximized(true),
    {
        EngineCommand::SetMaximized(true)
    }

    /// Takes the window back from its maximized state.
    pub fn unmaximize(&self) -> (r: EngineCommand)
        ensures
            r == EngineCommand::SetMaximized(false),
    {
        EngineCommand::SetMaximized(false)
    }

    /// Minimizes the window.
    pub fn minimize(&self) -> (r: EngineCommand)
        ensures
            r == EngineCommand::SetMinimized(true),
    {
        EngineCommand::SetMinimized(true)
    }

    /// Takes the window back from its minimized state.
    pub fn unminimize(&self) -> (r: EngineCommand)
        ensures
            r == EngineCommand::SetMinimized(false),
    {
        EngineCommand::SetMinimized(false)
    }

    /// Shows the window.
    pub fn show(&self) -> (r: EngineCommand)
        ensures
            r == EngineCommand::SetVisible(true),
    {
        EngineCommand::SetVisible(true)
    }

    /// Hides the window.
    pub fn hide_window(&self) -> (r: EngineCommand)
        ensures
            r == EngineCommand::SetVisible(false),
    {
        EngineCommand::SetVisible(false)
    }

    /// Not supported: nothing happens.
    pub fn set_decorations(&self, decorations: bool) -> (r: Result<(), Error>)
        ensures
            r == Ok::<(), Error>(()),
    {
        Ok(())
    }

    /// Not supported: nothing happens.
    pub fn set_shadow(&self, shadow: bool) -> (r: Result<(), Error>)
        ensures
            r == Ok::<(), Error>(()),
    {
        Ok(())
    }

    /// Keeps the window below all others, or lets it go back among them.
    pub fn set_always_on_bottom(&self, always_on_bottom: bool) -> (r: EngineCommand)
        ensures
            r == EngineCommand::SetWindowLevel(spec_level_for_always_on_bottom(always_on_bottom)),
    {
        EngineCommand::SetWindowLevel(level_for_always_on_bottom(always_on_bottom))
    }

    /// Keeps the window above all others, or lets it go back among them.
    pub fn set_always_on_top(&self, always_on_top: bool) -> (r: EngineCommand)
        ensures
            r == EngineCommand::SetWindowLevel(spec_level_for_always_on_top(always_on_top)),
    {
        EngineCommand::SetWindowLevel(level_for_always_on_top(always_on_top))
    }

    /// Not supported: nothing happens.
    pub fn set_visible_on_all_workspaces(&self, visible_on_all_workspaces: bool) -> (r: Result<(), Error>)
        ensures
            r == Ok::<(), Error>(()),
    {
        Ok(())
    }

    /// Not supported: nothing happens.
    pub fn set_content_protected(&self, protected: bool) -> (r: Result<(), Error>)
        ensures
            r == Ok::<(), Error>(()),
    {
        Ok(())
    }

    /// Not supported: nothing happens.
    pub fn set_min_size<X>(&self, size: Option<X>) -> (r: Result<(), Error>)
        ensures
            r == Ok::<(), Error>(()),
    {
        Ok(())
    }

    /// Not supported: nothing happens.
    pub fn set_max_size<X>(&self, size: Option<X>) -> (r: Result<(), Error>)
        ensures
            r == Ok::<(), Error>(()),
    {
        Ok(())
    }

    /// Puts the window into full screen or takes it out.
    pub fn set_fullscreen(&self, fullscreen: bool) -> (r: EngineCommand)
        ensures
            r == EngineCommand::SetFullscreen(fullscreen),
    {
        EngineCommand::SetFullscreen(fullscreen)
    }

    /// Gives the window the focus.
    pub fn set_focus(&self) -> (r: EngineCommand)
        ensures
            r == EngineCommand::Focus,
    {
        EngineCommand::Focus
    }

    /// Not supported: nothing happens.
    pub fn set_icon(&self, icon: Icon) -> (r: Result<(), Error>)
        ensures
            r == Ok::<(), Error>(()),
    {
        Ok(())
    }

    /// Not supported: nothing happens.
    pub fn set_skip_taskbar(&self, skip: bool) -> (r: Result<(), Error>)
        ensures
            r == Ok::<(), Error>(()),
    {
        Ok(())
    }

    /// Not supported: nothing happens.
    pub fn set_cursor_grab(&self, grab: bool) -> (r: Result<(), Error>)
        ensures
            r == Ok::<(), Error>(()),
    {
        Ok(())
    }

    /// Not supported: nothing happens.
    pub fn set_cursor_visible(&self, visible: bool) -> (r: Result<(), Error>)
        ensures
            r == Ok::<(), Error>(()),
    {
        Ok(())
    }

    /// Not supported: nothing happens.
    pub fn set_cursor_icon<X>(&self, icon: X) -> (r: Result<(), Error>)
        ensures
            r == Ok::<(), Error>(()),
    {
        Ok(())
    }

    /// Not supported: nothing happens.
    pub fn set_cursor_position<X>(&self, position: X) -> (r: Result<(), Error>)
        ensures
            r == Ok::<(), Error>(()),
    {
        Ok(())
    }

    /// Not supported: nothing happens.
    pub fn set_ignore_cursor_events(&self, ignore: bool) -> (r: Result<(), Error>)
        ensures
            r == Ok::<(), Error>(()),
    {
        Ok(())
    }

    /// Starts dragging the window with the pointer.
    pub fn start_dragging(&self) -> (r: EngineCommand)
        ensures
            r == EngineCommand::StartDragging,
    {
        EngineCommand::StartDragging
    }

    /// Not supported: nothing happens.
    pub fn start_resize_dragging<X>(&self, direction: X) -> (r: Result<(), Error>)
        ensures
            r == Ok::<(), Error>(()),
    {
        Ok(())
    }

    /// Not supported: nothing happens.
    pub fn set_progress_bar<X>(&self, progress_state: X) -> (r: Result<(), Error>)
        ensures
            r == Ok::<(), Error>(()),
    {
        Ok(())
    }

    /// Not supported: nothing happens.
    pub fn set_badge_count(&self, count: Option<i64>, desktop_filename: Option<String>) -> (r: Result<(), Error>)
        ensures
            r == Ok::<(), Error>(()),
    {
        Ok(())
    }

    /// Not supported: nothing happens.
    pub fn set_badge_label(&self, label: Option<String>) -> (r: Result<(), Error>)
        ensures
            r == Ok::<(), Error>(()),
    {
        Ok(())
    }

    /// Not supported: nothing happens.
    pub fn set_overlay_icon(&self, icon: Option<Icon>) -> (r: Result<(), Error>)
        ensures
            r == Ok::<(), Error>(()),
    {
        Ok(())
    }

    /// Not supported: nothing happens.
    pub fn set_title_bar_style<X>(&self, style: X) -> (r: Result<(), Error>)
        ensures
            r == Ok::<(), Error>(()),
    {
        Ok(())
    }

    /// Not supported: nothing happens.
    pub fn set_size_constraints<X>(&self, constraints: X) -> (r: Result<(), Error>)
        ensures
            r == Ok::<(), Error>(()),
    {
        Ok(())
    }

    /// Not supported: nothing happens.
    pub fn set_theme(&self, theme: Option<Theme>) -> (r: Result<(), Error>)
        ensures
            r == Ok::<(), Error>(()),
    {
        Ok(())
    }

    /// Not supported: nothing happens.
    pub fn set_enabled(&self, enabled: bool) -> (r: Result<(), Error>)
        ensures
            r == Ok::<(), Error>(()),
    {
        Ok(())
    }

    /// Not supported: the answer is always yes.
    pub fn is_enabled(&self) -> (r: Result<bool, Error>)
        ensures
            r == Ok::<bool, Error>(true),
    {
        Ok(true)
    }

    /// Not supported: nothing happens.
    pub fn set_background_color<X>(&self, color: Option<X>) -> (r: Result<(), Error>)
        ensures
            r == Ok::<(), Error>(()),
    {
        Ok(())
    }

    /// Not supported: the answer is always no.
    pub fn is_always_on_top(&self) -> (r: Result<bool, Error>)
        ensures
            r == Ok::<bool, Error>(false),
    {
        Ok(false)
    }

    /// Not supported: nothing happens.
    pub fn set_traffic_light_position<X>(&self, position: X) -> (r: Result<(), Error>)
        ensures
            r == Ok::<(), Error>(()),
    {
        Ok(())
    }
}

} // verus!
