//! The window-configuration record and its conversion to a builder
//! descriptor.

use vstd::prelude::*;
use vstd::string::StringExecFns;

use crate::monitor::{MonitorHandle, MonitorIdent, MonitorIdentView, MonitorsAccess};

verus! {

/// Window-creation preferences: an immutable-once-built value record. Every
/// field is independently defaulted; no cross-field validation is performed
/// (`min_dimensions` may exceed `max_dimensions` without error).
#[derive(Clone, Debug, PartialEq, Eq)]
pub struct DisplayConfig {
    /// Name of the application window.
    pub title: String,
    /// Enables fullscreen mode on a specific monitor when set.
    /// `None` means fullscreen is off.
    pub fullscreen: Option<MonitorIdent>,
    /// Initial window dimensions, measured in pixels (px).
    pub dimensions: Option<(u32, u32)>,
    /// Minimum window dimensions, measured in pixels (px).
    pub min_dimensions: Option<(u32, u32)>,
    /// Maximum window dimensions, measured in pixels (px).
    pub max_dimensions: Option<(u32, u32)>,
    /// Whether the window is initially visible.
    pub visibility: bool,
    /// Whether the window should always be on top of other windows.
    pub always_on_top: bool,
    /// Whether the window should have borders and bars.
    pub decorations: bool,
    /// Whether the window should be maximized upon creation.
    pub maximized: bool,
    /// Enable multitouch on touch-capable platforms.
    pub multitouch: bool,
    /// Whether the window is resizable or not.
    pub resizable: bool,
    /// Whether the window should have an alpha-blended background.
    pub transparent: bool,
}

/// Mathematical model of a [`DisplayConfig`].
pub struct DisplayConfigView {
    pub title: Seq<char>,
    pub fullscreen: Option<MonitorIdentView>,
    pub dimensions: Option<(u32, u32)>,
    pub min_dimensions: Option<(u32, u32)>,
    pub max_dimensions: Option<(u32, u32)>,
    pub visibility: bool,
    pub always_on_top: bool,
    pub decorations: bool,
    pub maximized: bool,
    pub multitouch: bool,
    pub resizable: bool,
    pub transparent: bool,
}

/// Model of an optional monitor identifier.
pub open spec fn ident_opt_view(o: Option<MonitorIdent>) -> Option<MonitorIdentView> {
    match o {
        Option::None => None,
        Option::Some(i) => Some(i@),
    }
}

impl View for DisplayConfig {
    type V = DisplayConfigView;

    open spec fn view(&self) -> DisplayConfigView {
        DisplayConfigView {
            title: self.title@,
            fullscreen: ident_opt_view(self.fullscreen),
            dimensions: self.dimensions,
            min_dimensions: self.min_dimensions,
            max_dimensions: self.max_dimensions,
            visibility: self.visibility,
            always_on_top: self.always_on_top,
            decorations: self.decorations,
            maximized: self.maximized,
            multitouch: self.multitouch,
            resizable: self.resizable,
            transparent: self.transparent,
        }
    }
}

/// The default window title.
pub open spec fn spec_default_title() -> Seq<char> {
    "Amethyst game"@
}

/// The fully defaulted configuration, field by field.
pub open spec fn spec_default_config() -> DisplayConfigView {
    DisplayConfigView {
        title: spec_default_title(),
        fullscreen: None,
        dimensions: None,
        min_dimensions: None,
        max_dimensions: None,
        visibility: true,
        always_on_top: false,
        decorations: true,
        maximized: false,
        multitouch: false,
        resizable: true,
        transparent: false,
    }
}

/// Default value of the `title` field.
pub fn default_title() -> (r: String)
    ensures
        r@ == spec_default_title(),
{
    String::from_str("Amethyst game")
}

/// Default value of the `decorations` field.
pub fn default_decorations() -> (r: bool)
    ensures
        r == true,
{
    true
}

/// Default value of the `visibility` field.
pub fn default_visibility() -> (r: bool)
    ensures
        r == true,
{
    true
}

/// Default value of the `resizable` field.
pub fn default_resizable() -> (r: bool)
    ensures
        r == true,
{
    true
}

impl core::default::Default for DisplayConfig {
    /// A configuration with every field set to its documented default.
    fn default() -> (r: DisplayConfig)
        ensures
            r@ == spec_default_config(),
    {
        DisplayConfig {
            title: default_title(),
            fullscreen: None,
            dimensions: None,
            min_dimensions: None,
            max_dimensions: None,
            visibility: default_visibility(),
            always_on_top: false,
            decorations: default_decorations(),
            maximized: false,
            multitouch: false,
            resizable: default_resizable(),
            transparent: false,
        }
    }
}

/// A window icon: raw RGBA pixel data with its dimensions. The conversion
/// never sets one; a caller that needs an icon puts it on the returned
/// descriptor afterward.
#[derive(Clone, Debug, PartialEq, Eq)]
pub struct Icon {
    pub rgba: Vec<u8>,
    pub width: u32,
    pub height: u32,
}

/// Mathematical model of an [`Icon`].
pub struct IconView {
    pub rgba: Seq<u8>,
    pub width: u32,
    pub height: u32,
}

impl View for Icon {
    type V = IconView;

    open spec fn view(&self) -> IconView {
        IconView { rgba: self.rgba@, width: self.width, height: self.height }
    }
}

/// A fully populated attribute record, ready for the windowing backend's
/// window-instantiation step.
#[derive(Clone, Debug, PartialEq, Eq)]
pub struct WindowBuilderDescriptor {
    pub dimensions: Option<(u32, u32)>,
    pub max_dimensions: Option<(u32, u32)>,
    pub min_dimensions: Option<(u32, u32)>,
    pub title: String,
    pub maximized: bool,
    pub visible: bool,
    pub transparent: bool,
    pub decorations: bool,
    pub always_on_top: bool,
    pub window_icon: Option<Icon>,
    pub fullscreen: Option<MonitorHandle>,
    pub resizable: bool,
    pub multitouch: bool,
}

/// Mathematical model of a [`WindowBuilderDescriptor`].
pub struct WindowBuilderDescriptorView {
    pub dimensions: Option<(u32, u32)>,
    pub max_dimensions: Option<(u32, u32)>,
    pub min_dimensions: Option<(u32, u32)>,
    pub title: Seq<char>,
    pub maximized: bool,
    pub visible: bool,
    pub transparent: bool,
    pub decorations: bool,
    pub always_on_top: bool,
    pub window_icon: Option<IconView>,
    pub fullscreen: Option<MonitorHandle>,
    pub resizable: bool,
    pub multitouch: bool,
}

/// Model of an optional icon.
pub open spec fn icon_opt_view(o: Option<Icon>) -> Option<IconView> {
    match o {
        Option::None => None,
        Option::Some(i) => Some(i@),
    }
}

impl View for WindowBuilderDescriptor {
    type V = WindowBuilderDescriptorView;

    open spec fn view(&self) -> WindowBuilderDescriptorView {
        WindowBuilderDescriptorView {
            dimensions: self.dimensions,
            max_dimensions: self.max_dimensions,
            min_dimensions: self.min_dimensions,
            title: self.title@,
            maximized: self.maximized,
            visible: self.visible,
            transparent: self.transparent,
            decorations: self.decorations,
            always_on_top: self.always_on_top,
            window_icon: icon_opt_view(self.window_icon),
            fullscreen: self.fullscreen,
            resizable: self.resizable,
            multitouch: self.multitouch,
        }
    }
}

/// The descriptor a configuration maps to, given the outcome of fullscreen
/// resolution: every boolean and text field carried over verbatim, the pixel
/// pairs unchanged in shape, the icon always unset.
pub open spec fn spec_descriptor(
    c: DisplayConfigView,
    fullscreen: Option<MonitorHandle>,
) -> WindowBuilderDescriptorView {
    WindowBuilderDescriptorView {
        dimensions: c.dimensions,
        max_dimensions: c.max_dimensions,
        min_dimensions: c.min_dimensions,
        title: c.title,
        maximized: c.maximized,
        visible: c.visibility,
        transparent: c.transparent,
        decorations: c.decorations,
        always_on_top: c.always_on_top,
        window_icon: None,
        fullscreen: fullscreen,
        resizable: c.resizable,
        multitouch: c.multitouch,
    }
}

/// Conversion failure: the requested fullscreen monitor identifier did not
/// resolve to any currently attached monitor.
#[derive(Clone, Debug, PartialEq, Eq)]
pub struct MonitorResolutionError {
    /// The identifier that could not be resolved.
    pub ident: MonitorIdent,
}

impl DisplayConfig {
    /// Builds the window descriptor for this configuration, consuming it.
    ///
    /// Every boolean and text field maps verbatim to its same-named
    /// attribute, the pixel pairs pass through unchanged, and the icon is
    /// always left unset. When `fullscreen` is set, the identifier is
    /// resolved through the `monitors` capability: a resolved handle becomes
    /// the descriptor's fullscreen target, and an identifier that does not
    /// resolve fails the whole conversion with a
    /// [`MonitorResolutionError`]; no descriptor is produced then.
    pub fn to_windowbuilder(
        self,
        monitors: &impl MonitorsAccess,
    ) -> (r: Result<WindowBuilderDescriptor, MonitorResolutionError>)
        ensures
            self.fullscreen is None ==> (r matches Ok(d) && d@ == spec_descriptor(
                self@,
                None::<MonitorHandle>,
            )),
            self.fullscreen matches Some(ident) ==> match monitors.spec_resolve(ident@) {
                Some(h) => r matches Ok(d) && d@ == spec_descriptor(self@, Some(h)),
                None => r matches Err(e) && e.ident@ == ident@,
            },
            r matches Ok(d) ==> d.window_icon is None,
    {
        let DisplayConfig {
            title,
            fullscreen,
            dimensions,
            min_dimensions,
            max_dimensions,
            visibility,
            always_on_top,
            decorations,
            maximized,
            multitouch,
            resizable,
            transparent,
        } = self;
        let resolved: Option<MonitorHandle> = match fullscreen {
            None => None,
            Some(ident) => match monitors.resolve(&ident) {
                Some(h) => Some(h),
                None => {
                    return Err(MonitorResolutionError { ident });
                },
            },
        };
        Ok(
            WindowBuilderDescriptor {
                dimensions,
                max_dimensions,
                min_dimensions,
                title,
                maximized,
                visible: visibility,
                transparent,
                decorations,
                always_on_top,
                window_icon: None,
                fullscreen: resolved,
                resizable,
                multitouch,
            },
        )
    }
}

} // verus!
