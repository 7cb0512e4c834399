use vstd::prelude::*;

verus! {

/// Background colour when the configuration names none.
pub const DEFAULT_BACKGROUND_COLOR: &'static str = "transparent";

/// Font colour when the configuration names none.
pub const DEFAULT_FONT_COLOR: &'static str = "#e9ecf1";

/// Window width when the configuration names none.
pub const DEFAULT_WINDOW_WIDTH: u32 = 480;

/// Window height when the configuration names none.
pub const DEFAULT_WINDOW_HEIGHT: u32 = 300;

/// The settings of the window that shows answers.
#[derive(Clone, Debug)]
pub struct AppConfig {
    pub appearance: AppearanceConfig,
    pub window: WindowConfig,
}

#[derive(Clone, Debug)]
pub struct AppearanceConfig {
    pub background_color: String,
    pub font_color: String,
}

#[derive(Clone, Debug)]
pub struct WindowConfig {
    pub width: u32,
    pub height: u32,
}

/// The settings as a configuration file gives them: each may be missing.
#[derive(Clone, Debug)]
pub struct RawConfig {
    pub appearance: Option<RawAppearance>,
    pub window: Option<RawWindow>,
}

#[derive(Clone, Debug)]
pub struct RawAppearance {
    pub background_color: Option<String>,
    pub font_color: Option<String>,
}

#[derive(Clone, Debug)]
pub struct RawWindow {
    pub width: Option<u32>,
    pub height: Option<u32>,
}

impl Default for AppearanceConfig {
    fn default() -> (r: Self)
        ensures
            r.background_color@ == DEFAULT_BACKGROUND_COLOR@,
            r.font_color@ == DEFAULT_FONT_COLOR@,
    {
        AppearanceConfig {
            background_color: DEFAULT_BACKGROUND_COLOR.to_string(),
            font_color: DEFAULT_FONT_COLOR.to_string(),
        }
    }
}

impl Default for WindowConfig {
    fn default() -> (r: Self)
        ensures
            r.width == DEFAULT_WINDOW_WIDTH,
            r.height == DEFAULT_WINDOW_HEIGHT,
    {
        WindowConfig { width: DEFAULT_WINDOW_WIDTH, height: DEFAULT_WINDOW_HEIGHT }
    }
}

impl Default for AppConfig {
    fn default() -> (r: Self)
        ensures
            r.appearance.background_color@ == DEFAULT_BACKGROUND_COLOR@,
            r.appearance.font_color@ == DEFAULT_FONT_COLOR@,
            r.window.width == DEFAULT_WINDOW_WIDTH,
            r.window.height == DEFAULT_WINDOW_HEIGHT,
    {
        AppConfig { appearance: AppearanceConfig::default(), window: WindowConfig::default() }
    }
}

/// A colour that the file gives, or else `default`.
pub open spec fn colour_or(given: Option<Seq<char>>, default: Seq<char>) -> Seq<char> {
    match given {
        Some(c) => c,
        None => default,
    }
}

/// A size that the file gives, raised to at least 1, or else `default`.
pub open spec fn size_or(given: Option<u32>, default: u32) -> u32 {
    match given {
        Some(n) => if n < 1 {
            1
        } else {
            n
        },
        None => default,
    }
}

pub open spec fn raw_background(raw: RawConfig) -> Option<Seq<char>> {
    match raw.appearance {
        Some(a) => a.background_color.deep_view(),
        None => None,
    }
}

pub open spec fn raw_font(raw: RawConfig) -> Option<Seq<char>> {
    match raw.appearance {
        Some(a) => a.font_color.deep_view(),
        None => None,
    }
}

pub open spec fn raw_width(raw: RawConfig) -> Option<u32> {
    match raw.window {
        Some(w) => w.width,
        None => None,
    }
}

pub open spec fn raw_height(raw: RawConfig) -> Option<u32> {
    match raw.window {
        Some(w) => w.height,
        None => None,
    }
}

/// The settings that a configuration file gives, each missing one filled from the
/// defaults, and each size at least 1.
pub fn merge_with_defaults(raw: RawConfig) -> (r: AppConfig)
    ensures
        r.appearance.background_color@ == colour_or(raw_background(raw), DEFAULT_BACKGROUND_COLOR@),
        r.appearance.font_color@ == colour_or(raw_font(raw), DEFAULT_FONT_COLOR@),
        r.window.width == size_or(raw_width(raw), DEFAULT_WINDOW_WIDTH),
        r.window.height == size_or(raw_height(raw), DEFAULT_WINDOW_HEIGHT),
{
    let mut cfg = AppConfig::default();
    if let Some(appearance) = raw.appearance {
        if let Some(background_color) = appearance.background_color {
            cfg.appearance.background_color = background_color;
        }
        if let Some(font_color) = appearance.font_color {
            cfg.appearance.font_color = font_color;
        }
    }
    if let Some(window) = raw.window {
        if let Some(width) = window.width {
            cfg.window.width = if width < 1 {
                1
            } else {
                width
            };
        }
        if let Some(height) = window.height {
            cfg.window.height = if height < 1 {
                1
            } else {
                height
            };
        }
    }
    cfg
}

} // verus!
