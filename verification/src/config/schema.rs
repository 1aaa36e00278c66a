//! The shape of a configuration snapshot.

use vstd::prelude::*;
use crate::strings::owned;
use crate::table::StringMap;

verus! {

/// The bit pattern of 12.0 in IEEE 754 single precision.
pub const TWELVE_BITS: u32 = 0x4140_0000;

/// The bit pattern of 14.0 in IEEE 754 single precision.
pub const FOURTEEN_BITS: u32 = 0x4160_0000;

/// The bit pattern of positive infinity; every pattern whose magnitude
/// is above it is a NaN.
pub const INFINITY_BITS: u32 = 0x7f80_0000;

/// The sign bit of a single-precision pattern.
pub const SIGN_BIT: u32 = 0x8000_0000;

/// A font size in pixels, carried as the bit pattern of an IEEE 754
/// single-precision number. The verified core never computes with it
/// beyond comparing it with a cap.
#[derive(Debug, Clone, Copy, PartialEq, Eq)]
pub struct FontSize {
    pub bits: u32,
}

impl FontSize {
    /// The pattern without its sign bit.
    pub open spec fn magnitude(&self) -> int {
        if self.bits >= SIGN_BIT {
            self.bits - SIGN_BIT
        } else {
            self.bits as int
        }
    }

    /// Whether the pattern is not a number.
    pub open spec fn is_nan(&self) -> bool {
        self.magnitude() > INFINITY_BITS
    }

    /// Whether the number is below twelve: it is negative (a negative
    /// zero included), or its pattern is below that of twelve, patterns
    /// of non-negative numbers being ordered as the numbers are.
    pub open spec fn below_twelve(&self) -> bool {
        !self.is_nan() && (self.bits >= SIGN_BIT || self.bits < TWELVE_BITS)
    }

    /// The smaller of the size and twelve pixels; twelve where the size
    /// is not a number.
    pub open spec fn spec_label_size(&self) -> FontSize {
        if self.below_twelve() {
            *self
        } else {
            FontSize { bits: TWELVE_BITS }
        }
    }

    /// The size for a label that shares its tile with an icon: the
    /// configured size, capped at twelve pixels.
    pub fn label_size(&self) -> (capped: FontSize)
        ensures
            capped == self.spec_label_size(),
    {
        let magnitude: u32 = if self.bits >= SIGN_BIT {
            self.bits - SIGN_BIT
        } else {
            self.bits
        };
        if magnitude > INFINITY_BITS {
            FontSize { bits: TWELVE_BITS }
        } else if self.bits >= SIGN_BIT || self.bits < TWELVE_BITS {
            *self
        } else {
            FontSize { bits: TWELVE_BITS }
        }
    }
}

/// An action that a key press starts.
#[derive(Debug, Clone)]
pub enum ActionConfig {
    /// One HTTP request.
    Http { method: String, url: String, headers: StringMap<String>, body: Option<String> },
    /// One shell command line.
    Shell { command: String },
    /// Open a page on top of the current one.
    Navigate { page: String },
    /// Return to the page below.
    Back,
    /// Return to the home page.
    Home,
}

/// The style of a key that sets none of its own.
#[derive(Debug, Clone)]
pub struct ButtonDefaults {
    /// Background as a hex colour.
    pub background: String,
    /// Text colour as a hex colour.
    pub text_color: String,
    /// Font size in pixels.
    pub font_size: FontSize,
    /// Font name.
    pub font: String,
}

/// One key of a page.
#[derive(Debug, Clone)]
pub struct ButtonConfig {
    /// Key index, 0 to 14.
    pub key: u8,
    /// Text drawn on the key.
    pub label: Option<String>,
    /// Path of an icon, absolute or relative to the configuration's directory.
    pub icon: Option<String>,
    /// Background override.
    pub background: Option<String>,
    /// Text colour override.
    pub text_color: Option<String>,
    /// Background while the bound entity is on.
    pub on_background: Option<String>,
    /// Text colour while the bound entity is on.
    pub on_text_color: Option<String>,
    /// Font size override.
    pub font_size: Option<FontSize>,
    /// Font name override.
    pub font: Option<String>,
    /// The external entity whose state the key shows.
    pub state_entity: Option<String>,
    /// What a press starts.
    pub on_press: Option<ActionConfig>,
}

/// A page: a name and its keys, in configuration order.
#[derive(Debug, Clone)]
pub struct PageConfig {
    pub name: String,
    pub buttons: Vec<ButtonConfig>,
}

/// Settings of the daemon as a whole.
#[derive(Debug, Clone)]
pub struct DeckdConfig {
    /// Display brightness, 0 to 100.
    pub brightness: u8,
    /// Milliseconds between two attempts to find the device.
    pub reconnect_interval_ms: u64,
    /// The page shown at start.
    pub home_page: String,
    /// Style defaults.
    pub defaults: ButtonDefaults,
}

/// A configuration snapshot.
#[derive(Debug, Clone)]
pub struct AppConfig {
    pub deckd: DeckdConfig,
    pub pages: StringMap<PageConfig>,
}

pub fn default_brightness() -> (brightness: u8)
    ensures
        brightness == 80,
{
    80
}

pub fn default_reconnect_interval() -> (millis: u64)
    ensures
        millis == 2000,
{
    2000
}

pub fn default_home_page() -> (page: String)
    ensures
        page@ == "home"@,
{
    owned("home")
}

pub fn default_background() -> (hex: String)
    ensures
        hex@ == "#1a1a2e"@,
{
    owned("#1a1a2e")
}

pub fn default_text_color() -> (hex: String)
    ensures
        hex@ == "#e0e0e0"@,
{
    owned("#e0e0e0")
}

pub fn default_font_size() -> (size: FontSize)
    ensures
        size.bits == FOURTEEN_BITS,
{
    FontSize { bits: FOURTEEN_BITS }
}

pub fn default_font() -> (name: String)
    ensures
        name@ == "inter"@,
{
    owned("inter")
}

pub fn default_http_method() -> (method: String)
    ensures
        method@ == "GET"@,
{
    owned("GET")
}

impl Default for ButtonDefaults {
    fn default() -> (defaults: Self)
        ensures
            defaults.background@ == "#1a1a2e"@,
            defaults.text_color@ == "#e0e0e0"@,
            defaults.font_size.bits == FOURTEEN_BITS,
            defaults.font@ == "inter"@,
    {
        ButtonDefaults {
            background: default_background(),
            text_color: default_text_color(),
            font_size: default_font_size(),
            font: default_font(),
        }
    }
}

} // verus!
