//! The badge profile: the text and colors the badge displays, editable over
//! the configuration interface.  Colors travel as CSS hex strings; a missing
//! or malformed color falls back to a default in the UI.
//!
//! Serialization of the profile for persistence and transport happens in the
//! embedder; the record itself and the color parsing live here.

use vstd::prelude::*;

use vstd::string::StrSliceExecFns;
use vstd::string::StringExecFns;

verus! {

/// Largest accepted body for a profile update: a few short strings never
/// legitimately reach four kilobytes.
pub const MAX_PROFILE_BODY: usize = 4096;

/// Whether a profile update of `len` bytes is worth reading at all.
pub fn valid_profile_body_len(len: usize) -> (ok: bool)
    ensures
        ok == (1 <= len <= MAX_PROFILE_BODY),
{
    1 <= len && len <= MAX_PROFILE_BODY
}

/// Badge profile data.
#[derive(Clone, Debug)]
pub struct Profile {
    pub display_name: String,
    pub tagline: String,
    pub twitter_handle: String,
    pub discord_handle: String,
    /// Background solid color (CSS hex), used when no background image is
    /// set.
    pub background_color: String,
    /// Tagline text color (CSS hex).
    pub tagline_color: String,
    /// Tagline bar background color (CSS hex).
    pub tagline_background_color: String,
}

/// The background color used until a profile sets one.
pub fn default_background_color() -> (c: String)
    ensures
        c@ == "#1a1a2e"@,
{
    String::from_str("#1a1a2e")
}

/// The tagline text color used until a profile sets one.
pub fn default_tagline_color() -> (c: String)
    ensures
        c@ == "#e0e8f0"@,
{
    String::from_str("#e0e8f0")
}

/// The tagline bar color used until a profile sets one.
pub fn default_tagline_background_color() -> (c: String)
    ensures
        c@ == "#1b4f72"@,
{
    String::from_str("#1b4f72")
}

impl Default for Profile {
    /// The factory profile shown before any configuration.
    fn default() -> (profile: Profile)
        ensures
            profile.display_name@ == "Hebu"@,
            profile.tagline@ == "Hello from VRCBadge!"@,
            profile.twitter_handle@ == "@Hebu_VRC"@,
            profile.discord_handle@ == "hebu"@,
            profile.background_color@ == "#1a1a2e"@,
            profile.tagline_color@ == "#e0e8f0"@,
            profile.tagline_background_color@ == "#1b4f72"@,
    {
        Profile {
            display_name: String::from_str("Hebu"),
            tagline: String::from_str("Hello from VRCBadge!"),
            twitter_handle: String::from_str("@Hebu_VRC"),
            discord_handle: String::from_str("hebu"),
            background_color: default_background_color(),
            tagline_color: default_tagline_color(),
            tagline_background_color: default_tagline_background_color(),
        }
    }
}

/// A color as the UI consumes it.
#[derive(Clone, Copy, Debug, PartialEq, Eq, Structural)]
pub struct Color {
    pub r: u8,
    pub g: u8,
    pub b: u8,
}

/// The value of one hex digit (code points for `0`-`9`, `a`-`f` and
/// `A`-`F`), or `None` for any other character.
pub open spec fn spec_hex_digit(c: char) -> Option<u8> {
    let v = c as int;
    if 48 <= v <= 57 {
        Some((v - 48) as u8)
    } else if 97 <= v <= 102 {
        Some((v - 87) as u8)
    } else if 65 <= v <= 70 {
        Some((v - 55) as u8)
    } else {
        None
    }
}

/// The color channel two hex digits name, or `None` when either is not a
/// hex digit.
pub open spec fn spec_hex_pair(hi: char, lo: char) -> Option<u8> {
    match (spec_hex_digit(hi), spec_hex_digit(lo)) {
        (Some(h), Some(l)) => Some((h * 16 + l) as u8),
        _ => None,
    }
}

/// A parsed CSS hex color: a `#` followed by exactly six hex digits.
pub open spec fn spec_parse_hex_color(s: Seq<char>) -> Option<Color> {
    if s.len() != 7 || s[0] != '#' {
        None
    } else {
        match (spec_hex_pair(s[1], s[2]), spec_hex_pair(s[3], s[4]), spec_hex_pair(s[5], s[6])) {
            (Some(r), Some(g), Some(b)) => Some(Color { r, g, b }),
            _ => None,
        }
    }
}

fn hex_digit(c: char) -> (v: Option<u8>)
    ensures
        v == spec_hex_digit(c),
{
    let code = c as u32;
    if 48 <= code && code <= 57 {
        Some((code - 48) as u8)
    } else if 97 <= code && code <= 102 {
        Some((code - 87) as u8)
    } else if 65 <= code && code <= 70 {
        Some((code - 55) as u8)
    } else {
        None
    }
}

fn hex_pair(hi: char, lo: char) -> (v: Option<u8>)
    ensures
        v == spec_hex_pair(hi, lo),
{
    match (hex_digit(hi), hex_digit(lo)) {
        (Some(h), Some(l)) => Some(h * 16 + l),
        _ => None,
    }
}

/// Parse a CSS hex color string (`#` and six hex digits) into a [`Color`].
/// Returns `None` exactly when the string is malformed.
pub fn parse_hex_color(hex: &str) -> (color: Option<Color>)
    ensures
        color == spec_parse_hex_color(hex@),
{
    proof {
        reveal_strlit("#");
    }
    let n = hex.unicode_len();
    if n != 7 {
        return None;
    }
    if hex.get_char(0) != '#' {
        return None;
    }
    let r = hex_pair(hex.get_char(1), hex.get_char(2));
    let g = hex_pair(hex.get_char(3), hex.get_char(4));
    let b = hex_pair(hex.get_char(5), hex.get_char(6));
    match (r, g, b) {
        (Some(r), Some(g), Some(b)) => Some(Color { r, g, b }),
        _ => None,
    }
}

} // verus!
