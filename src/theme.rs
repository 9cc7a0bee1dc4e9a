use vstd::prelude::*;
use crate::atr::HistoricalBar;
use vstd::string::*;

verus! {

/// Colors of a chart, as `#rrggbb` or `#rrggbbaa` text.
pub struct ChartColors {
    pub background: String,
    pub grid_major: String,
    pub grid_minor: String,
    pub candle_bullish_body: String,
    pub candle_bullish_wick: String,
    pub candle_bearish_body: String,
    pub candle_bearish_wick: String,
    pub volume_bullish: String,
    pub volume_bearish: String,
    pub axis_text: String,
    pub axis_line: String,
    pub crosshair: String,
    pub crosshair_text_bg: String,
    pub crosshair_text: String,
    pub atr_line: String,
    pub ma_line: String,
}

impl Default for ChartColors {
    /// The dark palette.
    fn default() -> (r: Self)
        ensures
            r.background@ == "#1a1a1a"@,
            r.grid_major@ == "#333333"@,
            r.grid_minor@ == "#262626"@,
            r.candle_bullish_body@ == "#26a69a"@,
            r.candle_bullish_wick@ == "#26a69a"@,
            r.candle_bearish_body@ == "#ef5350"@,
            r.candle_bearish_wick@ == "#ef5350"@,
            r.volume_bullish@ == "#26a69a80"@,
            r.volume_bearish@ == "#ef535080"@,
            r.axis_text@ == "#cccccc"@,
            r.axis_line@ == "#666666"@,
            r.crosshair@ == "#ffffff66"@,
            r.crosshair_text_bg@ == "#000000cc"@,
            r.crosshair_text@ == "#ffffff"@,
            r.atr_line@ == "#ff9800"@,
            r.ma_line@ == "#2196f3"@,
    {
        ChartColors {
            background: "#1a1a1a".to_string(),
            grid_major: "#333333".to_string(),
            grid_minor: "#262626".to_string(),
            candle_bullish_body: "#26a69a".to_string(),
            candle_bullish_wick: "#26a69a".to_string(),
            candle_bearish_body: "#ef5350".to_string(),
            candle_bearish_wick: "#ef5350".to_string(),
            volume_bullish: "#26a69a80".to_string(),
            volume_bearish: "#ef535080".to_string(),
            axis_text: "#cccccc".to_string(),
            axis_line: "#666666".to_string(),
            crosshair: "#ffffff66".to_string(),
            crosshair_text_bg: "#000000cc".to_string(),
            crosshair_text: "#ffffff".to_string(),
            atr_line: "#ff9800".to_string(),
            ma_line: "#2196f3".to_string(),
        }
    }
}

impl ChartColors {
    /// The light palette.
    pub fn light() -> (r: ChartColors)
        ensures
            r.background@ == "#ffffff"@,
            r.grid_major@ == "#e0e0e0"@,
            r.grid_minor@ == "#f0f0f0"@,
            r.candle_bullish_body@ == "#4caf50"@,
            r.candle_bullish_wick@ == "#4caf50"@,
            r.candle_bearish_body@ == "#f44336"@,
            r.candle_bearish_wick@ == "#f44336"@,
            r.volume_bullish@ == "#4caf5080"@,
            r.volume_bearish@ == "#f4433680"@,
            r.axis_text@ == "#333333"@,
            r.axis_line@ == "#999999"@,
            r.crosshair@ == "#00000066"@,
            r.crosshair_text_bg@ == "#ffffffcc"@,
            r.crosshair_text@ == "#000000"@,
            r.atr_line@ == "#ff6f00"@,
            r.ma_line@ == "#1976d2"@,
    {
        ChartColors {
            background: "#ffffff".to_string(),
            grid_major: "#e0e0e0".to_string(),
            grid_minor: "#f0f0f0".to_string(),
            candle_bullish_body: "#4caf50".to_string(),
            candle_bullish_wick: "#4caf50".to_string(),
            candle_bearish_body: "#f44336".to_string(),
            candle_bearish_wick: "#f44336".to_string(),
            volume_bullish: "#4caf5080".to_string(),
            volume_bearish: "#f4433680".to_string(),
            axis_text: "#333333".to_string(),
            axis_line: "#999999".to_string(),
            crosshair: "#00000066".to_string(),
            crosshair_text_bg: "#ffffffcc".to_string(),
            crosshair_text: "#000000".to_string(),
            atr_line: "#ff6f00".to_string(),
            ma_line: "#1976d2".to_string(),
        }
    }
}

/// Volume of one bar and whether it closed at or above its open.
#[derive(Debug, Clone, Copy, PartialEq, Eq, Structural)]
pub struct VolumeBar {
    pub volume: i64,
    pub is_bullish: bool,
}

impl VolumeBar {
    /// The volume bar of a price bar.
    pub fn from_historical_bar(bar: &HistoricalBar) -> (r: VolumeBar)
        ensures
            r == (VolumeBar { volume: bar.volume, is_bullish: bar.close >= bar.open }),
    {
        VolumeBar { volume: bar.volume, is_bullish: bar.close >= bar.open }
    }
}

/// Value of a hexadecimal digit, if it is one.
pub open spec fn hex_value(c: char) -> Option<u8> {
    if '0' <= c && c <= '9' {
        Some((c as u32 - '0' as u32) as u8)
    } else if 'a' <= c && c <= 'f' {
        Some((c as u32 - 'a' as u32 + 10) as u8)
    } else if 'A' <= c && c <= 'F' {
        Some((c as u32 - 'A' as u32 + 10) as u8)
    } else {
        None
    }
}

/// The byte written by two hexadecimal digits, if both are digits.
pub open spec fn hex_pair(a: char, b: char) -> Option<u8> {
    match (hex_value(a), hex_value(b)) {
        (Some(h), Some(l)) => Some((h * 16 + l) as u8),
        _ => None,
    }
}

/// The byte at `s[i..i + 2]`, or `default` when those are not two digits.
pub open spec fn byte_at(s: Seq<char>, i: int, default: u8) -> u8 {
    match hex_pair(s[i], s[i + 1]) {
        Some(v) => v,
        None => default,
    }
}

/// Red, green, blue and alpha of a `#rrggbb[aa]` color: a component that is
/// not hexadecimal reads as 0 (alpha as 255); alpha is 255 when absent;
/// text that does not start with `#` and seven characters is opaque black.
pub open spec fn color_of(s: Seq<char>) -> (u8, u8, u8, u8) {
    if s.len() >= 7 && s[0] == '#' {
        (
            byte_at(s, 1, 0),
            byte_at(s, 3, 0),
            byte_at(s, 5, 0),
            if s.len() >= 9 { byte_at(s, 7, 255) } else { 255 },
        )
    } else {
        (0, 0, 0, 255)
    }
}

fn hex_digit(c: char) -> (r: Option<u8>)
    ensures
        r == hex_value(c),
        r matches Some(v) ==> v < 16,
{
    if '0' <= c && c <= '9' {
        Some((c as u32 - '0' as u32) as u8)
    } else if 'a' <= c && c <= 'f' {
        Some((c as u32 - 'a' as u32 + 10) as u8)
    } else if 'A' <= c && c <= 'F' {
        Some((c as u32 - 'A' as u32 + 10) as u8)
    } else {
        None
    }
}

fn read_byte(s: &str, i: usize, default: u8) -> (r: u8)
    requires
        i + 1 < s@.len(),
        i <= 7,
    ensures
        r == byte_at(s@, i as int, default),
{
    match (hex_digit(s.get_char(i)), hex_digit(s.get_char(i + 1))) {
        (Some(h), Some(l)) => {
            assert(h * 16 + l <= 255) by (nonlinear_arith)
                requires h < 16, l < 16;
            h * 16 + l
        },
        _ => default,
    }
}

/// Red, green, blue and alpha (0 to 255) of a color written `#rrggbb` or
/// `#rrggbbaa`.
pub fn parse_color(color: &str) -> (r: (u8, u8, u8, u8))
    ensures
        r == color_of(color@),
{
    let n = color.unicode_len();
    if n >= 7 && color.get_char(0) == '#' {
        let alpha = if n >= 9 { read_byte(color, 7, 255) } else { 255 };
        (read_byte(color, 1, 0), read_byte(color, 3, 0), read_byte(color, 5, 0), alpha)
    } else {
        (0, 0, 0, 255)
    }
}

} // verus!
