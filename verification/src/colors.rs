//! Colours that are written in hexadecimal.
use crate::config::Config;
use crate::text;
use vstd::prelude::*;

verus! {

/// A colour. A channel of 255 is full.
#[derive(Clone, Copy, Debug, PartialEq, Eq, Structural)]
pub struct Color {
    pub red: u8,
    pub green: u8,
    pub blue: u8,
    pub alpha: u8,
}

/// The value of a hexadecimal digit.
pub open spec fn hex_value(b: u8) -> Option<int> {
    if 0x30 <= b <= 0x39 {
        Some(b - 0x30)
    } else if 0x61 <= b <= 0x66 {
        Some(b - 0x61 + 10)
    } else if 0x41 <= b <= 0x46 {
        Some(b - 0x41 + 10)
    } else {
        None
    }
}

/// What two bytes stand for: two digits, or a plus sign and a digit; full where
/// they are anything else.
pub open spec fn channel(high: u8, low: u8) -> u8 {
    match hex_value(low) {
        Some(l) => match hex_value(high) {
            Some(h) => (16 * h + l) as u8,
            None => if high == 0x2B {
                l as u8
            } else {
                255
            },
        },
        None => 255,
    }
}

/// The bytes of a colour, without the signs in front.
pub open spec fn color_bytes(hex: Seq<char>) -> Seq<u8> {
    vstd::utf8::encode_utf8(text::stripped_start(hex, '#'))
}

/// The colour that a text stands for: two bytes for each channel, of which the
/// last may be missing; white where there are too few.
pub open spec fn color_of(hex: Seq<char>) -> Color {
    let b = color_bytes(hex);
    if b.len() < 6 {
        Color { red: 255, green: 255, blue: 255, alpha: 255 }
    } else {
        Color {
            red: channel(b[0], b[1]),
            green: channel(b[2], b[3]),
            blue: channel(b[4], b[5]),
            alpha: if b.len() >= 8 {
                channel(b[6], b[7])
            } else {
                255
            },
        }
    }
}

/// Whether no character lies across two channels.
pub open spec fn channels_apart(hex: Seq<char>) -> bool {
    let b = color_bytes(hex);
    b.len() >= 6 ==> {
        &&& vstd::utf8::is_char_boundary(b, 2)
        &&& vstd::utf8::is_char_boundary(b, 4)
        &&& vstd::utf8::is_char_boundary(b, 6)
        &&& b.len() >= 8 ==> vstd::utf8::is_char_boundary(b, 8)
    }
}

fn value_of(b: u8) -> (r: Option<u8>)
    ensures
        match r {
            Some(v) => hex_value(b) == Some(v as int) && v < 16,
            None => hex_value(b) is None,
        },
{
    if 0x30 <= b && b <= 0x39 {
        Some(b - 0x30)
    } else if 0x61 <= b && b <= 0x66 {
        Some(b - 0x61 + 10)
    } else if 0x41 <= b && b <= 0x46 {
        Some(b - 0x41 + 10)
    } else {
        None
    }
}

fn channel_of(high: u8, low: u8) -> (r: u8)
    ensures
        r == channel(high, low),
{
    match value_of(low) {
        Some(l) => match value_of(high) {
            Some(h) => 16 * h + l,
            None => if high == 0x2B {
                l
            } else {
                255
            },
        },
        None => 255,
    }
}

/// Whether no character of a colour lies across two channels.
pub fn is_parted(hex: &str) -> (r: bool)
    ensures
        r == channels_apart(hex@),
{
    let digits = text::trim_start_matches(hex, '#');
    let n: usize = digits.as_bytes().len();
    n < 6 || (digits.is_char_boundary(2) && digits.is_char_boundary(4) && digits.is_char_boundary(6)
        && (n < 8 || digits.is_char_boundary(8)))
}

pub fn parse_hex_color(hex: &str) -> (r: Color)
    requires
        channels_apart(hex@),
    ensures
        r == color_of(hex@),
{
    let digits = text::trim_start_matches(hex, '#');
    let b = digits.as_bytes();
    if b.len() < 6 {
        return Color { red: 255, green: 255, blue: 255, alpha: 255 };
    }
    Color {
        red: channel_of(b[0], b[1]),
        green: channel_of(b[2], b[3]),
        blue: channel_of(b[4], b[5]),
        alpha: if b.len() >= 8 {
            channel_of(b[6], b[7])
        } else {
            255
        },
    }
}

impl Config {
    /// The colour of the background.
    pub fn clear_color_f32(&self) -> (r: Color)
        requires
            channels_apart(self@.clear_color),
        ensures
            r == color_of(self@.clear_color),
    {
        parse_hex_color(self.clear_color.as_str())
    }
}

/// The two digits of a byte are read back as the byte.
pub proof fn channels_are_read_back(n: u8, high: u8, low: u8)
    requires
        hex_value(high) == Some(n as int / 16),
        hex_value(low) == Some(n as int % 16),
    ensures
        channel(high, low) == n,
{
}

} // verus!
