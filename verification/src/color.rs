//! RGBA colors and their conversions.
//!
//! A color is four unsigned bytes in the foreign library's layout
//! (red, green, blue, alpha). Conversions to and from packed integers,
//! arrays and tuples are exact, and the hexadecimal parser and formatter
//! are verified against the same byte-level specification.

use vstd::prelude::*;
use vstd::string::StrSliceExecFns;
use vstd::string::StringExecFns;
use vstd::string::StringSliceAdditionalSpecFns;

verus! {

/// RGBA color (32-bit).
#[derive(Clone, Copy, Debug, Default, Eq, PartialEq, Structural)]
pub struct Color {
    pub red: u8,
    pub green: u8,
    pub blue: u8,
    pub alpha: u8,
}

/// The color that a packed `0xRRGGBB` value stands for; alpha is opaque.
pub open spec fn spec_from_rgb(value: i32) -> Color {
    Color {
        red: ((value >> 16) & 0xff) as u8,
        green: ((value >> 8) & 0xff) as u8,
        blue: (value & 0xff) as u8,
        alpha: 255,
    }
}

/// The color that a packed `0xRRGGBBAA` value stands for.
pub open spec fn spec_from_rgba(value: u32) -> Color {
    Color {
        red: ((value >> 24) & 0xff) as u8,
        green: ((value >> 16) & 0xff) as u8,
        blue: ((value >> 8) & 0xff) as u8,
        alpha: (value & 0xff) as u8,
    }
}

/// The alpha byte produced by [`Color::fade`]: the multiplier
/// `numerator / denominator` is clamped to at most one, scaled by the
/// maximum byte value, and truncated toward zero.
pub open spec fn spec_fade_alpha(numerator: int, denominator: int) -> int {
    255 * (if numerator > denominator {
        denominator
    } else {
        numerator
    }) / denominator
}

/// What [`Color::fade`] returns: the red, green and blue channels kept,
/// the alpha channel replaced by the scaled multiplier.
pub open spec fn spec_fade(c: Color, numerator: int, denominator: int) -> Color {
    Color {
        red: c.red,
        green: c.green,
        blue: c.blue,
        alpha: spec_fade_alpha(numerator, denominator) as u8,
    }
}

impl Color {
    /// Creates a `Color`.
    pub fn new(red: u8, green: u8, blue: u8, alpha: u8) -> (r: Color)
        ensures
            r == (Color { red, green, blue, alpha }),
    {
        Color { red, green, blue, alpha }
    }

    /// Color fade-in or fade-out. The alpha multiplier is the fraction
    /// `numerator / denominator`, clamped to at most one; the red, green
    /// and blue channels are kept and the alpha channel becomes the
    /// multiplier scaled by the maximum byte value, truncated toward zero.
    pub fn fade(self, numerator: u32, denominator: u32) -> (r: Color)
        requires
            denominator > 0,
        ensures
            r == spec_fade(self, numerator as int, denominator as int),
    {
        let n: u64 = if numerator > denominator {
            denominator as u64
        } else {
            numerator as u64
        };
        let d: u64 = denominator as u64;
        let scaled: u64 = 255 * n / d;
        proof {
            vstd::arithmetic::mul::lemma_mul_inequality(n as int, d as int, 255);
            vstd::arithmetic::div_mod::lemma_div_is_ordered(255 * (n as int), 255 * (d as int), d as int);
            vstd::arithmetic::div_mod::lemma_div_by_multiple(255, d as int);
        }
        Color { red: self.red, green: self.green, blue: self.blue, alpha: scaled as u8 }
    }
}

/// Fading by a full multiplier always yields the maximum alpha byte, so
/// fading any already-faded color by a full multiplier is the same as
/// fading the original color by a full multiplier.
pub proof fn lemma_fade_full_idempotent(c: Color, n: int, d: int, d2: int)
    requires
        d > 0,
        d2 > 0,
    ensures
        spec_fade(spec_fade(c, n, d), d2, d2) == spec_fade(c, d2, d2),
        spec_fade(c, d2, d2).alpha == 255,
{
    vstd::arithmetic::div_mod::lemma_div_by_multiple(255, d2);
}

/// Fading an opaque color by a full multiplier returns it unchanged.
pub proof fn lemma_fade_full_opaque(c: Color, d: int)
    requires
        d > 0,
        c.alpha == 255,
    ensures
        spec_fade(c, d, d) == c,
{
    vstd::arithmetic::div_mod::lemma_div_by_multiple(255, d);
}

/// Fading by a zero multiplier zeroes the alpha channel and leaves the
/// red, green and blue channels unchanged.
pub proof fn lemma_fade_zero(c: Color, d: int)
    requires
        d > 0,
    ensures
        spec_fade(c, 0, d) == (Color { red: c.red, green: c.green, blue: c.blue, alpha: 0 }),
{
    vstd::arithmetic::div_mod::lemma_div_of0(d);
}

impl Color {
    /// Light gray.
    pub fn lightgray() -> (r: Color)
        ensures
            r == (Color { red: 200, green: 200, blue: 200, alpha: 255 }),
    {
        Color { red: 200, green: 200, blue: 200, alpha: 255 }
    }

    /// Gray.
    pub fn gray() -> (r: Color)
        ensures
            r == (Color { red: 130, green: 130, blue: 130, alpha: 255 }),
    {
        Color { red: 130, green: 130, blue: 130, alpha: 255 }
    }

    /// Dark gray.
    pub fn darkgray() -> (r: Color)
        ensures
            r == (Color { red: 80, green: 80, blue: 80, alpha: 255 }),
    {
        Color { red: 80, green: 80, blue: 80, alpha: 255 }
    }

    /// Yellow.
    pub fn yellow() -> (r: Color)
        ensures
            r == (Color { red: 253, green: 249, blue: 0, alpha: 255 }),
    {
        Color { red: 253, green: 249, blue: 0, alpha: 255 }
    }

    /// Gold.
    pub fn gold() -> (r: Color)
        ensures
            r == (Color { red: 255, green: 203, blue: 0, alpha: 255 }),
    {
        Color { red: 255, green: 203, blue: 0, alpha: 255 }
    }

    /// Orange.
    pub fn orange() -> (r: Color)
        ensures
            r == (Color { red: 255, green: 161, blue: 0, alpha: 255 }),
    {
        Color { red: 255, green: 161, blue: 0, alpha: 255 }
    }

    /// Pink.
    pub fn pink() -> (r: Color)
        ensures
            r == (Color { red: 255, green: 109, blue: 194, alpha: 255 }),
    {
        Color { red: 255, green: 109, blue: 194, alpha: 255 }
    }

    /// Red.
    pub fn red() -> (r: Color)
        ensures
            r == (Color { red: 230, green: 41, blue: 55, alpha: 255 }),
    {
        Color { red: 230, green: 41, blue: 55, alpha: 255 }
    }

    /// Maroon.
    pub fn maroon() -> (r: Color)
        ensures
            r == (Color { red: 190, green: 33, blue: 55, alpha: 255 }),
    {
        Color { red: 190, green: 33, blue: 55, alpha: 255 }
    }

    /// Green.
    pub fn green() -> (r: Color)
        ensures
            r == (Color { red: 0, green: 228, blue: 48, alpha: 255 }),
    {
        Color { red: 0, green: 228, blue: 48, alpha: 255 }
    }

    /// Lime.
    pub fn lime() -> (r: Color)
        ensures
            r == (Color { red: 0, green: 158, blue: 47, alpha: 255 }),
    {
        Color { red: 0, green: 158, blue: 47, alpha: 255 }
    }

    /// Dark green.
    pub fn darkgreen() -> (r: Color)
        ensures
            r == (Color { red: 0, green: 117, blue: 44, alpha: 255 }),
    {
        Color { red: 0, green: 117, blue: 44, alpha: 255 }
    }

    /// Sky blue.
    pub fn skyblue() -> (r: Color)
        ensures
            r == (Color { red: 102, green: 191, blue: 255, alpha: 255 }),
    {
        Color { red: 102, green: 191, blue: 255, alpha: 255 }
    }

    /// Blue.
    pub fn blue() -> (r: Color)
        ensures
            r == (Color { red: 0, green: 121, blue: 241, alpha: 255 }),
    {
        Color { red: 0, green: 121, blue: 241, alpha: 255 }
    }

    /// Dark blue.
    pub fn darkblue() -> (r: Color)
        ensures
            r == (Color { red: 0, green: 82, blue: 172, alpha: 255 }),
    {
        Color { red: 0, green: 82, blue: 172, alpha: 255 }
    }

    /// Purple.
    pub fn purple() -> (r: Color)
        ensures
            r == (Color { red: 200, green: 122, blue: 255, alpha: 255 }),
    {
        Color { red: 200, green: 122, blue: 255, alpha: 255 }
    }

    /// Violet.
    pub fn violet() -> (r: Color)
        ensures
            r == (Color { red: 135, green: 60, blue: 190, alpha: 255 }),
    {
        Color { red: 135, green: 60, blue: 190, alpha: 255 }
    }

    /// Dark purple.
    pub fn darkpurple() -> (r: Color)
        ensures
            r == (Color { red: 112, green: 31, blue: 126, alpha: 255 }),
    {
        Color { red: 112, green: 31, blue: 126, alpha: 255 }
    }

    /// Beige.
    pub fn beige() -> (r: Color)
        ensures
            r == (Color { red: 211, green: 176, blue: 131, alpha: 255 }),
    {
        Color { red: 211, green: 176, blue: 131, alpha: 255 }
    }

    /// Brown.
    pub fn brown() -> (r: Color)
        ensures
            r == (Color { red: 127, green: 106, blue: 79, alpha: 255 }),
    {
        Color { red: 127, green: 106, blue: 79, alpha: 255 }
    }

    /// Dark brown.
    pub fn darkbrown() -> (r: Color)
        ensures
            r == (Color { red: 76, green: 63, blue: 47, alpha: 255 }),
    {
        Color { red: 76, green: 63, blue: 47, alpha: 255 }
    }

    /// White.
    pub fn white() -> (r: Color)
        ensures
            r == (Color { red: 255, green: 255, blue: 255, alpha: 255 }),
    {
        Color { red: 255, green: 255, blue: 255, alpha: 255 }
    }

    /// Black.
    pub fn black() -> (r: Color)
        ensures
            r == (Color { red: 0, green: 0, blue: 0, alpha: 255 }),
    {
        Color { red: 0, green: 0, blue: 0, alpha: 255 }
    }

    /// Fully transparent black.
    pub fn blank() -> (r: Color)
        ensures
            r == (Color { red: 0, green: 0, blue: 0, alpha: 0 }),
    {
        Color { red: 0, green: 0, blue: 0, alpha: 0 }
    }

    /// Magenta.
    pub fn magenta() -> (r: Color)
        ensures
            r == (Color { red: 255, green: 0, blue: 255, alpha: 255 }),
    {
        Color { red: 255, green: 0, blue: 255, alpha: 255 }
    }

    /// The foreign library's off-white.
    pub fn raywhite() -> (r: Color)
        ensures
            r == (Color { red: 245, green: 245, blue: 245, alpha: 255 }),
    {
        Color { red: 245, green: 245, blue: 245, alpha: 255 }
    }
}

impl core::convert::From<&Color> for Color {
    fn from(color: &Color) -> (r: Color)
        ensures
            r == *color,
    {
        *color
    }
}

impl vstd::std_specs::convert::FromSpecImpl<&Color> for Color {
    open spec fn obeys_from_spec() -> bool {
        true
    }

    open spec fn from_spec(v: &Color) -> Color {
        *v
    }
}

impl core::convert::From<[u8; 3]> for Color {
    fn from(value: [u8; 3]) -> (r: Color)
        ensures
            r == (Color { red: value[0], green: value[1], blue: value[2], alpha: 255 }),
    {
        Color { red: value[0], green: value[1], blue: value[2], alpha: 255 }
    }
}

impl vstd::std_specs::convert::FromSpecImpl<[u8; 3]> for Color {
    open spec fn obeys_from_spec() -> bool {
        true
    }

    open spec fn from_spec(v: [u8; 3]) -> Color {
        Color { red: v[0], green: v[1], blue: v[2], alpha: 255 }
    }
}

impl core::convert::From<[u8; 4]> for Color {
    fn from(value: [u8; 4]) -> (r: Color)
        ensures
            r == (Color { red: value[0], green: value[1], blue: value[2], alpha: value[3] }),
    {
        Color { red: value[0], green: value[1], blue: value[2], alpha: value[3] }
    }
}

impl vstd::std_specs::convert::FromSpecImpl<[u8; 4]> for Color {
    open spec fn obeys_from_spec() -> bool {
        true
    }

    open spec fn from_spec(v: [u8; 4]) -> Color {
        Color { red: v[0], green: v[1], blue: v[2], alpha: v[3] }
    }
}

impl core::convert::From<(u8, u8, u8, u8)> for Color {
    fn from(value: (u8, u8, u8, u8)) -> (r: Color)
        ensures
            r == (Color { red: value.0, green: value.1, blue: value.2, alpha: value.3 }),
    {
        Color { red: value.0, green: value.1, blue: value.2, alpha: value.3 }
    }
}

impl vstd::std_specs::convert::FromSpecImpl<(u8, u8, u8, u8)> for Color {
    open spec fn obeys_from_spec() -> bool {
        true
    }

    open spec fn from_spec(v: (u8, u8, u8, u8)) -> Color {
        Color { red: v.0, green: v.1, blue: v.2, alpha: v.3 }
    }
}

impl core::convert::From<(u8, u8, u8)> for Color {
    fn from(value: (u8, u8, u8)) -> (r: Color)
        ensures
            r == (Color { red: value.0, green: value.1, blue: value.2, alpha: 255 }),
    {
        Color { red: value.0, green: value.1, blue: value.2, alpha: 255 }
    }
}

impl vstd::std_specs::convert::FromSpecImpl<(u8, u8, u8)> for Color {
    open spec fn obeys_from_spec() -> bool {
        true
    }

    open spec fn from_spec(v: (u8, u8, u8)) -> Color {
        Color { red: v.0, green: v.1, blue: v.2, alpha: 255 }
    }
}

impl core::convert::From<i32> for Color {
    fn from(value: i32) -> (r: Color)
        ensures
            r == spec_from_rgb(value),
    {
        Color {
            red: ((value >> 16) & 0xff) as u8,
            green: ((value >> 8) & 0xff) as u8,
            blue: (value & 0xff) as u8,
            alpha: 255,
        }
    }
}

impl vstd::std_specs::convert::FromSpecImpl<i32> for Color {
    open spec fn obeys_from_spec() -> bool {
        true
    }

    open spec fn from_spec(v: i32) -> Color {
        spec_from_rgb(v)
    }
}

impl core::convert::From<u32> for Color {
    fn from(value: u32) -> (r: Color)
        ensures
            r == spec_from_rgba(value),
    {
        Color {
            red: ((value >> 24) & 0xff) as u8,
            green: ((value >> 16) & 0xff) as u8,
            blue: ((value >> 8) & 0xff) as u8,
            alpha: (value & 0xff) as u8,
        }
    }
}

impl vstd::std_specs::convert::FromSpecImpl<u32> for Color {
    open spec fn obeys_from_spec() -> bool {
        true
    }

    open spec fn from_spec(v: u32) -> Color {
        spec_from_rgba(v)
    }
}

/// The three-byte form of a color: red, green and blue, alpha dropped.
pub open spec fn spec_to_rgb_array(c: Color) -> Seq<u8> {
    seq![c.red, c.green, c.blue]
}

/// The four-byte form of a color: red, green, blue and alpha.
pub open spec fn spec_to_rgba_array(c: Color) -> Seq<u8> {
    seq![c.red, c.green, c.blue, c.alpha]
}

impl core::convert::From<Color> for [u8; 3] {
    fn from(color: Color) -> (r: [u8; 3])
        ensures
            r@ == spec_to_rgb_array(color),
    {
        let r = [color.red, color.green, color.blue];
        proof {
            assert(r@ =~= seq![color.red, color.green, color.blue]);
        }
        r
    }
}

impl vstd::std_specs::convert::FromSpecImpl<Color> for [u8; 3] {
    open spec fn obeys_from_spec() -> bool {
        false
    }

    open spec fn from_spec(v: Color) -> [u8; 3] {
        vstd::pervasive::arbitrary()
    }
}

impl core::convert::From<Color> for [u8; 4] {
    fn from(color: Color) -> (r: [u8; 4])
        ensures
            r@ == spec_to_rgba_array(color),
    {
        let r = [color.red, color.green, color.blue, color.alpha];
        proof {
            assert(r@ =~= seq![color.red, color.green, color.blue, color.alpha]);
        }
        r
    }
}

impl vstd::std_specs::convert::FromSpecImpl<Color> for [u8; 4] {
    open spec fn obeys_from_spec() -> bool {
        false
    }

    open spec fn from_spec(v: Color) -> [u8; 4] {
        vstd::pervasive::arbitrary()
    }
}

impl core::convert::From<Color> for (u8, u8, u8, u8) {
    fn from(color: Color) -> (r: (u8, u8, u8, u8))
        ensures
            r == (color.red, color.green, color.blue, color.alpha),
    {
        (color.red, color.green, color.blue, color.alpha)
    }
}

impl vstd::std_specs::convert::FromSpecImpl<Color> for (u8, u8, u8, u8) {
    open spec fn obeys_from_spec() -> bool {
        true
    }

    open spec fn from_spec(v: Color) -> (u8, u8, u8, u8) {
        (v.red, v.green, v.blue, v.alpha)
    }
}

impl core::convert::From<Color> for (u8, u8, u8) {
    fn from(color: Color) -> (r: (u8, u8, u8))
        ensures
            r == (color.red, color.green, color.blue),
    {
        (color.red, color.green, color.blue)
    }
}

impl vstd::std_specs::convert::FromSpecImpl<Color> for (u8, u8, u8) {
    open spec fn obeys_from_spec() -> bool {
        true
    }

    open spec fn from_spec(v: Color) -> (u8, u8, u8) {
        (v.red, v.green, v.blue)
    }
}

/// The packed `0xRRGGBB` value of a color; the alpha channel is dropped.
pub open spec fn spec_to_rgb(c: Color) -> i32 {
    ((c.red as i32) << 16) | ((c.green as i32) << 8) | (c.blue as i32)
}

/// The packed `0xRRGGBBAA` value of a color.
pub open spec fn spec_to_rgba(c: Color) -> u32 {
    ((c.red as u32) << 24) | ((c.green as u32) << 16) | ((c.blue as u32) << 8) | (c.alpha as u32)
}

impl core::convert::From<Color> for i32 {
    fn from(color: Color) -> (r: i32)
        ensures
            r == spec_to_rgb(color),
    {
        ((color.red as i32) << 16) | ((color.green as i32) << 8) | (color.blue as i32)
    }
}

impl vstd::std_specs::convert::FromSpecImpl<Color> for i32 {
    open spec fn obeys_from_spec() -> bool {
        true
    }

    open spec fn from_spec(v: Color) -> i32 {
        spec_to_rgb(v)
    }
}

impl core::convert::From<Color> for u32 {
    fn from(color: Color) -> (r: u32)
        ensures
            r == spec_to_rgba(color),
    {
        ((color.red as u32) << 24) | ((color.green as u32) << 16) | ((color.blue as u32) << 8)
            | (color.alpha as u32)
    }
}

impl vstd::std_specs::convert::FromSpecImpl<Color> for u32 {
    open spec fn obeys_from_spec() -> bool {
        true
    }

    open spec fn from_spec(v: Color) -> u32 {
        spec_to_rgba(v)
    }
}

/// Why parsing a color from text failed.
#[derive(Clone, Copy, Debug, Eq, PartialEq, Structural)]
pub enum ParseColorError {
    /// Nothing follows the `0x` marker, or the input is empty.
    Empty,
    /// A byte of the input is not a hexadecimal digit.
    InvalidDigit,
    /// The digits denote a number too large for a packed color value.
    Overflow,
}

/// Recognizes the ASCII bytes `0`-`9`, `A`-`F` and `a`-`f`.
pub open spec fn is_hex_digit(b: u8) -> bool {
    (48 <= b <= 57) || (65 <= b <= 70) || (97 <= b <= 102)
}

/// The numeric value of an ASCII hexadecimal digit byte.
pub open spec fn hex_digit_value(b: u8) -> int {
    if 48 <= b <= 57 {
        b - 48
    } else if 65 <= b <= 70 {
        b - 55
    } else {
        b - 87
    }
}

/// Whether every byte of `s` is a hexadecimal digit.
pub open spec fn all_hex_digits(s: Seq<u8>) -> bool {
    forall|i: int| 0 <= i < s.len() ==> is_hex_digit(#[trigger] s[i])
}

/// The number that a sequence of hexadecimal digit bytes denotes,
/// most significant digit first.
pub open spec fn hex_value(s: Seq<u8>) -> int
    decreases s.len(),
{
    if s.len() == 0 {
        0
    } else {
        hex_value(s.drop_last()) * 16 + hex_digit_value(s.last())
    }
}

/// The position of the first `0x` marker in `s`, if there is one.
pub open spec fn hex_marker_pos(s: Seq<u8>) -> Option<int>
    decreases s.len(),
{
    if s.len() < 2 {
        None
    } else if s[0] == 48 && s[1] == 120 {
        Some(0int)
    } else {
        match hex_marker_pos(s.skip(1)) {
            Some(j) => Some(j + 1),
            None => None,
        }
    }
}

/// The digit region of a color string: everything after the first `0x`
/// marker, or the whole input when there is none.
pub open spec fn spec_hex_body(s: Seq<u8>) -> Seq<u8> {
    match hex_marker_pos(s) {
        Some(i) => s.skip(i + 2),
        None => s,
    }
}

/// The position of the first byte of `s` that is not a hexadecimal digit,
/// or the length of `s` when every byte is one.
pub open spec fn first_non_hex(s: Seq<u8>) -> int
    decreases s.len(),
{
    if s.len() == 0 {
        0
    } else if !is_hex_digit(s[0]) {
        0
    } else {
        1 + first_non_hex(s.skip(1))
    }
}

/// Sixteen to the power `n`.
pub open spec fn pow16(n: nat) -> int
    decreases n,
{
    if n == 0 {
        1
    } else {
        16 * pow16((n - 1) as nat)
    }
}

proof fn lemma_pow16_at_least_one(n: nat)
    ensures
        pow16(n) >= 1,
    decreases n,
{
    if n > 0 {
        lemma_pow16_at_least_one((n - 1) as nat);
    }
}

proof fn lemma_pow16_monotone(a: nat, b: nat)
    requires
        a <= b,
    ensures
        pow16(a) <= pow16(b),
    decreases b,
{
    if a < b {
        lemma_pow16_monotone(a, (b - 1) as nat);
        lemma_pow16_at_least_one((b - 1) as nat);
    }
}

proof fn lemma_marker_pos_characterization(s: Seq<u8>)
    ensures
        match hex_marker_pos(s) {
            Some(i) => 0 <= i && i + 1 < s.len() && s[i] == 48 && s[i + 1] == 120 && (forall|
                j: int,
            |
                0 <= j < i ==> !(#[trigger] s[j] == 48 && s[j + 1] == 120)),
            None => forall|j: int|
                0 <= j && j + 1 < s.len() ==> !(#[trigger] s[j] == 48 && s[j + 1] == 120),
        },
    decreases s.len(),
{
    if s.len() < 2 {
    } else if s[0] == 48 && s[1] == 120 {
    } else {
        lemma_marker_pos_characterization(s.skip(1));
        let t = s.skip(1);
        match hex_marker_pos(t) {
            Some(i2) => {
                assert(t[i2] == s[i2 + 1]);
                assert(t[i2 + 1] == s[i2 + 2]);
                assert forall|j: int| 0 <= j < i2 + 1 implies !(#[trigger] s[j] == 48 && s[j + 1]
                    == 120) by {
                    if j > 0 {
                        assert(t[j - 1] == s[j]);
                        assert(t[j] == s[j + 1]);
                    }
                }
            },
            None => {
                assert forall|j: int| 0 <= j && j + 1 < s.len() implies !(#[trigger] s[j] == 48
                    && s[j + 1] == 120) by {
                    if j > 0 {
                        assert(t[j - 1] == s[j]);
                        assert(t[j] == s[j + 1]);
                    }
                }
            },
        }
    }
}

proof fn lemma_first_non_hex_characterization(s: Seq<u8>)
    ensures
        0 <= first_non_hex(s) <= s.len(),
        forall|i: int| 0 <= i < first_non_hex(s) ==> is_hex_digit(#[trigger] s[i]),
        first_non_hex(s) < s.len() ==> !is_hex_digit(s[first_non_hex(s)]),
    decreases s.len(),
{
    if s.len() == 0 {
    } else if !is_hex_digit(s[0]) {
    } else {
        lemma_first_non_hex_characterization(s.skip(1));
        assert forall|i: int| 0 <= i < first_non_hex(s) implies is_hex_digit(#[trigger] s[i]) by {
            if i > 0 {
                assert(s.skip(1)[i - 1] == s[i]);
            }
        }
        if first_non_hex(s) < s.len() {
            assert(s.skip(1)[first_non_hex(s) - 1] == s[first_non_hex(s)]);
        }
    }
}

proof fn lemma_hex_value_monotone(s: Seq<u8>, m: int, m2: int)
    requires
        0 <= m <= m2 <= s.len(),
        forall|i: int| 0 <= i < m2 ==> is_hex_digit(#[trigger] s[i]),
    ensures
        0 <= hex_value(s.take(m)) <= hex_value(s.take(m2)),
    decreases m2 - m, m,
{
    if m == m2 {
        if m == 0 {
        } else {
            lemma_hex_value_monotone(s, m - 1, m - 1);
            assert(s.take(m).drop_last() =~= s.take(m - 1));
            assert(s.take(m).last() == s[m - 1]);
        }
    } else {
        lemma_hex_value_monotone(s, m, m2 - 1);
        lemma_hex_value_monotone(s, m2 - 1, m2 - 1);
        assert(s.take(m2).drop_last() =~= s.take(m2 - 1));
        assert(s.take(m2).last() == s[m2 - 1]);
    }
}

proof fn lemma_hex_value_bound(s: Seq<u8>)
    requires
        all_hex_digits(s),
    ensures
        0 <= hex_value(s) < pow16(s.len()),
    decreases s.len(),
{
    if s.len() > 0 {
        assert(all_hex_digits(s.drop_last())) by {
            assert(forall|i: int|
                0 <= i < s.len() - 1 ==> #[trigger] s.drop_last()[i] == s[i]);
        }
        lemma_hex_value_bound(s.drop_last());
    }
}

impl Color {
    /// Parses a color from hexadecimal text.
    ///
    /// The digits start after the first `0x` marker, or at the beginning
    /// when there is none. Exactly six digits are read as `0xRRGGBB` with
    /// an opaque alpha channel; any other number of digits is read as a
    /// packed `0xRRGGBBAA` value, which must fit in 32 bits.
    #[verifier::rlimit(60)]
    pub fn from_str(value: &str) -> (r: Result<Color, ParseColorError>)
        ensures
            ({
                let body = spec_hex_body(value.spec_bytes());
                &&& body.len() == 0 ==> r == Err::<Color, ParseColorError>(ParseColorError::Empty)
                &&& body.len() == 6 && all_hex_digits(body) ==> r == Ok::<
                    Color,
                    ParseColorError,
                >(spec_from_rgb(hex_value(body) as i32))
                &&& body.len() > 0 && body.len() != 6 && all_hex_digits(body) && hex_value(body)
                    < 0x1_0000_0000 ==> r == Ok::<Color, ParseColorError>(
                    spec_from_rgba(hex_value(body) as u32),
                )
                &&& body.len() != 6 && all_hex_digits(body) && hex_value(body) >= 0x1_0000_0000
                    ==> r == Err::<Color, ParseColorError>(ParseColorError::Overflow)
                &&& !all_hex_digits(body) && hex_value(body.take(first_non_hex(body)))
                    < 0x1_0000_0000 ==> r == Err::<Color, ParseColorError>(
                    ParseColorError::InvalidDigit,
                )
                &&& !all_hex_digits(body) && hex_value(body.take(first_non_hex(body)))
                    >= 0x1_0000_0000 ==> r == Err::<Color, ParseColorError>(
                    ParseColorError::Overflow,
                )
            }),
    {
        let bytes = value.as_bytes_vec();
        let ghost full = bytes@;
        let n = bytes.len();
        let mut i: usize = 0;
        while i + 1 < n && !(bytes[i] == 48 && bytes[i + 1] == 120)
            invariant
                bytes@ == full,
                n == full.len(),
                i <= n,
                i == 0 || i < n,
                forall|j: int| 0 <= j < i ==> !(#[trigger] full[j] == 48 && full[j + 1] == 120),
            decreases n - i,
        {
            i = i + 1;
        }
        let found = i + 1 < n;
        let start: usize = if found {
            i + 2
        } else {
            0
        };
        proof {
            lemma_marker_pos_characterization(full);
            if found {
                match hex_marker_pos(full) {
                    Some(i2) => {
                        assert(!(i2 < i)) by {
                            if i2 < i {
                                assert(full[i2] == 48 && full[i2 + 1] == 120);
                            }
                        }
                        assert(!(i2 > i)) by {
                            if i2 > i {
                                assert(!(full[i as int] == 48 && full[i + 1] == 120));
                            }
                        }
                    },
                    None => {
                        assert(!(full[i as int] == 48 && full[i + 1] == 120));
                    },
                }
                assert(hex_marker_pos(full) == Some(i as int));
            } else {
                match hex_marker_pos(full) {
                    Some(i2) => {
                        assert(i2 < i);
                        assert(full[i2] == 48 && full[i2 + 1] == 120);
                    },
                    None => {},
                }
                assert(full.skip(0) =~= full);
            }
        }
        let ghost body = spec_hex_body(full);
        proof {
            assert(body =~= full.skip(start as int));
        }
        if start == n {
            return Err(ParseColorError::Empty);
        }
        let mut acc: u64 = 0;
        let mut j: usize = start;
        while j < n
            invariant
                bytes@ == full,
                n == full.len(),
                full == value.spec_bytes(),
                start < n,
                start <= j <= n,
                body == spec_hex_body(full),
                body =~= full.skip(start as int),
                forall|m: int| 0 <= m < j - start ==> is_hex_digit(#[trigger] body[m]),
                acc == hex_value(body.take(j - start)),
                acc < 0x1_0000_0000,
            decreases n - j,
        {
            let b = bytes[j];
            proof {
                assert(body[j - start] == full[j as int]);
            }
            let d: u64;
            if 48 <= b && b <= 57 {
                d = (b - 48) as u64;
            } else if 65 <= b && b <= 70 {
                d = (b - 55) as u64;
            } else if 97 <= b && b <= 102 {
                d = (b - 87) as u64;
            } else {
                proof {
                    lemma_first_non_hex_characterization(body);
                    let k = first_non_hex(body);
                    assert(!is_hex_digit(body[j - start]));
                    assert(k == j - start) by {
                        if k < j - start {
                            assert(is_hex_digit(body[k]));
                        }
                        if k > j - start {
                            assert(is_hex_digit(body[j - start]));
                        }
                    }
                }
                return Err(ParseColorError::InvalidDigit);
            }
            let newacc = acc * 16 + d;
            proof {
                assert(body.take(j - start + 1).drop_last() =~= body.take(j - start));
                assert(body.take(j - start + 1).last() == body[j - start]);
                assert(newacc == hex_value(body.take(j - start + 1)));
            }
            if newacc >= 0x1_0000_0000 {
                if n - start == 6 {
                    proof {
                        assert(all_hex_digits(body.take(j - start + 1))) by {
                            assert(forall|m: int|
                                0 <= m < j - start + 1 ==> #[trigger] body.take(j - start + 1)[m]
                                    == body[m]);
                        }
                        lemma_hex_value_bound(body.take(j - start + 1));
                        lemma_pow16_monotone((j - start + 1) as nat, 6);
                        assert(pow16(6) == 0x1000000) by {
                            reveal_with_fuel(pow16, 7);
                        }
                        assert(false);
                    }
                    return Err(ParseColorError::Overflow);
                }
                proof {
                    lemma_first_non_hex_characterization(body);
                    let k = first_non_hex(body);
                    assert(k >= j - start + 1) by {
                        if k < j - start + 1 {
                            assert(is_hex_digit(body[k]));
                        }
                    }
                    if all_hex_digits(body) {
                        lemma_hex_value_monotone(body, j - start + 1, body.len() as int);
                        assert(body.take(body.len() as int) =~= body);
                    } else {
                        lemma_hex_value_monotone(body, j - start + 1, k);
                    }
                }
                return Err(ParseColorError::Overflow);
            }
            acc = newacc;
            j = j + 1;
        }
        proof {
            assert(body.take(body.len() as int) =~= body);
            assert(all_hex_digits(body));
        }
        if n - start == 6 {
            proof {
                lemma_hex_value_bound(body);
                assert(pow16(6) == 0x1000000) by {
                    reveal_with_fuel(pow16, 7);
                }
            }
            Ok(Color::from(acc as i32))
        } else {
            Ok(Color::from(acc as u32))
        }
    }
}

/// The uppercase hexadecimal digit character for a value below sixteen.
pub open spec fn hex_char(d: int) -> char {
    if d == 0 {
        '0'
    } else if d == 1 {
        '1'
    } else if d == 2 {
        '2'
    } else if d == 3 {
        '3'
    } else if d == 4 {
        '4'
    } else if d == 5 {
        '5'
    } else if d == 6 {
        '6'
    } else if d == 7 {
        '7'
    } else if d == 8 {
        '8'
    } else if d == 9 {
        '9'
    } else if d == 10 {
        'A'
    } else if d == 11 {
        'B'
    } else if d == 12 {
        'C'
    } else if d == 13 {
        'D'
    } else if d == 14 {
        'E'
    } else {
        'F'
    }
}

/// The two hexadecimal digit characters of a byte, high digit first.
pub open spec fn spec_hex_pair(b: u8) -> Seq<char> {
    seq![hex_char(b as int / 16), hex_char(b as int % 16)]
}

/// The canonical text of a color: `0x` followed by the two-digit
/// uppercase hexadecimal form of each channel.
pub open spec fn spec_hex_text(c: Color) -> Seq<char> {
    seq!['0', 'x'] + spec_hex_pair(c.red) + spec_hex_pair(c.green) + spec_hex_pair(c.blue)
        + spec_hex_pair(c.alpha)
}

/// The one-character text of a hexadecimal digit value.
fn hex_digit_text(d: u8) -> (r: &'static str)
    requires
        d < 16,
    ensures
        r@ == seq![hex_char(d as int)],
{
    if d == 0 {
        proof {
            reveal_strlit("0");
            assert("0"@ =~= seq![hex_char(0)]);
        }
        "0"
    } else if d == 1 {
        proof {
            reveal_strlit("1");
            assert("1"@ =~= seq![hex_char(1)]);
        }
        "1"
    } else if d == 2 {
        proof {
            reveal_strlit("2");
            assert("2"@ =~= seq![hex_char(2)]);
        }
        "2"
    } else if d == 3 {
        proof {
            reveal_strlit("3");
            assert("3"@ =~= seq![hex_char(3)]);
        }
        "3"
    } else if d == 4 {
        proof {
            reveal_strlit("4");
            assert("4"@ =~= seq![hex_char(4)]);
        }
        "4"
    } else if d == 5 {
        proof {
            reveal_strlit("5");
            assert("5"@ =~= seq![hex_char(5)]);
        }
        "5"
    } else if d == 6 {
        proof {
            reveal_strlit("6");
            assert("6"@ =~= seq![hex_char(6)]);
        }
        "6"
    } else if d == 7 {
        proof {
            reveal_strlit("7");
            assert("7"@ =~= seq![hex_char(7)]);
        }
        "7"
    } else if d == 8 {
        proof {
            reveal_strlit("8");
            assert("8"@ =~= seq![hex_char(8)]);
        }
        "8"
    } else if d == 9 {
        proof {
            reveal_strlit("9");
            assert("9"@ =~= seq![hex_char(9)]);
        }
        "9"
    } else if d == 10 {
        proof {
            reveal_strlit("A");
            assert("A"@ =~= seq![hex_char(10)]);
        }
        "A"
    } else if d == 11 {
        proof {
            reveal_strlit("B");
            assert("B"@ =~= seq![hex_char(11)]);
        }
        "B"
    } else if d == 12 {
        proof {
            reveal_strlit("C");
            assert("C"@ =~= seq![hex_char(12)]);
        }
        "C"
    } else if d == 13 {
        proof {
            reveal_strlit("D");
            assert("D"@ =~= seq![hex_char(13)]);
        }
        "D"
    } else if d == 14 {
        proof {
            reveal_strlit("E");
            assert("E"@ =~= seq![hex_char(14)]);
        }
        "E"
    } else {
        proof {
            reveal_strlit("F");
            assert("F"@ =~= seq![hex_char(15)]);
        }
        "F"
    }
}

impl Color {
    /// The canonical `0xRRGGBBAA` text of the color, in uppercase
    /// hexadecimal digits.
    pub fn to_string(&self) -> (r: String)
        ensures
            r@ == spec_hex_text(*self),
    {
        let mut s = String::from_str("0x");
        proof {
            reveal_strlit("0x");
            assert(s@ =~= seq!['0', 'x']);
        }
        s.append(hex_digit_text(self.red / 16));
        s.append(hex_digit_text(self.red % 16));
        s.append(hex_digit_text(self.green / 16));
        s.append(hex_digit_text(self.green % 16));
        s.append(hex_digit_text(self.blue / 16));
        s.append(hex_digit_text(self.blue % 16));
        s.append(hex_digit_text(self.alpha / 16));
        s.append(hex_digit_text(self.alpha % 16));
        proof {
            assert(s@ =~= spec_hex_text(*self));
        }
        s
    }
}

/// Packing a color into a 32-bit value and unpacking it again returns the
/// original color, channel for channel.
pub proof fn lemma_rgba_round_trip(c: Color)
    ensures
        spec_from_rgba(spec_to_rgba(c)) == c,
{
    let r = c.red as u32;
    let g = c.green as u32;
    let b = c.blue as u32;
    let a = c.alpha as u32;
    assert((((r << 24) | (g << 16) | (b << 8) | a) >> 24) & 0xff == r) by (bit_vector)
        requires
            r < 256 && g < 256 && b < 256 && a < 256,
    ;
    assert((((r << 24) | (g << 16) | (b << 8) | a) >> 16) & 0xff == g) by (bit_vector)
        requires
            r < 256 && g < 256 && b < 256 && a < 256,
    ;
    assert((((r << 24) | (g << 16) | (b << 8) | a) >> 8) & 0xff == b) by (bit_vector)
        requires
            r < 256 && g < 256 && b < 256 && a < 256,
    ;
    assert(((r << 24) | (g << 16) | (b << 8) | a) & 0xff == a) by (bit_vector)
        requires
            r < 256 && g < 256 && b < 256 && a < 256,
    ;
}

} // verus!

