//! Sprite helpers: LF2 rectangle colours and the renderer choice.
use vstd::prelude::*;
use crate::text::string_push;

verus! {

/// Which renderer draws the sprites.
pub enum RendererKind {
    Canvas,
    Dom,
}

/// The lower-case hexadecimal digit of `d` (0..15).
pub open spec fn hex_digit(d: int) -> char {
    if d == 0 {
        '0'
    } else if d == 1 {
        '1'
    } else if d == 2 {
        '2'
    } else if d == 3 {
        '3'
    } else if d == 4 {
        '4'
    } else if d == 5 {
        '5'
    } else if d == 6 {
        '6'
    } else if d == 7 {
        '7'
    } else if d == 8 {
        '8'
    } else if d == 9 {
        '9'
    } else if d == 10 {
        'a'
    } else if d == 11 {
        'b'
    } else if d == 12 {
        'c'
    } else if d == 13 {
        'd'
    } else if d == 14 {
        'e'
    } else {
        'f'
    }
}

/// A byte as two lower-case hexadecimal digits (`{:02x}`).
pub open spec fn hex2(b: int) -> Seq<char> {
    seq![hex_digit(b / 16), hex_digit(b % 16)]
}

/// The red, green and blue of an LF2 rectangle colour: below 65536 it is read as
/// 16-bit 5-6-5 (each channel scaled up), otherwise as 0xRRGGBB.
pub open spec fn rect_rgb(rect: i64) -> (int, int, int) {
    if rect < 65536 {
        (
            ((rect >> 11u64) & 0x1Fi64) * 8,
            ((rect >> 5u64) & 0x3Fi64) * 4,
            (rect & 0x1Fi64) * 8,
        )
    } else {
        ((rect / 65536) % 256, (rect / 256) % 256, (rect % 256) as int)
    }
}

/// The CSS colour `#rrggbb` of an LF2 rectangle colour.
pub open spec fn rect_css(rect: i64) -> Seq<char> {
    let (r, g, b) = rect_rgb(rect);
    seq!['#'] + hex2(r) + hex2(g) + hex2(b)
}

fn hex_char(d: u8) -> (c: char)
    requires
        d < 16,
    ensures
        c == hex_digit(d as int),
{
    if d == 0 {
        '0'
    } else if d == 1 {
        '1'
    } else if d == 2 {
        '2'
    } else if d == 3 {
        '3'
    } else if d == 4 {
        '4'
    } else if d == 5 {
        '5'
    } else if d == 6 {
        '6'
    } else if d == 7 {
        '7'
    } else if d == 8 {
        '8'
    } else if d == 9 {
        '9'
    } else if d == 10 {
        'a'
    } else if d == 11 {
        'b'
    } else if d == 12 {
        'c'
    } else if d == 13 {
        'd'
    } else if d == 14 {
        'e'
    } else {
        'f'
    }
}

fn push_hex2(s: &mut String, b: u8)
    ensures
        final(s)@ == old(s)@ + hex2(b as int),
{
    string_push(s, hex_char(b / 16));
    string_push(s, hex_char(b % 16));
    assert(final(s)@ =~= old(s)@ + hex2(b as int));
}

/// The CSS colour of an LF2 rectangle colour value.
pub fn lf2_rect_color(rect: i64) -> (r: String)
    ensures
        r@ == rect_css(rect),
{
    let (r, g, b): (u8, u8, u8) = if rect < 65536 {
        let r5 = (rect >> 11) & 0x1F;
        let g6 = (rect >> 5) & 0x3F;
        let b5 = rect & 0x1F;
        assert(0 <= (rect >> 11u64) & 0x1Fi64 <= 31) by (bit_vector);
        assert(0 <= (rect >> 5u64) & 0x3Fi64 <= 63) by (bit_vector);
        assert(0 <= rect & 0x1Fi64 <= 31) by (bit_vector);
        ((r5 as u8) * 8, (g6 as u8) * 4, (b5 as u8) * 8)
    } else {
        (((rect / 65536) % 256) as u8, ((rect / 256) % 256) as u8, (rect % 256) as u8)
    };
    let mut out = String::new();
    string_push(&mut out, '#');
    push_hex2(&mut out, r);
    push_hex2(&mut out, g);
    push_hex2(&mut out, b);
    out
}

} // verus!

verus! {

/// Every rectangle colour is written `#` followed by six hexadecimal digits.
pub proof fn law_rect_css_shape(rect: i64)
    ensures
        rect_css(rect).len() == 7,
        rect_css(rect)[0] == '#',
{
}

} // verus!
