use vstd::prelude::*;

use crate::cell::Color;

verus! {

/// The 16 ANSI colours: normal 0-7, bright 8-15.
pub open spec fn spec_ansi_color(i: int) -> Color {
    if i == 0 { Color { r: 0x1E, g: 0x1E, b: 0x1E } }
    else if i == 1 { Color { r: 0xCD, g: 0x00, b: 0x00 } }
    else if i == 2 { Color { r: 0x00, g: 0xCD, b: 0x00 } }
    else if i == 3 { Color { r: 0xCD, g: 0xCD, b: 0x00 } }
    else if i == 4 { Color { r: 0x00, g: 0x00, b: 0xCD } }
    else if i == 5 { Color { r: 0xCD, g: 0x00, b: 0xCD } }
    else if i == 6 { Color { r: 0x00, g: 0xCD, b: 0xCD } }
    else if i == 7 { Color { r: 0xFA, g: 0xEB, b: 0xD7 } }
    else if i == 8 { Color { r: 0x40, g: 0x40, b: 0x40 } }
    else if i == 9 { Color { r: 0xFF, g: 0x00, b: 0x00 } }
    else if i == 10 { Color { r: 0x00, g: 0xFF, b: 0x00 } }
    else if i == 11 { Color { r: 0xFF, g: 0xFF, b: 0x00 } }
    else if i == 12 { Color { r: 0x00, g: 0x00, b: 0xFF } }
    else if i == 13 { Color { r: 0xFF, g: 0x00, b: 0xFF } }
    else if i == 14 { Color { r: 0x00, g: 0xFF, b: 0xFF } }
    else { Color { r: 0xFF, g: 0xFF, b: 0xFF } }
}

/// ANSI colour `i` (0-15).
pub fn ansi_color(i: usize) -> (c: Color)
    requires
        i < 16,
    ensures
        c == spec_ansi_color(i as int),
{
    match i {
        0 => Color::new(0x1E, 0x1E, 0x1E),
        1 => Color::new(0xCD, 0x00, 0x00),
        2 => Color::new(0x00, 0xCD, 0x00),
        3 => Color::new(0xCD, 0xCD, 0x00),
        4 => Color::new(0x00, 0x00, 0xCD),
        5 => Color::new(0xCD, 0x00, 0xCD),
        6 => Color::new(0x00, 0xCD, 0xCD),
        7 => Color::new(0xFA, 0xEB, 0xD7),
        8 => Color::new(0x40, 0x40, 0x40),
        9 => Color::new(0xFF, 0x00, 0x00),
        10 => Color::new(0x00, 0xFF, 0x00),
        11 => Color::new(0xFF, 0xFF, 0x00),
        12 => Color::new(0x00, 0x00, 0xFF),
        13 => Color::new(0xFF, 0x00, 0xFF),
        14 => Color::new(0x00, 0xFF, 0xFF),
        _ => Color::new(0xFF, 0xFF, 0xFF),
    }
}

/// Channel value of level `x` (0-5) of the 6x6x6 colour cube.
pub open spec fn cube_level(x: int) -> u8 {
    if x == 0 { 0 } else { (55 + x * 40) as u8 }
}

/// Whether `color_256(idx)` computes without overflow: the grey ramp formula
/// `8 + (idx - 232) as u8 * 10` fits in a byte.
pub open spec fn color_256_ok(idx: usize) -> bool {
    idx < 232 || ((idx - 232) as u8) <= 24
}

/// Entry `idx` of the xterm 256-colour palette: ANSI colours, the 6x6x6 cube, then a grey
/// ramp (indices past 255 wrap into the ramp formula).
pub open spec fn spec_color_256(idx: usize) -> Color {
    if idx < 16 {
        spec_ansi_color(idx as int)
    } else if idx < 232 {
        let i = idx - 16;
        Color { r: cube_level(i / 36), g: cube_level((i / 6) % 6), b: cube_level(i % 6) }
    } else {
        let v = (8 + ((idx - 232) as u8) * 10) as u8;
        Color { r: v, g: v, b: v }
    }
}

/// Entry `idx` of the xterm 256-colour palette.
pub fn color_256(idx: usize) -> (c: Color)
    requires
        color_256_ok(idx),
    ensures
        c == spec_color_256(idx),
{
    if idx < 16 {
        ansi_color(idx)
    } else if idx < 232 {
        let i = idx - 16;
        let b = i % 6;
        let g = (i / 6) % 6;
        let r = i / 36;
        Color::new(
            if r == 0 { 0 } else { 55 + r as u8 * 40 },
            if g == 0 { 0 } else { 55 + g as u8 * 40 },
            if b == 0 { 0 } else { 55 + b as u8 * 40 },
        )
    } else {
        let k = (idx - 232) as u8;
        let v = 8 + k * 10;
        Color::new(v, v, v)
    }
}

} // verus!
