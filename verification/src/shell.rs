//! The host window around the renderer.
//!
//! A host that composites by colour key shows every pixel of one reserved colour
//! as fully transparent and every other pixel as opaque. The renderer clears
//! unused regions to that colour. A host that hands out a transparent canvas of
//! its own needs no key: there the renderer clears to transparent black.

use vstd::prelude::*;

verus! {

/// The colour key the overlay reserves by default, as `0xRRGGBB`.
pub const MAGIC_COLOUR: u32 = 0xFFB2FF;

/// The red channel of a colour packed as `0xRRGGBB`.
pub open spec fn red_of(rgb: u32) -> int {
    (rgb as int / 0x1_0000) % 0x100
}

/// The green channel of a colour packed as `0xRRGGBB`.
pub open spec fn green_of(rgb: u32) -> int {
    (rgb as int / 0x100) % 0x100
}

/// The blue channel of a colour packed as `0xRRGGBB`.
pub open spec fn blue_of(rgb: u32) -> int {
    rgb as int % 0x100
}

/// Whether a packed colour can serve as a colour key: it has no bits above the
/// three channels, and its red and blue channels are equal, so that it reads the
/// same in `0xRRGGBB` and in `0xBBGGRR` order.
pub open spec fn is_key(rgb: u32) -> bool {
    rgb <= 0xFF_FFFF && red_of(rgb) == blue_of(rgb)
}

/// A colour reserved for transparency. Its red and blue channels are equal.
#[derive(Clone, Copy, Debug, PartialEq, Eq)]
pub struct ColorKey {
    rgb: u32,
}

impl View for ColorKey {
    type V = u32;

    /// The colour, packed as `0xRRGGBB`.
    closed spec fn view(&self) -> u32 {
        self.rgb
    }
}

/// A colour to clear to, eight bits a channel.
#[derive(Clone, Copy, Debug, PartialEq, Eq, Structural)]
pub struct ClearColor {
    pub red: u8,
    pub green: u8,
    pub blue: u8,
    pub alpha: u8,
}

impl ColorKey {
    /// What holds of every colour key.
    #[verifier::type_invariant]
    pub open spec fn inv(&self) -> bool {
        is_key(self@)
    }

    /// The colour key for a packed colour, if the colour can serve as one.
    pub fn new(rgb: u32) -> (key: Option<ColorKey>)
        ensures
            key is Some <==> is_key(rgb),
            key is Some ==> key->Some_0@ == rgb,
    {
        proof {
            lemma_channels(rgb);
        }
        if rgb <= 0xFF_FFFF && (rgb >> 16) & 0xFF == rgb & 0xFF {
            Some(ColorKey { rgb })
        } else {
            None
        }
    }

    /// The colour, packed as `0xRRGGBB`.
    pub fn rgb(&self) -> (rgb: u32)
        ensures
            rgb == self@,
    {
        self.rgb
    }

    /// The red channel.
    pub fn red(&self) -> (r: u8)
        ensures
            r == red_of(self@),
    {
        proof {
            lemma_channels(self.rgb);
        }
        ((self.rgb >> 16) & 0xFF) as u8
    }

    /// The green channel.
    pub fn green(&self) -> (g: u8)
        ensures
            g == green_of(self@),
    {
        proof {
            lemma_channels(self.rgb);
        }
        ((self.rgb >> 8) & 0xFF) as u8
    }

    /// The blue channel.
    pub fn blue(&self) -> (b: u8)
        ensures
            b == blue_of(self@),
    {
        proof {
            lemma_channels(self.rgb);
        }
        (self.rgb & 0xFF) as u8
    }

    /// The colour packed with blue in the high byte, `0xBBGGRR`, as a window
    /// manager that composites by colour key takes it.
    pub fn colorref(&self) -> (packed: u32)
        ensures
            packed == blue_of(self@) * 0x1_0000 + green_of(self@) * 0x100 + red_of(self@),
            packed == self@,
    {
        proof {
            use_type_invariant(self);
            lemma_channels(self.rgb);
            lemma_key_reads_the_same_both_ways(self.rgb);
        }
        let red: u32 = (self.rgb >> 16) & 0xFF;
        let green: u32 = (self.rgb >> 8) & 0xFF;
        let blue: u32 = self.rgb & 0xFF;
        blue * 0x1_0000 + green * 0x100 + red
    }
}

/// How the host window composites what the renderer draws.
#[derive(Clone, Copy, Debug, PartialEq, Eq)]
pub enum HostShell {
    /// The host provides a transparent canvas and composites by alpha.
    Embedded,
    /// The host composites by colour key: pixels of `key` are transparent.
    Standalone { key: ColorKey },
}

impl HostShell {
    /// The colour that unused regions are cleared to: transparent black on a
    /// transparent canvas, the colour key itself where the host composites by
    /// colour key.
    pub open spec fn clear_color_spec(self) -> ClearColor {
        match self {
            HostShell::Embedded => ClearColor { red: 0, green: 0, blue: 0, alpha: 0 },
            HostShell::Standalone { key } => ClearColor {
                red: red_of(key@) as u8,
                green: green_of(key@) as u8,
                blue: blue_of(key@) as u8,
                alpha: 0,
            },
        }
    }

    /// The colour that unused regions are cleared to.
    #[verifier::when_used_as_spec(clear_color_spec)]
    pub fn clear_color(self) -> (c: ClearColor)
        ensures
            c == self.clear_color_spec(),
            self matches HostShell::Standalone { key } ==> c.red == red_of(key@) && c.green
                == green_of(key@) && c.blue == blue_of(key@),
    {
        match self {
            HostShell::Embedded => ClearColor { red: 0, green: 0, blue: 0, alpha: 0 },
            HostShell::Standalone { key } => ClearColor {
                red: key.red(),
                green: key.green(),
                blue: key.blue(),
                alpha: 0,
            },
        }
    }
}

/// Shifting and masking read the channels of a packed colour.
pub proof fn lemma_channels(rgb: u32)
    ensures
        (rgb >> 16) & 0xFF == red_of(rgb),
        (rgb >> 8) & 0xFF == green_of(rgb),
        rgb & 0xFF == blue_of(rgb),
{
    assert((rgb >> 16) & 0xFF == (rgb / 0x1_0000) % 0x100) by (bit_vector);
    assert((rgb >> 8) & 0xFF == (rgb / 0x100) % 0x100) by (bit_vector);
    assert(rgb & 0xFF == rgb % 0x100) by (bit_vector);
}

/// A colour key reads the same with red in the high byte and with blue in the
/// high byte: swapping the two channels gives the same packed value.
pub proof fn lemma_key_reads_the_same_both_ways(rgb: u32)
    requires
        is_key(rgb),
    ensures
        blue_of(rgb) * 0x1_0000 + green_of(rgb) * 0x100 + red_of(rgb) == rgb,
{
}

/// The default colour key can serve as one.
pub proof fn lemma_magic_colour_is_key()
    ensures
        is_key(MAGIC_COLOUR),
        red_of(MAGIC_COLOUR) == 0xFF,
        green_of(MAGIC_COLOUR) == 0xB2,
        blue_of(MAGIC_COLOUR) == 0xFF,
{
}

} // verus!
