//! Colours by number.
use vstd::prelude::*;
use vstd::string::*;

use crate::text::{cat5, decimal, decimal_of};
use crate::workspace::{hex, hex_of};

verus! {

/// A colour by its red, green and blue.
#[derive(Debug, Clone, Copy, PartialEq, Eq, Structural)]
pub struct Rgb(pub u8, pub u8, pub u8);

/// The colour as `#rrggbb`.
pub open spec fn hex_text(c: Rgb) -> Seq<char> {
    "#"@ + hex_of(c.0 as nat, 2) + hex_of(c.1 as nat, 2) + hex_of(c.2 as nat, 2)
}

/// The colour as `r g b`.
pub open spec fn rgb_text(c: Rgb) -> Seq<char> {
    decimal_of(c.0 as nat) + " "@ + decimal_of(c.1 as nat) + " "@ + decimal_of(c.2 as nat)
}

impl Rgb {
    /// The colour as `#rrggbb`.
    pub fn hex(&self) -> (out: String)
        ensures
            out@ == hex_text(*self),
    {
        crate::text::cat4(
            "#",
            hex(self.0 as u32, 2).as_str(),
            hex(self.1 as u32, 2).as_str(),
            hex(self.2 as u32, 2).as_str(),
        )
    }

    /// The colour as `r g b`.
    pub fn rgb(&self) -> (out: String)
        ensures
            out@ == rgb_text(*self),
    {
        cat5(
            decimal(self.0 as u64).as_str(),
            " ",
            decimal(self.1 as u64).as_str(),
            " ",
            decimal(self.2 as u64).as_str(),
        )
    }
}

/// The colours of the roles that a zellij theme names.
#[derive(Debug, Clone, Copy)]
pub struct Palette {
    pub ground: Rgb,
    pub text: Rgb,
    pub bright: Rgb,
    pub muted: Rgb,
    pub accent: Rgb,
    pub warn: Rgb,
    pub danger: Rgb,
    pub success: Rgb,
    pub info: Rgb,
}

} // verus!
