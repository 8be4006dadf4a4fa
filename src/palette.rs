//! The fixed table of colours the views are drawn with, and the sequences
//! that bring the terminal back to its main colours.

use vstd::prelude::*;
use crate::layout::Color;
use crate::term::{Shade, fg_seq, bg_seq, fg_reset_seq, bg_reset_seq, fg_code, bg_code, fg_default, bg_default};

verus! {

/// Named colours for backgrounds and foregrounds.
#[derive(Debug, Clone, Copy, PartialEq, Eq, Structural)]
pub struct Palette {
    pub bg_main: Shade,
    pub bg_highlight: Shade,
    pub bg_selected: Shade,
    pub bg_alt1: Shade,
    pub fg_normal: Shade,
    pub fg_alt1: Shade,
    pub fg_alt2: Shade,
    pub fg_alt3: Shade,
    pub fg_alt4: Shade,
    pub fg_alt5: Shade,
}

impl Default for Palette {
    fn default() -> (r: Palette)
        ensures
            r == (Palette {
                bg_main: Shade::Rgb(23, 23, 23),
                bg_highlight: Shade::Rgb(40, 40, 40),
                bg_selected: Shade::Rgb(60, 50, 20),
                bg_alt1: Shade::Rgb(36, 36, 36),
                fg_normal: Shade::Rgb(250, 250, 250),
                fg_alt1: Shade::Rgb(30, 30, 240),
                fg_alt2: Shade::Rgb(140, 130, 255),
                fg_alt3: Shade::Basic(Color::Magenta),
                fg_alt4: Shade::Rgb(255, 20, 147),
                fg_alt5: Shade::Basic(Color::Green),
            }),
    {
        Palette {
            bg_main: Shade::Rgb(23, 23, 23),
            bg_highlight: Shade::Rgb(40, 40, 40),
            bg_selected: Shade::Rgb(60, 50, 20),
            bg_alt1: Shade::Rgb(36, 36, 36),
            fg_normal: Shade::Rgb(250, 250, 250),
            fg_alt1: Shade::Rgb(30, 30, 240),
            fg_alt2: Shade::Rgb(140, 130, 255),
            fg_alt3: Shade::Basic(Color::Magenta),
            fg_alt4: Shade::Rgb(255, 20, 147),
            fg_alt5: Shade::Basic(Color::Green),
        }
    }
}

impl Palette {
    /// Resets the foreground, then sets it to the normal text colour.
    pub open spec fn fg_reset_text(self) -> Seq<char> {
        fg_reset_seq() + fg_seq(self.fg_normal)
    }

    /// Resets the background, then sets it to the main background colour.
    pub open spec fn bg_reset_text(self) -> Seq<char> {
        bg_reset_seq() + bg_seq(self.bg_main)
    }

    pub open spec fn dual_reset_text(self) -> Seq<char> {
        self.fg_reset_text() + self.bg_reset_text()
    }

    /// Both resets: foreground first, then background.
    pub fn dual_reset(&self) -> (r: String)
        ensures
            r@ == self.dual_reset_text(),
    {
        let mut r = self.fg_reset();
        let bg = self.bg_reset();
        r.append(bg.as_str());
        r
    }

    pub fn fg_reset(&self) -> (r: String)
        ensures
            r@ == self.fg_reset_text(),
    {
        let mut r = fg_default();
        let normal = fg_code(self.fg_normal);
        r.append(normal.as_str());
        r
    }

    pub fn bg_reset(&self) -> (r: String)
        ensures
            r@ == self.bg_reset_text(),
    {
        let mut r = bg_default();
        let main = bg_code(self.bg_main);
        r.append(main.as_str());
        r
    }
}

} // verus!
