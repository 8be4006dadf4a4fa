//! Terminal control sequences: cursor placement, clearing, cursor visibility
//! and colours, each produced by termion and returned as text to be written.

use vstd::prelude::*;
use crate::layout::Color;
use crate::text::decimal_of;

verus! {

/// A colour as the terminal is told it: one of the basic ANSI colours, or a
/// true colour.
#[derive(Debug, Clone, Copy, PartialEq, Eq, Structural)]
pub enum Shade {
    Basic(Color),
    Rgb(u8, u8, u8),
}

/// The ANSI palette index of a basic colour.
pub open spec fn ansi_index(c: Color) -> u8 {
    match c {
        Color::Black => 0,
        Color::Red => 1,
        Color::Green => 2,
        Color::Blue => 4,
        Color::Magenta => 5,
        Color::Cyan => 6,
        Color::White => 7,
    }
}

pub open spec fn ansi_fg_seq(v: u8) -> Seq<char> {
    "\x1b[38;5;"@ + decimal_of(v as nat) + "m"@
}

pub open spec fn ansi_bg_seq(v: u8) -> Seq<char> {
    "\x1b[48;5;"@ + decimal_of(v as nat) + "m"@
}

pub open spec fn rgb_fg_seq(r: u8, g: u8, b: u8) -> Seq<char> {
    "\x1b[38;2;"@ + decimal_of(r as nat) + ";"@ + decimal_of(g as nat) + ";"@ + decimal_of(b as nat)
        + "m"@
}

pub open spec fn rgb_bg_seq(r: u8, g: u8, b: u8) -> Seq<char> {
    "\x1b[48;2;"@ + decimal_of(r as nat) + ";"@ + decimal_of(g as nat) + ";"@ + decimal_of(b as nat)
        + "m"@
}

/// The sequence that sets the foreground to `s`.
pub open spec fn fg_seq(s: Shade) -> Seq<char> {
    match s {
        Shade::Basic(c) => ansi_fg_seq(ansi_index(c)),
        Shade::Rgb(r, g, b) => rgb_fg_seq(r, g, b),
    }
}

/// The sequence that sets the background to `s`.
pub open spec fn bg_seq(s: Shade) -> Seq<char> {
    match s {
        Shade::Basic(c) => ansi_bg_seq(ansi_index(c)),
        Shade::Rgb(r, g, b) => rgb_bg_seq(r, g, b),
    }
}

/// The sequence that moves the cursor to column `x`, row `y`.
pub open spec fn goto_seq(x: u16, y: u16) -> Seq<char> {
    "\x1b["@ + decimal_of(y as nat) + ";"@ + decimal_of(x as nat) + "H"@
}

pub open spec fn fg_reset_seq() -> Seq<char> {
    "\x1b[39m"@
}

pub open spec fn bg_reset_seq() -> Seq<char> {
    "\x1b[49m"@
}

pub open spec fn clear_all_seq() -> Seq<char> {
    "\x1b[2J"@
}

pub open spec fn clear_rest_seq() -> Seq<char> {
    "\x1b[K"@
}

pub open spec fn cursor_hide_seq() -> Seq<char> {
    "\x1b[?25l"@
}

pub open spec fn cursor_show_seq() -> Seq<char> {
    "\x1b[?25h"@
}

/// Relies on termion's `AnsiValue::fg_string`: `ESC[38;5;` and the index in
/// decimal, then `m`.
#[verifier::external_body]
fn ansi_fg(v: u8) -> (r: String)
    ensures
        r@ == ansi_fg_seq(v),
{
    termion::color::AnsiValue(v).fg_string()
}

/// Relies on termion's `AnsiValue::bg_string`: `ESC[48;5;` and the index in
/// decimal, then `m`.
#[verifier::external_body]
fn ansi_bg(v: u8) -> (r: String)
    ensures
        r@ == ansi_bg_seq(v),
{
    termion::color::AnsiValue(v).bg_string()
}

/// Relies on termion's `Rgb::fg_string`: `ESC[38;2;` and the three components
/// in decimal, separated by `;`, then `m`.
#[verifier::external_body]
fn rgb_fg(r: u8, g: u8, b: u8) -> (s: String)
    ensures
        s@ == rgb_fg_seq(r, g, b),
{
    termion::color::Rgb(r, g, b).fg_string()
}

/// Relies on termion's `Rgb::bg_string`: `ESC[48;2;` and the three components
/// in decimal, separated by `;`, then `m`.
#[verifier::external_body]
fn rgb_bg(r: u8, g: u8, b: u8) -> (s: String)
    ensures
        s@ == rgb_bg_seq(r, g, b),
{
    termion::color::Rgb(r, g, b).bg_string()
}

/// Relies on termion's `Reset::fg_str`: `ESC[39m`.
#[verifier::external_body]
fn reset_fg() -> (r: &'static str)
    ensures
        r@ == fg_reset_seq(),
{
    termion::color::Reset.fg_str()
}

/// Relies on termion's `Reset::bg_str`: `ESC[49m`.
#[verifier::external_body]
fn reset_bg() -> (r: &'static str)
    ensures
        r@ == bg_reset_seq(),
{
    termion::color::Reset.bg_str()
}

/// Relies on termion's `From<Goto> for String`: `ESC[`, the row and the
/// column in decimal separated by `;`, then `H`.
#[verifier::external_body]
fn goto_code(x: u16, y: u16) -> (r: String)
    ensures
        r@ == goto_seq(x, y),
{
    String::from(termion::cursor::Goto(x, y))
}

/// Relies on termion's `AsRef<str>` for `clear::All`: `ESC[2J`.
#[verifier::external_body]
fn clear_all_code() -> (r: &'static str)
    ensures
        r@ == clear_all_seq(),
{
    AsRef::<str>::as_ref(&termion::clear::All)
}

/// Relies on termion's `AsRef<str>` for `clear::UntilNewline`: `ESC[K`.
#[verifier::external_body]
fn clear_rest_code() -> (r: &'static str)
    ensures
        r@ == clear_rest_seq(),
{
    AsRef::<str>::as_ref(&termion::clear::UntilNewline)
}

/// Relies on termion's `AsRef<str>` for `cursor::Hide`: `ESC[?25l`.
#[verifier::external_body]
fn cursor_hide_code() -> (r: &'static str)
    ensures
        r@ == cursor_hide_seq(),
{
    AsRef::<str>::as_ref(&termion::cursor::Hide)
}

/// Relies on termion's `AsRef<str>` for `cursor::Show`: `ESC[?25h`.
#[verifier::external_body]
fn cursor_show_code() -> (r: &'static str)
    ensures
        r@ == cursor_show_seq(),
{
    AsRef::<str>::as_ref(&termion::cursor::Show)
}

fn ansi_of(c: Color) -> (r: u8)
    ensures
        r == ansi_index(c),
{
    match c {
        Color::Black => 0,
        Color::Red => 1,
        Color::Green => 2,
        Color::Blue => 4,
        Color::Magenta => 5,
        Color::Cyan => 6,
        Color::White => 7,
    }
}

/// The sequence that sets the foreground to `s`.
pub fn fg_code(s: Shade) -> (r: String)
    ensures
        r@ == fg_seq(s),
{
    match s {
        Shade::Basic(c) => ansi_fg(ansi_of(c)),
        Shade::Rgb(r, g, b) => rgb_fg(r, g, b),
    }
}

/// The sequence that sets the background to `s`.
pub fn bg_code(s: Shade) -> (r: String)
    ensures
        r@ == bg_seq(s),
{
    match s {
        Shade::Basic(c) => ansi_bg(ansi_of(c)),
        Shade::Rgb(r, g, b) => rgb_bg(r, g, b),
    }
}

/// The sequence that resets the foreground to the terminal's default.
pub fn fg_default() -> (r: String)
    ensures
        r@ == fg_reset_seq(),
{
    String::from_str(reset_fg())
}

/// The sequence that resets the background to the terminal's default.
pub fn bg_default() -> (r: String)
    ensures
        r@ == bg_reset_seq(),
{
    String::from_str(reset_bg())
}

/// `string` preceded by the sequence that sets the background to `color`.
pub fn color_bg(string: &str, color: Shade) -> (r: String)
    ensures
        r@ == bg_seq(color) + string@,
{
    let mut r = bg_code(color);
    r.append(string);
    r
}

/// `string` preceded by the sequence that sets the foreground to `color`.
pub fn color_fg(string: &str, color: Shade) -> (r: String)
    ensures
        r@ == fg_seq(color) + string@,
{
    let mut r = fg_code(color);
    r.append(string);
    r
}

/// Moves the cursor to column `x`, row `y`, both counted from 1.
pub fn goto(x: usize, y: usize) -> (r: String)
    requires
        x <= u16::MAX,
        y <= u16::MAX,
    ensures
        r@ == goto_seq(x as u16, y as u16),
{
    goto_code(x as u16, y as u16)
}

/// Clears the whole screen.
pub fn clear_all() -> (r: String)
    ensures
        r@ == clear_all_seq(),
{
    String::from_str(clear_all_code())
}

/// Clears from the cursor to the end of its line.
pub fn clear_rest() -> (r: String)
    ensures
        r@ == clear_rest_seq(),
{
    String::from_str(clear_rest_code())
}

/// Hides the cursor.
pub fn cursor_hide() -> (r: String)
    ensures
        r@ == cursor_hide_seq(),
{
    String::from_str(cursor_hide_code())
}

/// Shows the cursor.
pub fn cursor_show() -> (r: String)
    ensures
        r@ == cursor_show_seq(),
{
    String::from_str(cursor_show_code())
}

} // verus!
