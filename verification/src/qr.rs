//! Options of the styled QR endpoint: defaults, bounds and the accepted
//! spellings of each style, read from the query string.
//!
//! The options are read in two steps around fetching the centre logo, in
//! the order the endpoint reports errors: size, margin, error correction and
//! the two base colours first; then, once the logo has been fetched, the
//! module shapes and per-part colours.

use vstd::prelude::*;
use crate::text::{str_eq, to_ascii_lowercase, ascii_lower, trim, to_owned, concat2};
use crate::palette::{parse_hex, hex_color_of};
use crate::links::QrCodeQuery;
use crate::config::opt_view;
use crate::text::{starts_with, unicode_lowercase, to_lowercase, str_starts_with};
use crate::validation::{validate_web_url, web_url_outcome, outcome};
use crate::weburl::url_parse;

verus! {

/// Default output size in pixels.
pub const QR_DEFAULT_SIZE: u32 = 600;
/// Smallest accepted size.
pub const QR_MIN_SIZE: u32 = 128;
/// Largest accepted size.
pub const QR_MAX_SIZE: u32 = 2048;
/// Default quiet-zone margin, in modules.
pub const QR_DEFAULT_MARGIN: u32 = 2;
/// Largest accepted margin.
pub const QR_MAX_MARGIN: u32 = 16;
/// Largest accepted logo, in bytes.
pub const QR_MAX_LOGO_BYTES: usize = 524288;
/// Time allowed to fetch a logo, in seconds.
pub const QR_LOGO_TIMEOUT_SECS: u64 = 5;

/// Output format of the QR endpoint.
#[derive(Clone, Copy, Debug, PartialEq, Eq, Structural)]
pub enum QrOutputFormat {
    Png,
    Svg,
}

/// QR error-correction level.
#[derive(Clone, Copy, Debug, PartialEq, Eq, Structural)]
pub enum QrLevel {
    L,
    M,
    Q,
    H,
}

/// Shape of the data modules.
#[derive(Clone, Copy, Debug, PartialEq, Eq, Structural)]
pub enum QrDotType {
    Square,
    Dots,
    Rounded,
    Classy,
    ClassyRounded,
    ExtraRounded,
}

/// Shape of the three finder-pattern frames.
#[derive(Clone, Copy, Debug, PartialEq, Eq, Structural)]
pub enum QrCornerSquareType {
    Square,
    Dot,
    ExtraRounded,
}

/// Shape of the finder-pattern pupils.
#[derive(Clone, Copy, Debug, PartialEq, Eq, Structural)]
pub enum QrCornerDotType {
    Dot,
    Square,
}

/// Shape of the canvas.
#[derive(Clone, Copy, Debug, PartialEq, Eq, Structural)]
pub enum QrShape {
    Square,
    Circle,
}

/// An RGB colour.
#[derive(Clone, Copy, Debug, PartialEq, Eq, Structural)]
pub struct QrColor {
    pub r: u8,
    pub g: u8,
    pub b: u8,
}

/// The options read before the logo is fetched. `logo_url` is the logo to
/// fetch, when one is asked for and not hidden.
#[derive(Clone, Debug)]
pub struct QrBaseOptions {
    pub size: u32,
    pub margin: u32,
    pub level: QrLevel,
    pub fg: QrColor,
    pub bg: QrColor,
    pub logo_url: Option<String>,
}

/// The options read after the logo is fetched.
#[derive(Clone, Copy, Debug)]
pub struct QrStyleOptions {
    pub dot_type: QrDotType,
    pub corner_square_type: QrCornerSquareType,
    pub corner_dot_type: QrCornerDotType,
    pub shape: QrShape,
    pub dot_color: Option<QrColor>,
    pub corner_square_color: Option<QrColor>,
    pub corner_dot_color: Option<QrColor>,
}

// ── Single values ──

/// The level written `value` (one letter, either case).
pub open spec fn level_of(value: Seq<char>) -> Option<QrLevel> {
    if value == "L"@ || value == "l"@ {
        Some(QrLevel::L)
    } else if value == "M"@ || value == "m"@ {
        Some(QrLevel::M)
    } else if value == "Q"@ || value == "q"@ {
        Some(QrLevel::Q)
    } else if value == "H"@ || value == "h"@ {
        Some(QrLevel::H)
    } else {
        None
    }
}

/// Read an error-correction level.
pub fn parse_ec_level(value: &str) -> (r: Result<QrLevel, String>)
    ensures
        match r {
            Ok(l) => level_of(value@) == Some(l),
            Err(e) => level_of(value@) is None && e@ == "level must be one of L, M, Q, H"@,
        },
{
    if str_eq(value, "L") || str_eq(value, "l") {
        Ok(QrLevel::L)
    } else if str_eq(value, "M") || str_eq(value, "m") {
        Ok(QrLevel::M)
    } else if str_eq(value, "Q") || str_eq(value, "q") {
        Ok(QrLevel::Q)
    } else if str_eq(value, "H") || str_eq(value, "h") {
        Ok(QrLevel::H)
    } else {
        Err(to_owned("level must be one of L, M, Q, H"))
    }
}

/// Each level letter names its own level, in either case (`L`/`l` is L,
/// `M`/`m` is M, `Q`/`q` is Q, `H`/`h` is H), and no other value is
/// accepted.
pub proof fn lemma_level_spellings(value: Seq<char>)
    ensures
        value == "L"@ || value == "l"@ ==> level_of(value) == Some(QrLevel::L),
        value == "M"@ || value == "m"@ ==> level_of(value) == Some(QrLevel::M),
        value == "Q"@ || value == "q"@ ==> level_of(value) == Some(QrLevel::Q),
        value == "H"@ || value == "h"@ ==> level_of(value) == Some(QrLevel::H),
        level_of(value) is Some ==> {
            ||| value == "L"@
            ||| value == "l"@
            ||| value == "M"@
            ||| value == "m"@
            ||| value == "Q"@
            ||| value == "q"@
            ||| value == "H"@
            ||| value == "h"@
        },
{
    reveal_strlit("L");
    assert("L"@.len() == 1);
    reveal_strlit("l");
    assert("l"@.len() == 1);
    reveal_strlit("M");
    assert("M"@.len() == 1);
    reveal_strlit("m");
    assert("m"@.len() == 1);
    reveal_strlit("Q");
    assert("Q"@.len() == 1);
    reveal_strlit("q");
    assert("q"@.len() == 1);
    reveal_strlit("H");
    assert("H"@.len() == 1);
    reveal_strlit("h");
    assert("h"@.len() == 1);
    assert("l"@[0] != "L"@[0]);
    assert("l"@ != "L"@);
    assert("M"@[0] != "L"@[0]);
    assert("M"@ != "L"@);
    assert("M"@[0] != "l"@[0]);
    assert("M"@ != "l"@);
    assert("m"@[0] != "L"@[0]);
    assert("m"@ != "L"@);
    assert("m"@[0] != "l"@[0]);
    assert("m"@ != "l"@);
    assert("m"@[0] != "M"@[0]);
    assert("m"@ != "M"@);
    assert("Q"@[0] != "L"@[0]);
    assert("Q"@ != "L"@);
    assert("Q"@[0] != "l"@[0]);
    assert("Q"@ != "l"@);
    assert("Q"@[0] != "M"@[0]);
    assert("Q"@ != "M"@);
    assert("Q"@[0] != "m"@[0]);
    assert("Q"@ != "m"@);
    assert("q"@[0] != "L"@[0]);
    assert("q"@ != "L"@);
    assert("q"@[0] != "l"@[0]);
    assert("q"@ != "l"@);
    assert("q"@[0] != "M"@[0]);
    assert("q"@ != "M"@);
    assert("q"@[0] != "m"@[0]);
    assert("q"@ != "m"@);
    assert("q"@[0] != "Q"@[0]);
    assert("q"@ != "Q"@);
    assert("H"@[0] != "L"@[0]);
    assert("H"@ != "L"@);
    assert("H"@[0] != "l"@[0]);
    assert("H"@ != "l"@);
    assert("H"@[0] != "M"@[0]);
    assert("H"@ != "M"@);
    assert("H"@[0] != "m"@[0]);
    assert("H"@ != "m"@);
    assert("H"@[0] != "Q"@[0]);
    assert("H"@ != "Q"@);
    assert("H"@[0] != "q"@[0]);
    assert("H"@ != "q"@);
    assert("h"@[0] != "L"@[0]);
    assert("h"@ != "L"@);
    assert("h"@[0] != "l"@[0]);
    assert("h"@ != "l"@);
    assert("h"@[0] != "M"@[0]);
    assert("h"@ != "M"@);
    assert("h"@[0] != "m"@[0]);
    assert("h"@ != "m"@);
    assert("h"@[0] != "Q"@[0]);
    assert("h"@ != "Q"@);
    assert("h"@[0] != "q"@[0]);
    assert("h"@ != "q"@);
    assert("h"@[0] != "H"@[0]);
    assert("h"@ != "H"@);
}

/// The dot type named `value`, compared without ASCII case.
pub open spec fn dot_type_of(value: Seq<char>) -> Option<QrDotType> {
    let v = ascii_lower(value);
    if v == "square"@ {
        Some(QrDotType::Square)
    } else if v == "dots"@ {
        Some(QrDotType::Dots)
    } else if v == "rounded"@ {
        Some(QrDotType::Rounded)
    } else if v == "classy"@ {
        Some(QrDotType::Classy)
    } else if v == "classy-rounded"@ || v == "classyrounded"@ {
        Some(QrDotType::ClassyRounded)
    } else if v == "extra-rounded"@ || v == "extrarounded"@ {
        Some(QrDotType::ExtraRounded)
    } else {
        None
    }
}

/// Message for an unknown dot type.
pub open spec fn dot_type_msg() -> Seq<char> {
    "dotType must be one of square, dots, rounded, classy, classy-rounded, extra-rounded"@
}

/// Read a dot type.
pub fn parse_dot_type(value: &str) -> (r: Result<QrDotType, String>)
    ensures
        match r {
            Ok(d) => dot_type_of(value@) == Some(d),
            Err(e) => dot_type_of(value@) is None && e@ == dot_type_msg(),
        },
{
    let lower = to_ascii_lowercase(value);
    let v = lower.as_str();
    if str_eq(v, "square") {
        Ok(QrDotType::Square)
    } else if str_eq(v, "dots") {
        Ok(QrDotType::Dots)
    } else if str_eq(v, "rounded") {
        Ok(QrDotType::Rounded)
    } else if str_eq(v, "classy") {
        Ok(QrDotType::Classy)
    } else if str_eq(v, "classy-rounded") || str_eq(v, "classyrounded") {
        Ok(QrDotType::ClassyRounded)
    } else if str_eq(v, "extra-rounded") || str_eq(v, "extrarounded") {
        Ok(QrDotType::ExtraRounded)
    } else {
        Err(
            to_owned(
                "dotType must be one of square, dots, rounded, classy, classy-rounded, extra-rounded",
            ),
        )
    }
}

/// Each dotType spelling names its own style: the ASCII-lowercased value
/// `square`, `dots`, `rounded`, `classy`, `classy-rounded` or `classyrounded`,
/// `extra-rounded` or `extrarounded` gives that style, and no other value
/// is accepted.
pub proof fn lemma_dot_type_spellings(value: Seq<char>)
    ensures
        ascii_lower(value) == "square"@ ==> dot_type_of(value) == Some(QrDotType::Square),
        ascii_lower(value) == "dots"@ ==> dot_type_of(value) == Some(QrDotType::Dots),
        ascii_lower(value) == "rounded"@ ==> dot_type_of(value) == Some(QrDotType::Rounded),
        ascii_lower(value) == "classy"@ ==> dot_type_of(value) == Some(QrDotType::Classy),
        ascii_lower(value) == "classy-rounded"@ ==> dot_type_of(value) == Some(
            QrDotType::ClassyRounded,
        ),
        ascii_lower(value) == "classyrounded"@ ==> dot_type_of(value) == Some(
            QrDotType::ClassyRounded,
        ),
        ascii_lower(value) == "extra-rounded"@ ==> dot_type_of(value) == Some(
            QrDotType::ExtraRounded,
        ),
        ascii_lower(value) == "extrarounded"@ ==> dot_type_of(value) == Some(
            QrDotType::ExtraRounded,
        ),
        dot_type_of(value) is Some ==> {
            let v = ascii_lower(value);
            ||| v == "square"@
            ||| v == "dots"@
            ||| v == "rounded"@
            ||| v == "classy"@
            ||| v == "classy-rounded"@
            ||| v == "classyrounded"@
            ||| v == "extra-rounded"@
            ||| v == "extrarounded"@
        },
{
    reveal_strlit("square");
    assert("square"@.len() == 6);
    reveal_strlit("dots");
    assert("dots"@.len() == 4);
    reveal_strlit("rounded");
    assert("rounded"@.len() == 7);
    reveal_strlit("classy");
    assert("classy"@.len() == 6);
    reveal_strlit("classy-rounded");
    assert("classy-rounded"@.len() == 14);
    reveal_strlit("classyrounded");
    assert("classyrounded"@.len() == 13);
    reveal_strlit("extra-rounded");
    assert("extra-rounded"@.len() == 13);
    reveal_strlit("extrarounded");
    assert("extrarounded"@.len() == 12);
    assert("dots"@ != "square"@);
    assert("rounded"@ != "square"@);
    assert("rounded"@ != "dots"@);
    assert("classy"@[0] != "square"@[0]);
    assert("classy"@ != "square"@);
    assert("classy"@ != "dots"@);
    assert("classy"@ != "rounded"@);
    assert("classy-rounded"@ != "square"@);
    assert("classy-rounded"@ != "dots"@);
    assert("classy-rounded"@ != "rounded"@);
    assert("classy-rounded"@ != "classy"@);
    assert("classyrounded"@ != "square"@);
    assert("classyrounded"@ != "dots"@);
    assert("classyrounded"@ != "rounded"@);
    assert("classyrounded"@ != "classy"@);
    assert("classyrounded"@ != "classy-rounded"@);
    assert("extra-rounded"@ != "square"@);
    assert("extra-rounded"@ != "dots"@);
    assert("extra-rounded"@ != "rounded"@);
    assert("extra-rounded"@ != "classy"@);
    assert("extra-rounded"@ != "classy-rounded"@);
    assert("extra-rounded"@[0] != "classyrounded"@[0]);
    assert("extra-rounded"@ != "classyrounded"@);
    assert("extrarounded"@ != "square"@);
    assert("extrarounded"@ != "dots"@);
    assert("extrarounded"@ != "rounded"@);
    assert("extrarounded"@ != "classy"@);
    assert("extrarounded"@ != "classy-rounded"@);
    assert("extrarounded"@ != "classyrounded"@);
    assert("extrarounded"@ != "extra-rounded"@);
}

/// The corner-square type named `value`, compared without ASCII case.
pub open spec fn corner_square_of(value: Seq<char>) -> Option<QrCornerSquareType> {
    let v = ascii_lower(value);
    if v == "square"@ {
        Some(QrCornerSquareType::Square)
    } else if v == "dot"@ {
        Some(QrCornerSquareType::Dot)
    } else if v == "extra-rounded"@ || v == "extrarounded"@ {
        Some(QrCornerSquareType::ExtraRounded)
    } else {
        None
    }
}

/// Read a corner-square type.
pub fn parse_corner_square_type(value: &str) -> (r: Result<QrCornerSquareType, String>)
    ensures
        match r {
            Ok(d) => corner_square_of(value@) == Some(d),
            Err(e) => corner_square_of(value@) is None && e@
                == "cornerSquareType must be one of square, dot, extra-rounded"@,
        },
{
    let lower = to_ascii_lowercase(value);
    let v = lower.as_str();
    if str_eq(v, "square") {
        Ok(QrCornerSquareType::Square)
    } else if str_eq(v, "dot") {
        Ok(QrCornerSquareType::Dot)
    } else if str_eq(v, "extra-rounded") || str_eq(v, "extrarounded") {
        Ok(QrCornerSquareType::ExtraRounded)
    } else {
        Err(to_owned("cornerSquareType must be one of square, dot, extra-rounded"))
    }
}

/// Each cornerSquareType spelling names its own style: the
/// ASCII-lowercased value `square`, `dot`, `extra-rounded` or `extrarounded`
/// gives that style, and no other value is accepted.
pub proof fn lemma_corner_square_spellings(value: Seq<char>)
    ensures
        ascii_lower(value) == "square"@ ==> corner_square_of(value) == Some(
            QrCornerSquareType::Square,
        ),
        ascii_lower(value) == "dot"@ ==> corner_square_of(value) == Some(QrCornerSquareType::Dot),
        ascii_lower(value) == "extra-rounded"@ ==> corner_square_of(value) == Some(
            QrCornerSquareType::ExtraRounded,
        ),
        ascii_lower(value) == "extrarounded"@ ==> corner_square_of(value) == Some(
            QrCornerSquareType::ExtraRounded,
        ),
        corner_square_of(value) is Some ==> {
            let v = ascii_lower(value);
            ||| v == "square"@
            ||| v == "dot"@
            ||| v == "extra-rounded"@
            ||| v == "extrarounded"@
        },
{
    reveal_strlit("square");
    assert("square"@.len() == 6);
    reveal_strlit("dot");
    assert("dot"@.len() == 3);
    reveal_strlit("extra-rounded");
    assert("extra-rounded"@.len() == 13);
    reveal_strlit("extrarounded");
    assert("extrarounded"@.len() == 12);
    assert("dot"@ != "square"@);
    assert("extra-rounded"@ != "square"@);
    assert("extra-rounded"@ != "dot"@);
    assert("extrarounded"@ != "square"@);
    assert("extrarounded"@ != "dot"@);
    assert("extrarounded"@ != "extra-rounded"@);
}

/// The corner-dot type named `value`, compared without ASCII case.
pub open spec fn corner_dot_of(value: Seq<char>) -> Option<QrCornerDotType> {
    let v = ascii_lower(value);
    if v == "dot"@ {
        Some(QrCornerDotType::Dot)
    } else if v == "square"@ {
        Some(QrCornerDotType::Square)
    } else {
        None
    }
}

/// Read a corner-dot type.
pub fn parse_corner_dot_type(value: &str) -> (r: Result<QrCornerDotType, String>)
    ensures
        match r {
            Ok(d) => corner_dot_of(value@) == Some(d),
            Err(e) => corner_dot_of(value@) is None && e@ == "cornerDotType must be one of dot, square"@,
        },
{
    let lower = to_ascii_lowercase(value);
    let v = lower.as_str();
    if str_eq(v, "dot") {
        Ok(QrCornerDotType::Dot)
    } else if str_eq(v, "square") {
        Ok(QrCornerDotType::Square)
    } else {
        Err(to_owned("cornerDotType must be one of dot, square"))
    }
}

/// Each cornerDotType spelling names its own style: the ASCII-lowercased
/// value `dot` or `square` gives that style, and no other value is accepted.
pub proof fn lemma_corner_dot_spellings(value: Seq<char>)
    ensures
        ascii_lower(value) == "dot"@ ==> corner_dot_of(value) == Some(QrCornerDotType::Dot),
        ascii_lower(value) == "square"@ ==> corner_dot_of(value) == Some(QrCornerDotType::Square),
        corner_dot_of(value) is Some ==> ascii_lower(value) == "dot"@ || ascii_lower(value)
            == "square"@,
{
    reveal_strlit("dot");
    assert("dot"@.len() == 3);
    reveal_strlit("square");
    assert("square"@.len() == 6);
    assert("square"@ != "dot"@);
}

/// The canvas shape named `value`, compared without ASCII case.
pub open spec fn shape_of(value: Seq<char>) -> Option<QrShape> {
    let v = ascii_lower(value);
    if v == "square"@ {
        Some(QrShape::Square)
    } else if v == "circle"@ {
        Some(QrShape::Circle)
    } else {
        None
    }
}

/// Read a canvas shape.
pub fn parse_shape(value: &str) -> (r: Result<QrShape, String>)
    ensures
        match r {
            Ok(d) => shape_of(value@) == Some(d),
            Err(e) => shape_of(value@) is None && e@ == "shape must be one of square, circle"@,
        },
{
    let lower = to_ascii_lowercase(value);
    let v = lower.as_str();
    if str_eq(v, "square") {
        Ok(QrShape::Square)
    } else if str_eq(v, "circle") {
        Ok(QrShape::Circle)
    } else {
        Err(to_owned("shape must be one of square, circle"))
    }
}

/// Each shape spelling names its own canvas: the ASCII-lowercased value
/// `square` or `circle` gives that shape, and no other value is accepted.
pub proof fn lemma_shape_spellings(value: Seq<char>)
    ensures
        ascii_lower(value) == "square"@ ==> shape_of(value) == Some(QrShape::Square),
        ascii_lower(value) == "circle"@ ==> shape_of(value) == Some(QrShape::Circle),
        shape_of(value) is Some ==> ascii_lower(value) == "square"@ || ascii_lower(value)
            == "circle"@,
{
    reveal_strlit("square");
    assert("square"@.len() == 6);
    reveal_strlit("circle");
    assert("circle"@.len() == 6);
    assert("circle"@[0] != "square"@[0]);
    assert("circle"@ != "square"@);
}

/// The message for a bad colour parameter.
pub open spec fn color_msg(name: Seq<char>) -> Seq<char> {
    name + " must be #RGB or #RRGGBB"@
}

/// The colour written `value`, as a QR colour.
pub open spec fn color_of(value: Seq<char>) -> Option<QrColor> {
    match hex_color_of(value) {
        Some(c) => Some(QrColor { r: c.0, g: c.1, b: c.2 }),
        None => None,
    }
}

/// Read a colour parameter named `name`: `#RGB` or `#RRGGBB` after trimming.
pub fn parse_hex_color(value: &str, name: &str) -> (r: Result<QrColor, String>)
    ensures
        match r {
            Ok(c) => color_of(value@) == Some(c),
            Err(e) => color_of(value@) is None && e@ == color_msg(name@),
        },
{
    match parse_hex(value) {
        Some((red, green, blue)) => Ok(QrColor { r: red, g: green, b: blue }),
        None => Err(concat2(name, " must be #RGB or #RRGGBB")),
    }
}

// ── Whole queries ──

/// Whether the centre logo is drawn.
pub open spec fn will_render_logo(q: QrCodeQuery) -> bool {
    !q.hide_logo && q.logo is Some
}

/// The margin asked for: explicit, else none when the legacy flag turns
/// margins off, else the default.
pub open spec fn margin_of(q: QrCodeQuery) -> u32 {
    match q.margin {
        Some(m) => m,
        None => if q.include_margin == Some(false) {
            0
        } else {
            QR_DEFAULT_MARGIN
        },
    }
}

/// The optional string, or a default.
pub open spec fn opt_or(o: Option<Seq<char>>, d: Seq<char>) -> Seq<char> {
    match o {
        Some(x) => x,
        None => d,
    }
}

/// The first error of the base options, if any, in the order they are read.
pub open spec fn base_error(q: QrCodeQuery) -> Option<Seq<char>> {
    let size = match q.size {
        Some(s) => s,
        None => QR_DEFAULT_SIZE,
    };
    if !(QR_MIN_SIZE <= size && size <= QR_MAX_SIZE) {
        Some("size must be between 128 and 2048"@)
    } else if margin_of(q) > QR_MAX_MARGIN {
        Some("margin must be between 0 and 16"@)
    } else if q.level is Some && level_of(q.level->0@) is None {
        Some("level must be one of L, M, Q, H"@)
    } else if color_of(opt_or(opt_view(&q.fg_color), "#000000"@)) is None {
        Some(color_msg("fgColor"@))
    } else if color_of(opt_or(opt_view(&q.bg_color), "#FFFFFF"@)) is None {
        Some(color_msg("bgColor"@))
    } else {
        None
    }
}

/// The base options of a query without errors.
pub open spec fn base_ok(q: QrCodeQuery, o: QrBaseOptions) -> bool {
    &&& o.size == (match q.size {
        Some(s) => s,
        None => QR_DEFAULT_SIZE,
    })
    &&& o.margin == margin_of(q)
    &&& o.level == (match q.level {
        Some(v) => level_of(v@)->0,
        None => if will_render_logo(q) {
            QrLevel::H
        } else {
            QrLevel::L
        },
    })
    &&& Some(o.fg) == color_of(opt_or(opt_view(&q.fg_color), "#000000"@))
    &&& Some(o.bg) == color_of(opt_or(opt_view(&q.bg_color), "#FFFFFF"@))
    &&& opt_view(&o.logo_url) == (if will_render_logo(q) {
        opt_view(&q.logo)
    } else {
        None
    })
}

fn opt_as_str<'a>(o: &'a Option<String>, default: &'a str) -> (r: &'a str)
    ensures
        r@ == opt_or(opt_view(o), default@),
{
    match o {
        Some(s) => s.as_str(),
        None => default,
    }
}

impl QrBaseOptions {
    /// Read size, margin, error correction and the two base colours; a
    /// logo raises the default correction to `H`.
    pub fn from_query(q: &QrCodeQuery) -> (r: Result<QrBaseOptions, String>)
        ensures
            match r {
                Ok(o) => base_error(*q) is None && base_ok(*q, o),
                Err(e) => base_error(*q) == Some(e@),
            },
    {
        let size = match q.size {
            Some(s) => s,
            None => QR_DEFAULT_SIZE,
        };
        if !(QR_MIN_SIZE <= size && size <= QR_MAX_SIZE) {
            return Err(to_owned("size must be between 128 and 2048"));
        }
        let margin = match q.margin {
            Some(m) => m,
            None => if q.include_margin == Some(false) {
                0
            } else {
                QR_DEFAULT_MARGIN
            },
        };
        if margin > QR_MAX_MARGIN {
            return Err(to_owned("margin must be between 0 and 16"));
        }
        let logo_drawn = !q.hide_logo && q.logo.is_some();
        let level = match &q.level {
            Some(v) => match parse_ec_level(v.as_str()) {
                Ok(l) => l,
                Err(e) => return Err(e),
            },
            None => if logo_drawn {
                QrLevel::H
            } else {
                QrLevel::L
            },
        };
        let fg = match parse_hex_color(opt_as_str(&q.fg_color, "#000000"), "fgColor") {
            Ok(c) => c,
            Err(e) => return Err(e),
        };
        let bg = match parse_hex_color(opt_as_str(&q.bg_color, "#FFFFFF"), "bgColor") {
            Ok(c) => c,
            Err(e) => return Err(e),
        };
        let logo_url = if logo_drawn {
            match &q.logo {
                Some(u) => Some(u.clone()),
                None => None,
            }
        } else {
            None
        };
        Ok(QrBaseOptions { size, margin, level, fg, bg, logo_url })
    }
}

/// The first error of the style options, if any, in the order they are read.
pub open spec fn style_error(q: QrCodeQuery) -> Option<Seq<char>> {
    if q.dot_type is Some && dot_type_of(q.dot_type->0@) is None {
        Some(dot_type_msg())
    } else if q.corner_square_type is Some && corner_square_of(q.corner_square_type->0@) is None {
        Some("cornerSquareType must be one of square, dot, extra-rounded"@)
    } else if q.corner_dot_type is Some && corner_dot_of(q.corner_dot_type->0@) is None {
        Some("cornerDotType must be one of dot, square"@)
    } else if q.shape is Some && shape_of(q.shape->0@) is None {
        Some("shape must be one of square, circle"@)
    } else if q.dot_color is Some && color_of(q.dot_color->0@) is None {
        Some(color_msg("dotColor"@))
    } else if q.corner_square_color is Some && color_of(q.corner_square_color->0@) is None {
        Some(color_msg("cornerSquareColor"@))
    } else if q.corner_dot_color is Some && color_of(q.corner_dot_color->0@) is None {
        Some(color_msg("cornerDotColor"@))
    } else {
        None
    }
}

/// An optional colour parameter read.
pub open spec fn opt_color(v: Option<String>) -> Option<QrColor> {
    match v {
        Some(s) => color_of(s@),
        None => None,
    }
}

/// The style options of a query without errors.
pub open spec fn style_ok(q: QrCodeQuery, o: QrStyleOptions) -> bool {
    &&& o.dot_type == (match q.dot_type {
        Some(v) => dot_type_of(v@)->0,
        None => QrDotType::Rounded,
    })
    &&& o.corner_square_type == (match q.corner_square_type {
        Some(v) => corner_square_of(v@)->0,
        None => QrCornerSquareType::ExtraRounded,
    })
    &&& o.corner_dot_type == (match q.corner_dot_type {
        Some(v) => corner_dot_of(v@)->0,
        None => QrCornerDotType::Dot,
    })
    &&& o.shape == (match q.shape {
        Some(v) => shape_of(v@)->0,
        None => QrShape::Square,
    })
    &&& o.dot_color == opt_color(q.dot_color)
    &&& o.corner_square_color == opt_color(q.corner_square_color)
    &&& o.corner_dot_color == opt_color(q.corner_dot_color)
}

fn parse_opt_color(v: &Option<String>, name: &str) -> (r: Result<Option<QrColor>, String>)
    ensures
        match r {
            Ok(c) => c == opt_color(*v) && (v is Some ==> c is Some),
            Err(e) => v is Some && color_of(v->0@) is None && e@ == color_msg(name@),
        },
{
    match v {
        Some(s) => match parse_hex_color(s.as_str(), name) {
            Ok(c) => Ok(Some(c)),
            Err(e) => Err(e),
        },
        None => Ok(None),
    }
}

impl QrStyleOptions {
    /// Read the module shapes and per-part colours, with their defaults:
    /// rounded dots, extra-rounded frames, dot pupils, square canvas.
    pub fn from_query(q: &QrCodeQuery) -> (r: Result<QrStyleOptions, String>)
        ensures
            match r {
                Ok(o) => style_error(*q) is None && style_ok(*q, o),
                Err(e) => style_error(*q) == Some(e@),
            },
    {
        let dot_type = match &q.dot_type {
            Some(v) => match parse_dot_type(v.as_str()) {
                Ok(d) => d,
                Err(e) => return Err(e),
            },
            None => QrDotType::Rounded,
        };
        let corner_square_type = match &q.corner_square_type {
            Some(v) => match parse_corner_square_type(v.as_str()) {
                Ok(d) => d,
                Err(e) => return Err(e),
            },
            None => QrCornerSquareType::ExtraRounded,
        };
        let corner_dot_type = match &q.corner_dot_type {
            Some(v) => match parse_corner_dot_type(v.as_str()) {
                Ok(d) => d,
                Err(e) => return Err(e),
            },
            None => QrCornerDotType::Dot,
        };
        let shape = match &q.shape {
            Some(v) => match parse_shape(v.as_str()) {
                Ok(d) => d,
                Err(e) => return Err(e),
            },
            None => QrShape::Square,
        };
        let dot_color = match parse_opt_color(&q.dot_color, "dotColor") {
            Ok(c) => c,
            Err(e) => return Err(e),
        };
        let corner_square_color = match parse_opt_color(&q.corner_square_color, "cornerSquareColor") {
            Ok(c) => c,
            Err(e) => return Err(e),
        };
        let corner_dot_color = match parse_opt_color(&q.corner_dot_color, "cornerDotColor") {
            Ok(c) => c,
            Err(e) => return Err(e),
        };
        Ok(
            QrStyleOptions {
                dot_type,
                corner_square_type,
                corner_dot_type,
                shape,
                dot_color,
                corner_square_color,
                corner_dot_color,
            },
        )
    }

    /// The colours of dots, frames and pupils: each part's own colour, else
    /// the foreground.
    pub fn part_colors(&self, fg: QrColor) -> (r: (QrColor, QrColor, QrColor))
        ensures
            r.0 == override_color(fg, self.dot_color),
            r.1 == override_color(fg, self.corner_square_color),
            r.2 == override_color(fg, self.corner_dot_color),
    {
        (
            match self.dot_color {
                Some(c) => c,
                None => fg,
            },
            match self.corner_square_color {
                Some(c) => c,
                None => fg,
            },
            match self.corner_dot_color {
                Some(c) => c,
                None => fg,
            },
        )
    }
}

/// A part's own colour, else `fg`.
pub open spec fn override_color(fg: QrColor, own: Option<QrColor>) -> QrColor {
    match own {
        Some(c) => c,
        None => fg,
    }
}

// ── The centre logo ──

/// The check on a logo URL: a web URL the server may fetch, its error
/// prefixed with `logo: `.
pub open spec fn logo_url_outcome(byte_len: nat, parsed: Result<crate::weburl::ParsedUrlView, Seq<char>>) -> Result<(), Seq<char>> {
    match web_url_outcome(byte_len, parsed) {
        Ok(()) => Ok(()),
        Err(e) => Err("logo: "@ + e),
    }
}

/// Check a logo URL before it is fetched.
pub fn check_logo_url(url: &str) -> (r: Result<(), String>)
    ensures
        outcome(r) == logo_url_outcome(url.len() as nat, url_parse(url@)),
{
    match validate_web_url(url) {
        Ok(()) => Ok(()),
        Err(e) => Err(concat2("logo: ", e.as_str())),
    }
}

/// Whether a (lowercased) content type is one of the accepted images.
pub open spec fn logo_type_allowed(lower: Seq<char>) -> bool {
    starts_with(lower, "image/png"@) || starts_with(lower, "image/jpeg"@) || starts_with(
        lower,
        "image/webp"@,
    )
}

/// The check on the logo response's content type, when it sends one.
pub open spec fn logo_type_outcome(content_type: Option<Seq<char>>) -> Result<(), Seq<char>> {
    match content_type {
        Some(t) => if logo_type_allowed(unicode_lowercase(t)) {
            Ok(())
        } else {
            Err("logo must be PNG, JPEG, or WebP"@)
        },
        None => Ok(()),
    }
}

/// Check the logo response's content type: PNG, JPEG or WebP, in any case.
pub fn check_logo_content_type(content_type: Option<&str>) -> (r: Result<(), String>)
    ensures
        outcome(r) == logo_type_outcome(crate::render::opt_str(content_type)),
{
    match content_type {
        None => Ok(()),
        Some(t) => {
            let lower = to_lowercase(t);
            if str_starts_with(lower.as_str(), "image/png") || str_starts_with(lower.as_str(), "image/jpeg")
                || str_starts_with(lower.as_str(), "image/webp") {
                Ok(())
            } else {
                Err(to_owned("logo must be PNG, JPEG, or WebP"))
            }
        },
    }
}

/// Check the size of the fetched logo.
pub fn check_logo_size(len: usize) -> (r: Result<(), String>)
    ensures
        outcome(r) == (if len > QR_MAX_LOGO_BYTES {
            Err::<(), Seq<char>>("logo must be under 524288 bytes"@)
        } else {
            Ok(())
        }),
{
    if len > QR_MAX_LOGO_BYTES {
        Err(to_owned("logo must be under 524288 bytes"))
    } else {
        Ok(())
    }
}

/// The quiet zone in pixels: ten pixels per module, saturating.
pub fn margin_px(margin: u32) -> (r: u32)
    ensures
        r == (if margin * 10 > u32::MAX {
            u32::MAX as int
        } else {
            margin * 10
        }),
{
    if margin > 429496729 {
        u32::MAX
    } else {
        margin * 10
    }
}

/// The content type of a rendered QR code.
pub fn qr_content_type(format: QrOutputFormat) -> (r: &'static str)
    ensures
        r@ == match format {
            QrOutputFormat::Png => "image/png"@,
            QrOutputFormat::Svg => "image/svg+xml; charset=utf-8"@,
        },
{
    match format {
        QrOutputFormat::Png => "image/png",
        QrOutputFormat::Svg => "image/svg+xml; charset=utf-8",
    }
}

} // verus!
