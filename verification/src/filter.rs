//! The video filter handed to FFmpeg: resample, then scale.
//!
//! The scale filter takes one expression for the output width and one for
//! the output height. Both are written in FFmpeg's expression language, of
//! which this module models the part it writes: numbers, the input's width
//! `iw` and height `ih`, the comparison `gt` and the conditional `if`.

use crate::decimal::{decimal, decimal_string};
use vstd::prelude::*;
use vstd::string::*;

verus! {

/// An expression over the width and height of the input video.
pub enum Expr {
    /// An integer constant.
    Number(int),
    /// `iw`, the width of the input.
    InputWidth,
    /// `ih`, the height of the input.
    InputHeight,
    /// `gt(a,b)`: 1 if `a` is greater than `b`, else 0.
    Gt(Box<Expr>, Box<Expr>),
    /// `if(c,a,b)`: `a` if `c` is not 0, else `b`.
    If(Box<Expr>, Box<Expr>, Box<Expr>),
}

impl Expr {
    /// The value of the expression for an input of `iw` by `ih` pixels.
    pub open spec fn eval(self, iw: int, ih: int) -> int
        decreases self,
    {
        match self {
            Expr::Number(n) => n,
            Expr::InputWidth => iw,
            Expr::InputHeight => ih,
            Expr::Gt(a, b) => if a.eval(iw, ih) > b.eval(iw, ih) {
                1
            } else {
                0
            },
            Expr::If(c, a, b) => if c.eval(iw, ih) != 0 {
                a.eval(iw, ih)
            } else {
                b.eval(iw, ih)
            },
        }
    }

    /// The expression as FFmpeg reads it.
    pub open spec fn render(self) -> Seq<char>
        decreases self,
    {
        match self {
            Expr::Number(n) => if n < 0 {
                seq!['-'] + decimal((-n) as nat)
            } else {
                decimal(n as nat)
            },
            Expr::InputWidth => seq!['i', 'w'],
            Expr::InputHeight => seq!['i', 'h'],
            Expr::Gt(a, b) => seq!['g', 't', '('] + a.render() + seq![','] + b.render() + seq![')'],
            Expr::If(c, a, b) => seq!['i', 'f', '('] + c.render() + seq![','] + a.render()
                + seq![','] + b.render() + seq![')'],
        }
    }
}

/// The size that tells the scale filter to derive a side from the other one:
/// the aspect ratio is kept, and the derived side is rounded to a multiple of
/// two, as the encoder requires.
pub open spec fn proportional_even() -> int {
    -2
}

/// Whether the input is wider than it is high.
pub open spec fn is_landscape() -> Expr {
    Expr::Gt(Box::new(Expr::InputWidth), Box::new(Expr::InputHeight))
}

/// The width asked of the scale filter: `max_dimension` for an input that is
/// wider than high, else derived from the height.
pub open spec fn scale_width(max_dimension: nat) -> Expr {
    Expr::If(
        Box::new(is_landscape()),
        Box::new(Expr::Number(max_dimension as int)),
        Box::new(Expr::Number(proportional_even())),
    )
}

/// The height asked of the scale filter: derived from the width for an input
/// that is wider than high, else `max_dimension`.
pub open spec fn scale_height(max_dimension: nat) -> Expr {
    Expr::If(
        Box::new(is_landscape()),
        Box::new(Expr::Number(proportional_even())),
        Box::new(Expr::Number(max_dimension as int)),
    )
}

/// The text of `scale_width(max_dimension)`.
pub open spec fn scale_width_text(max_dimension: nat) -> Seq<char> {
    "if(gt(iw,ih),"@ + decimal(max_dimension) + ",-2)"@
}

/// The text of `scale_height(max_dimension)`.
pub open spec fn scale_height_text(max_dimension: nat) -> Seq<char> {
    "if(gt(iw,ih),-2,"@ + decimal(max_dimension) + ")"@
}

/// The filter that samples `fps` frames per second and then scales, with
/// Lanczos resampling, to the width and height that `scale_width` and
/// `scale_height` give for `max_dimension`.
pub open spec fn filter_text(fps: nat, max_dimension: nat) -> Seq<char> {
    "fps="@ + decimal(fps) + ",scale='"@ + scale_width_text(max_dimension) + "':'"@
        + scale_height_text(max_dimension) + "':flags=lanczos"@
}

/// The longer side decides: for an input wider than high the width is set to
/// `max_dimension` and the height follows in proportion; otherwise the
/// height is set to `max_dimension` and the width follows.
pub proof fn lemma_scale_follows_longer_side(max_dimension: nat, iw: int, ih: int)
    ensures
        iw > ih ==> scale_width(max_dimension).eval(iw, ih) == max_dimension && scale_height(
            max_dimension,
        ).eval(iw, ih) == proportional_even(),
        iw <= ih ==> scale_width(max_dimension).eval(iw, ih) == proportional_even()
            && scale_height(max_dimension).eval(iw, ih) == max_dimension,
{
    reveal_with_fuel(Expr::eval, 3);
}

proof fn lemma_is_landscape_text()
    ensures
        is_landscape().render() == seq!['g', 't', '(', 'i', 'w', ',', 'i', 'h', ')'],
{
    reveal_with_fuel(Expr::render, 2);
    assert(is_landscape().render() =~= seq!['g', 't', '(', 'i', 'w', ',', 'i', 'h', ')']);
}

proof fn lemma_proportional_even_text()
    ensures
        Expr::Number(proportional_even()).render() == seq!['-', '2'],
{
    assert(decimal(2) =~= seq!['2']);
    assert(Expr::Number(proportional_even()).render() =~= seq!['-', '2']);
}

/// `scale_width_text` writes `scale_width`.
pub proof fn lemma_scale_width_text(max_dimension: nat)
    ensures
        scale_width(max_dimension).render() == scale_width_text(max_dimension),
{
    lemma_is_landscape_text();
    lemma_proportional_even_text();
    reveal_strlit("if(gt(iw,ih),");
    reveal_strlit(",-2)");
    let size = Expr::Number(max_dimension as int).render();
    assert(size == decimal(max_dimension));
    assert(scale_width(max_dimension).render() == seq!['i', 'f', '('] + is_landscape().render()
        + seq![','] + size + seq![','] + Expr::Number(proportional_even()).render() + seq![')']);
    assert("if(gt(iw,ih),"@ =~= seq!['i', 'f', '('] + is_landscape().render() + seq![',']);
    assert(",-2)"@ =~= seq![','] + Expr::Number(proportional_even()).render() + seq![')']);
    assert(scale_width(max_dimension).render() =~= scale_width_text(max_dimension));
}

/// `scale_height_text` writes `scale_height`.
pub proof fn lemma_scale_height_text(max_dimension: nat)
    ensures
        scale_height(max_dimension).render() == scale_height_text(max_dimension),
{
    lemma_is_landscape_text();
    lemma_proportional_even_text();
    reveal_strlit("if(gt(iw,ih),-2,");
    reveal_strlit(")");
    let size = Expr::Number(max_dimension as int).render();
    assert(size == decimal(max_dimension));
    assert(scale_height(max_dimension).render() == seq!['i', 'f', '('] + is_landscape().render()
        + seq![','] + Expr::Number(proportional_even()).render() + seq![','] + size + seq![')']);
    assert("if(gt(iw,ih),-2,"@ =~= seq!['i', 'f', '('] + is_landscape().render() + seq![',']
        + Expr::Number(proportional_even()).render() + seq![',']);
    assert(")"@ =~= seq![')']);
    assert(scale_height(max_dimension).render() =~= scale_height_text(max_dimension));
}

/// Writes the filter that samples `fps` frames per second and scales the
/// longer side to `max_dimension` pixels.
pub fn scale_filter(fps: u32, max_dimension: u32) -> (text: String)
    ensures
        text@ == filter_text(fps as nat, max_dimension as nat),
{
    let size = decimal_string(max_dimension);
    let mut width = String::from_str("if(gt(iw,ih),");
    width.append(size.as_str());
    width.append(",-2)");
    let mut height = String::from_str("if(gt(iw,ih),-2,");
    height.append(size.as_str());
    height.append(")");
    let mut text = String::from_str("fps=");
    text.append(decimal_string(fps).as_str());
    text.append(",scale='");
    text.append(width.as_str());
    text.append("':'");
    text.append(height.as_str());
    text.append("':flags=lanczos");
    text
}

} // verus!
