//! Renders a symbol matrix as vector image markup: each module becomes one
//! square cell of an integer unit size, scaled so the image covers the
//! requested minimum dimensions in both axes without distorting the module
//! aspect ratio. Every module is colored exactly one of the two supplied
//! colors: light for the background and quiet zone, dark for data modules.

use vstd::prelude::*;
use vstd::string::StringExecFns;
use vstd::arithmetic::div_mod::{lemma_fundamental_div_mod, lemma_mod_bound};
use crate::numeral::{decimal_of, append_decimal};
use crate::symbol::symbol_wf;

verus! {

/// The side of the module grid once a quiet zone of four modules surrounds
/// the symbol on every side.
pub open spec fn grid_side(width: nat) -> nat {
    width + 8
}

/// The unit cell size: the smallest positive integer scale at which a grid
/// of `total` modules a side covers both requested minimum dimensions.
pub open spec fn spec_scale(total: nat, min_w: nat, min_h: nat) -> nat {
    let target: nat = if min_w >= min_h {
        min_w
    } else {
        min_h
    };
    let q: int = (target + total - 1) as int / total as int;
    if q <= 0 {
        1
    } else {
        q as nat
    }
}

/// The rendered image's side in pixels for a symbol `width` modules wide.
pub open spec fn rendered_size(width: nat, min_w: nat, min_h: nat) -> nat {
    grid_side(width) * spec_scale(grid_side(width), min_w, min_h)
}

/// Picks the unit cell size for a grid of `total` modules a side: the
/// resulting image side `total * unit` is at least both requested minimums.
fn scale_for(total: u64, min_w: u32, min_h: u32) -> (r: u64)
    requires
        1 <= total <= 185,
    ensures
        r == spec_scale(total as nat, min_w as nat, min_h as nat),
        1 <= r <= 0x1_0000_0100,
        total * r >= min_w,
        total * r >= min_h,
{
    let target: u64 = if min_w >= min_h {
        min_w as u64
    } else {
        min_h as u64
    };
    let a: u64 = target + total - 1;
    let q: u64 = a / total;
    proof {
        lemma_fundamental_div_mod(a as int, total as int);
        lemma_mod_bound(a as int, total as int);
        assert(total * q >= target);
        assert(total * q >= q) by (nonlinear_arith)
            requires
                total >= 1,
                q >= 0,
        ;
        assert(q <= a);
    }
    let r: u64 = if q == 0 {
        1
    } else {
        q
    };
    proof {
        if q == 0 {
            assert((total as int) * ((a as int) / (total as int)) == 0) by (nonlinear_arith)
                requires
                    (a as int) / (total as int) == 0,
            ;
            assert(a < total);
            assert(target == 0);
            assert(total * r == total) by (nonlinear_arith)
                requires
                    r == 1,
            ;
        } else {
            assert(total * r == total * q);
        }
        assert(total * r >= target);
    }
    r
}

/// The opening tag of the image: fixed namespace and version, the side in
/// pixels as both width and height.
pub open spec fn svg_open(size: nat) -> Seq<char> {
    "<svg xmlns=\"http://www.w3.org/2000/svg\" version=\"1.1\" width=\""@ + decimal_of(size)
        + "\" height=\""@ + decimal_of(size) + "\">"@
}

/// The background rectangle covering the whole image, quiet zone included,
/// in the light color.
pub open spec fn bg_rect(size: nat, light: Seq<char>) -> Seq<char> {
    "<rect width=\""@ + decimal_of(size) + "\" height=\""@ + decimal_of(size) + "\" fill=\""@
        + light + "\"/>"@
}

/// One dark module's unit cell at pixel position (x, y).
pub open spec fn module_rect(x: nat, y: nat, unit: nat, dark: Seq<char>) -> Seq<char> {
    "<rect x=\""@ + decimal_of(x) + "\" y=\""@ + decimal_of(y) + "\" width=\""@ + decimal_of(unit)
        + "\" height=\""@ + decimal_of(unit) + "\" fill=\""@ + dark + "\"/>"@
}

/// The cells of the dark modules of a flattened symbol, row by row: the
/// module at flat index `i` sits at grid column `i % width` and row
/// `i / width`, offset by the quiet zone; light modules add nothing (the
/// background already shows the light color there).
pub open spec fn modules_markup(modules: Seq<bool>, width: nat, unit: nat, dark: Seq<char>) -> Seq<
    char,
>
    decreases modules.len(),
{
    if modules.len() == 0 {
        Seq::<char>::empty()
    } else {
        let i: nat = (modules.len() - 1) as nat;
        modules_markup(modules.drop_last(), width, unit, dark) + if modules.last() {
            module_rect((4 + i % width) * unit, (4 + i / width) * unit, unit, dark)
        } else {
            Seq::<char>::empty()
        }
    }
}

/// The whole image: opening tag, background, one cell per dark module in
/// row order, closing tag.
pub open spec fn image_markup(
    width: nat,
    modules: Seq<bool>,
    unit: nat,
    light: Seq<char>,
    dark: Seq<char>,
) -> Seq<char> {
    svg_open(grid_side(width) * unit) + bg_rect(grid_side(width) * unit, light) + modules_markup(
        modules,
        width,
        unit,
        dark,
    ) + "</svg>"@
}

/// Appends one dark module's unit cell at pixel position (x, y).
fn append_module_rect(s: &mut String, x: u64, y: u64, unit: u64, dark: &str)
    ensures
        final(s)@ == old(s)@ + module_rect(x as nat, y as nat, unit as nat, dark@),
{
    s.append("<rect x=\"");
    append_decimal(s, x);
    s.append("\" y=\"");
    append_decimal(s, y);
    s.append("\" width=\"");
    append_decimal(s, unit);
    s.append("\" height=\"");
    append_decimal(s, unit);
    s.append("\" fill=\"");
    s.append(dark);
    s.append("\"/>");
    proof {
        assert(s@ =~= old(s)@ + module_rect(x as nat, y as nat, unit as nat, dark@));
    }
}

/// Renders a well-formed symbol as vector markup no smaller than the
/// requested minimum dimensions in either axis, with square modules: light
/// color on background and quiet zone, dark color on data modules.
#[verifier::rlimit(60)]
pub fn render_svg(
    width: usize,
    modules: &Vec<bool>,
    min_w: u32,
    min_h: u32,
    light: &str,
    dark: &str,
) -> (r: String)
    requires
        symbol_wf(width as nat, modules@),
    ensures
        r@ == image_markup(
            width as nat,
            modules@,
            spec_scale(grid_side(width as nat), min_w as nat, min_h as nat),
            light@,
            dark@,
        ),
        rendered_size(width as nat, min_w as nat, min_h as nat) >= min_w,
        rendered_size(width as nat, min_w as nat, min_h as nat) >= min_h,
{
    let total: u64 = width as u64 + 8;
    let unit: u64 = scale_for(total, min_w, min_h);
    proof {
        assert(total * unit <= 185 * 0x1_0000_0100) by (nonlinear_arith)
            requires
                total <= 185,
                unit <= 0x1_0000_0100,
                total >= 0,
                unit >= 0,
        ;
    }
    let size: u64 = total * unit;
    let mut s = String::from_str(
        "<svg xmlns=\"http://www.w3.org/2000/svg\" version=\"1.1\" width=\"",
    );
    append_decimal(&mut s, size);
    s.append("\" height=\"");
    append_decimal(&mut s, size);
    s.append("\">");
    s.append("<rect width=\"");
    append_decimal(&mut s, size);
    s.append("\" height=\"");
    append_decimal(&mut s, size);
    s.append("\" fill=\"");
    s.append(light);
    s.append("\"/>");
    proof {
        assert(s@ =~= svg_open(size as nat) + bg_rect(size as nat, light@));
    }
    let ghost head: Seq<char> = s@;
    let mut i: usize = 0;
    while i < modules.len()
        invariant
            i <= modules.len(),
            modules@.len() == (width as nat) * (width as nat),
            21 <= width <= 177,
            1 <= unit <= 0x1_0000_0100,
            s@ == head + modules_markup(modules@.take(i as int), width as nat, unit as nat, dark@),
        decreases modules.len() - i,
    {
        if modules[i] {
            proof {
                assert((i as int) / (width as int) < width as int) by (nonlinear_arith)
                    requires
                        width >= 1,
                        0 <= i < (width as int) * (width as int),
                ;
            }
            let col: usize = i % width;
            let row: usize = i / width;
            proof {
                assert(col < width);
                assert(row < width);
                assert((4 + col as int) * (unit as int) <= 181 * 0x1_0000_0100)
                    by (nonlinear_arith)
                    requires
                        col <= 176,
                        1 <= unit <= 0x1_0000_0100,
                ;
                assert((4 + row as int) * (unit as int) <= 181 * 0x1_0000_0100)
                    by (nonlinear_arith)
                    requires
                        row <= 176,
                        1 <= unit <= 0x1_0000_0100,
                ;
            }
            let x: u64 = (4 + col as u64) * unit;
            let y: u64 = (4 + row as u64) * unit;
            append_module_rect(&mut s, x, y, unit, dark);
        }
        proof {
            let t = modules@.take(i as int + 1);
            assert(t.drop_last() =~= modules@.take(i as int));
            assert(t.last() == modules@[i as int]);
            assert(s@ =~= head + modules_markup(t, width as nat, unit as nat, dark@));
        }
        i += 1;
    }
    proof {
        assert(modules@.take(i as int) =~= modules@);
    }
    s.append("</svg>");
    proof {
        assert(s@ =~= image_markup(width as nat, modules@, unit as nat, light@, dark@));
    }
    s
}

} // verus!
