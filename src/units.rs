use vstd::prelude::*;
use vstd::string::StringExecFns;
use crate::text::{decimal, fixed_point, push_decimal, push_fixed, round_div};

verus! {

/// An unsigned rational as stored in image metadata: `num / denom`.
/// A zero denominator stands for a value that is not finite.
#[derive(Clone, Copy, Debug, PartialEq, Eq, Structural)]
pub struct Ratio {
    pub num: u32,
    pub denom: u32,
}

impl Ratio {
    pub open spec fn finite(self) -> bool {
        self.denom > 0
    }

    /// The integer nearest to the value, halves rounded up.
    pub open spec fn nearest(self) -> nat {
        round_div(self.num as nat, self.denom as nat)
    }

    /// The value times `k`, rounded to the nearest integer.
    pub open spec fn scaled(self, k: nat) -> nat {
        round_div(self.num as nat * k, self.denom as nat)
    }

    /// The value lies closer than `1 / k` to its nearest integer.
    pub open spec fn near_whole(self, k: nat) -> bool {
        k * abs_int(self.num - self.nearest() * self.denom) < self.denom
    }
}

pub open spec fn abs_int(x: int) -> nat {
    if x < 0 { (-x) as nat } else { x as nat }
}

/// `|a - b| < 1 / k` for two finite rationals.
pub open spec fn closer_than(a: Ratio, b: Ratio, k: nat) -> bool {
    &&& a.finite()
    &&& b.finite()
    &&& k * abs_int(a.num * b.denom - b.num * a.denom) < a.denom * b.denom
}

/// A focal length: whole millimetres when within a tenth of them, else one decimal.
pub open spec fn focal_length_text(r: Ratio) -> Seq<char> {
    if r.near_whole(10) {
        decimal(r.nearest()) + "mm"@
    } else {
        fixed_point(r.scaled(10), 1) + "mm"@
    }
}

/// An f-number: whole when within a twentieth of it, else one decimal.
pub open spec fn fnumber_text(r: Ratio) -> Seq<char> {
    if !r.finite() {
        "f/--"@
    } else if r.near_whole(20) {
        "f/"@ + decimal(r.nearest())
    } else {
        "f/"@ + fixed_point(r.scaled(10), 1)
    }
}

/// The reciprocal of a short exposure, rounded.
pub open spec fn reciprocal(r: Ratio) -> nat {
    round_div(r.denom as nat, r.num as nat)
}

/// `1 / reciprocal(r)` lies within a hundredth of a second of `r`, and the
/// reciprocal is a usual shutter step (at most 8000).
pub open spec fn reciprocal_fits(r: Ratio) -> bool {
    let n = reciprocal(r);
    &&& n <= 8000
    &&& 100 * abs_int(r.denom - r.num * n) < n * r.denom
}

/// An exposure time of a positive, finite `r` seconds.
pub open spec fn shutter_text(r: Ratio) -> Seq<char> {
    if r.num >= r.denom {
        if r.near_whole(100) {
            decimal(r.nearest()) + "s"@
        } else {
            fixed_point(r.scaled(100), 2) + "s"@
        }
    } else if reciprocal_fits(r) {
        "1/"@ + decimal(reciprocal(r)) + "s"@
    } else {
        fixed_point(r.scaled(1000), 3) + "s"@
    }
}

/// A value rounded to whole units; a value that is not finite reads `NaN` or `inf`.
pub open spec fn whole_text(r: Ratio) -> Seq<char> {
    if r.finite() {
        decimal(r.nearest())
    } else if r.num == 0 {
        "NaN"@
    } else {
        "inf"@
    }
}

/// A lens described by its focal range and aperture range.
pub open spec fn lens_spec_text(focal_min: Ratio, focal_max: Ratio, ap_min: Ratio, ap_max: Ratio) -> Seq<char> {
    let focal = if closer_than(focal_min, focal_max, 2) {
        whole_text(focal_min) + "mm"@
    } else {
        whole_text(focal_min) + "-"@ + whole_text(focal_max) + "mm"@
    };
    let aperture = if closer_than(ap_min, ap_max, 10) {
        fnumber_text(ap_min)
    } else {
        fnumber_text(ap_min) + "-"@ + fnumber_text(ap_max)
    };
    focal + " "@ + aperture
}

pub open spec fn focal_35mm_text(v: u32) -> Seq<char> {
    decimal(v as nat) + "mm (35mm eq)"@
}

pub open spec fn iso_text(v: u32) -> Seq<char> {
    "ISO "@ + decimal(v as nat)
}

fn abs_diff(a: u128, b: u128) -> (r: u128)
    ensures
        r == abs_int(a - b),
{
    if a >= b { a - b } else { b - a }
}

/// `round_div(a, b)` on machine integers.
fn round_div_exec(a: u128, b: u128) -> (r: u128)
    requires
        b > 0,
        a <= 0xffff_ffff_ffff_ffff_ffff,
        b <= 0xffff_ffff_ffff_ffff,
    ensures
        r == round_div(a as nat, b as nat),
{
    (a + b / 2) / b
}

impl Ratio {
    fn nearest_exec(self) -> (r: u128)
        requires
            self.finite(),
        ensures
            r == self.nearest(),
            r <= 0xffff_ffff_ffff,
    {
        let r = round_div_exec(self.num as u128, self.denom as u128);
        assert(r <= 0xffff_ffff_ffff) by (nonlinear_arith)
            requires r == (self.num as nat + self.denom as nat / 2) / self.denom as nat,
                self.denom > 0, self.num <= 0xffff_ffff;
        r
    }

    fn scaled_exec(self, k: u128) -> (r: u128)
        requires
            self.finite(),
            k <= 1000,
        ensures
            r == self.scaled(k as nat),
    {
        assert(self.num as nat * k <= 0xffff_ffff * 1000) by (nonlinear_arith)
            requires self.num <= 0xffff_ffff, k <= 1000;
        round_div_exec(self.num as u128 * k, self.denom as u128)
    }

    fn near_whole_exec(self, k: u128) -> (b: bool)
        requires
            self.finite(),
            k <= 1000,
        ensures
            b == self.near_whole(k as nat),
    {
        let n = self.nearest_exec();
        assert(n * self.denom as nat <= 0xffff_ffff_ffff * 0xffff_ffff) by (nonlinear_arith)
            requires n <= 0xffff_ffff_ffff, self.denom <= 0xffff_ffff;
        let d = abs_diff(self.num as u128, n * self.denom as u128);
        assert(d <= 0xffff_ffff_ffff * 0xffff_ffff);
        assert(k * d <= 1000 * (0xffff_ffff_ffff * 0xffff_ffff)) by (nonlinear_arith)
            requires k <= 1000, d <= 0xffff_ffff_ffff * 0xffff_ffff;
        k * d < self.denom as u128
    }
}

fn mul32(a: u32, b: u32) -> (r: u128)
    ensures
        r == a as nat * b as nat,
        r <= 0xffff_ffff * 0xffff_ffff,
{
    assert(a as nat * b as nat <= 0xffff_ffff * 0xffff_ffff) by (nonlinear_arith)
        requires a <= 0xffff_ffff, b <= 0xffff_ffff;
    a as u128 * b as u128
}

pub(crate) fn closer_than_exec(a: Ratio, b: Ratio, k: u128) -> (r: bool)
    requires
        k <= 1000,
    ensures
        r == closer_than(a, b, k as nat),
{
    if a.denom == 0 || b.denom == 0 {
        return false;
    }
    let x = mul32(a.num, b.denom);
    let y = mul32(b.num, a.denom);
    let p = mul32(a.denom, b.denom);
    let d = abs_diff(x, y);
    assert(k * d <= 1000 * (0xffff_ffff * 0xffff_ffff)) by (nonlinear_arith)
        requires k <= 1000, d <= 0xffff_ffff * 0xffff_ffff;
    k * d < p
}

/// Appends `focal_length_text(r)`.
pub fn push_focal_length(s: &mut String, r: Ratio)
    requires
        r.finite(),
    ensures
        final(s)@ == old(s)@ + focal_length_text(r),
{
    if r.near_whole_exec(10) {
        push_decimal(s, r.nearest_exec());
    } else {
        push_fixed(s, r.scaled_exec(10), 1);
    }
    s.append("mm");
    assert(final(s)@ =~= old(s)@ + focal_length_text(r));
}

/// Renders an f-number.
pub fn format_fnumber(r: Ratio) -> (t: String)
    ensures
        t@ == fnumber_text(r),
{
    if r.denom == 0 {
        return String::from_str("f/--");
    }
    let mut s = String::from_str("f/");
    if r.near_whole_exec(20) {
        push_decimal(&mut s, r.nearest_exec());
    } else {
        push_fixed(&mut s, r.scaled_exec(10), 1);
    }
    assert(s@ =~= fnumber_text(r));
    s
}

/// Renders an exposure time given in seconds.
pub fn format_shutter(r: Ratio) -> (t: String)
    requires
        r.num > 0,
        r.finite(),
    ensures
        t@ == shutter_text(r),
{
    let mut s = String::new();
    if r.num >= r.denom {
        if r.near_whole_exec(100) {
            push_decimal(&mut s, r.nearest_exec());
        } else {
            push_fixed(&mut s, r.scaled_exec(100), 2);
        }
        s.append("s");
    } else {
        let n = round_div_exec(r.denom as u128, r.num as u128);
        let fits = if n <= 8000 {
            assert(r.num as nat * n <= 0xffff_ffff * 8000) by (nonlinear_arith)
                requires r.num <= 0xffff_ffff, n <= 8000;
            assert(n * r.denom as nat <= 8000 * 0xffff_ffff) by (nonlinear_arith)
                requires r.denom <= 0xffff_ffff, n <= 8000;
            let d = abs_diff(r.denom as u128, r.num as u128 * n);
            100 * d < n * r.denom as u128
        } else {
            false
        };
        if fits {
            s.append("1/");
            push_decimal(&mut s, n);
            s.append("s");
        } else {
            push_fixed(&mut s, r.scaled_exec(1000), 3);
            s.append("s");
        }
    }
    assert(s@ =~= shutter_text(r));
    s
}

fn push_whole(s: &mut String, r: Ratio)
    ensures
        final(s)@ == old(s)@ + whole_text(r),
{
    if r.denom > 0 {
        push_decimal(s, r.nearest_exec());
    } else if r.num == 0 {
        s.append("NaN");
    } else {
        s.append("inf");
    }
}

/// Renders a lens from its focal range and aperture range.
pub fn format_lens_spec(focal_min: Ratio, focal_max: Ratio, ap_min: Ratio, ap_max: Ratio) -> (t: String)
    ensures
        t@ == lens_spec_text(focal_min, focal_max, ap_min, ap_max),
{
    let mut s = String::new();
    push_whole(&mut s, focal_min);
    if !closer_than_exec(focal_min, focal_max, 2) {
        s.append("-");
        push_whole(&mut s, focal_max);
    }
    s.append("mm ");
    let lo = format_fnumber(ap_min);
    s.append(lo.as_str());
    if !closer_than_exec(ap_min, ap_max, 10) {
        s.append("-");
        let hi = format_fnumber(ap_max);
        s.append(hi.as_str());
    }
    proof {
        reveal_strlit("mm ");
        reveal_strlit("mm");
        reveal_strlit(" ");
    }
    assert(s@ =~= lens_spec_text(focal_min, focal_max, ap_min, ap_max));
    s
}

/// Renders a 35 mm equivalent focal length.
pub fn format_focal_35mm(v: u32) -> (t: String)
    ensures
        t@ == focal_35mm_text(v),
{
    let mut s = String::new();
    push_decimal(&mut s, v as u128);
    s.append("mm (35mm eq)");
    assert(s@ =~= focal_35mm_text(v));
    s
}

/// Renders a sensitivity.
pub fn format_iso(v: u32) -> (t: String)
    ensures
        t@ == iso_text(v),
{
    let mut s = String::from_str("ISO ");
    push_decimal(&mut s, v as u128);
    s
}

} // verus!
