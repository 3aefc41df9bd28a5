use vstd::prelude::*;
use vstd::arithmetic::div_mod::lemma_fundamental_div_mod_converse_div;
use vstd::string::{StrSliceExecFns, StringExecFns};
use crate::metadata::{field_text, field_to_string, find_field, lookup, Field, Metadata, Tag, TagValue};
use crate::strings::{text_of, trim, trimmed, Strip};
use crate::text::{fixed_point, push_char, push_fixed, round_div};
use crate::units::Ratio;

verus! {

/// An unsigned angle in degrees, `num / den`, with `den > 0`.
#[derive(Clone, Copy, Debug, PartialEq, Eq, Structural)]
pub struct Angle {
    pub num: u128,
    pub den: u128,
}

/// Decoded position: magnitudes, hemispheres and the display line.
#[derive(Debug)]
pub struct GpsData {
    /// `"<lat>° <N|S>, <lon>° <E|W>"`, magnitudes with six decimals.
    pub display: String,
    pub latitude: Angle,
    /// The latitude lies south of the equator.
    pub south: bool,
    pub longitude: Angle,
    /// The longitude lies west of the prime meridian.
    pub west: bool,
}

pub open spec fn dms_num(d: Ratio, m: Ratio, s: Ratio) -> nat {
    (3600 * d.num * m.denom * s.denom + 60 * m.num * d.denom * s.denom + s.num * d.denom * m.denom) as nat
}

pub open spec fn dms_den(d: Ratio, m: Ratio, s: Ratio) -> nat {
    (3600 * d.denom * m.denom * s.denom) as nat
}

/// Degrees, minutes and seconds as one angle: `d + m / 60 + s / 3600`, exactly.
pub open spec fn dms_angle(d: Ratio, m: Ratio, s: Ratio) -> Angle {
    Angle { num: dms_num(d, m, s) as u128, den: dms_den(d, m, s) as u128 }
}

/// The angle in millionths of a degree, rounded to the nearest.
pub open spec fn micro_degrees(a: Angle) -> nat {
    round_div(a.num as nat * 1_000_000, a.den as nat)
}

/// The angle with six decimals.
pub open spec fn degrees_text(a: Angle) -> Seq<char> {
    fixed_point(micro_degrees(a), 6)
}

/// The angle that a field of three finite rationals holds.
pub open spec fn coordinate_of(v: TagValue) -> Option<Angle> {
    match v {
        TagValue::Rational(vs) => {
            if vs@.len() >= 3 && vs@[0].finite() && vs@[1].finite() && vs@[2].finite() {
                Some(dms_angle(vs@[0], vs@[1], vs@[2]))
            } else {
                None
            }
        },
        _ => None,
    }
}

/// The largest value of a 32-bit field.
pub const M32: u128 = 0xffff_ffff;

fn mul3(a: u32, b: u32, c: u32) -> (r: u128)
    ensures
        r == a as nat * b as nat * c as nat,
        r <= M32 * M32 * M32,
{
    assert(a as nat * b as nat <= M32 * M32) by (nonlinear_arith)
        requires a <= M32, b <= M32;
    assert(a as nat * b as nat * c as nat <= M32 * M32 * M32) by (nonlinear_arith)
        requires a as nat * b as nat <= M32 * M32, c <= M32;
    a as u128 * b as u128 * c as u128
}

/// Converts degrees, minutes and seconds to one angle; absent unless there
/// are three finite rationals.
pub fn gps_coordinate(value: &TagValue) -> (r: Option<Angle>)
    ensures
        r == coordinate_of(*value),
        r matches Some(a) ==> a.den > 0 && a.den <= 3600 * M32 * M32 * M32
            && a.num <= 3661 * M32 * M32 * M32,
{
    match value {
        TagValue::Rational(vs) => {
            if vs.len() >= 3 && vs[0].denom > 0 && vs[1].denom > 0 && vs[2].denom > 0 {
                let d = vs[0];
                let m = vs[1];
                let s = vs[2];
                let a = mul3(d.num, m.denom, s.denom);
                let b = mul3(m.num, d.denom, s.denom);
                let c = mul3(s.num, d.denom, m.denom);
                let e = mul3(d.denom, m.denom, s.denom);
                assert(d.denom as nat * m.denom as nat * s.denom as nat > 0) by (nonlinear_arith)
                    requires d.denom > 0, m.denom > 0, s.denom > 0;
                let num = 3600 * a + 60 * b + c;
                let den = 3600 * e;
                assert(num == dms_num(d, m, s)) by (nonlinear_arith)
                    requires num == 3600 * a + 60 * b + c, a == d.num as nat * m.denom as nat * s.denom as nat,
                        b == m.num as nat * d.denom as nat * s.denom as nat,
                        c == s.num as nat * d.denom as nat * m.denom as nat;
                assert(den == dms_den(d, m, s)) by (nonlinear_arith)
                    requires den == 3600 * e, e == d.denom as nat * m.denom as nat * s.denom as nat;
                Some(Angle { num, den })
            } else {
                None
            }
        },
        _ => None,
    }
}

proof fn lemma_split_round(n: nat, den: nat, q: nat, r: nat)
    requires
        den > 0,
        n == q * den + r,
        r < den,
    ensures
        round_div(n * 1_000_000, den) == q * 1_000_000 + (r * 1_000_000 + den / 2) / den,
{
    let y = r * 1_000_000 + den / 2;
    let a = y / den;
    let b = y % den;
    assert(y == a * den + b) by {
        vstd::arithmetic::div_mod::lemma_fundamental_div_mod(y as int, den as int);
    }
    assert(n * 1_000_000 + den / 2 == (q * 1_000_000 + a) * den + b) by (nonlinear_arith)
        requires n == q * den + r, y == r * 1_000_000 + den / 2, y == a * den + b;
    assert(0 <= b < den) by {
        vstd::arithmetic::div_mod::lemma_mod_bound(y as int, den as int);
    }
    lemma_fundamental_div_mod_converse_div(
        (n * 1_000_000 + den / 2) as int,
        den as int,
        (q * 1_000_000 + a) as int,
        b as int,
    );
}

/// Appends the angle with six decimals.
fn push_degrees(s: &mut String, a: Angle)
    requires
        a.den > 0,
        a.den <= 3600 * M32 * M32 * M32,
        a.num <= 3661 * M32 * M32 * M32,
    ensures
        final(s)@ == old(s)@ + degrees_text(a),
{
    let q = a.num / a.den;
    let r = a.num % a.den;
    assert(r < a.den);
    assert(q <= a.num) by (nonlinear_arith)
        requires q == a.num / a.den, a.den > 0;
    assert(r * 1_000_000 + a.den / 2 <= 3600 * M32 * M32 * M32 * 1_000_000 + 3600 * M32 * M32 * M32) by (nonlinear_arith)
        requires r < a.den, a.den <= 3600 * M32 * M32 * M32;
    let frac = (r * 1_000_000 + a.den / 2) / a.den;
    assert(frac <= r * 1_000_000 + a.den / 2) by (nonlinear_arith)
        requires frac as int == (r * 1_000_000 + a.den / 2) as int / a.den as int, a.den > 0;
    proof {
        vstd::arithmetic::div_mod::lemma_fundamental_div_mod(a.num as int, a.den as int);
        lemma_split_round(a.num as nat, a.den as nat, q as nat, r as nat);
    }
    let micro = q * 1_000_000 + frac;
    push_fixed(s, micro, 6);
}

pub open spec fn is_alpha(c: char) -> bool {
    ('a' <= c && c <= 'z') || ('A' <= c && c <= 'Z')
}

/// The first ASCII letter of `s`.
pub open spec fn first_alpha(s: Seq<char>) -> Option<char>
    decreases s.len(),
{
    if s.len() == 0 {
        None
    } else if is_alpha(s[0]) {
        Some(s[0])
    } else {
        first_alpha(s.drop_first())
    }
}

/// The hemisphere that a letter names, in either case.
pub open spec fn hemisphere(c: char) -> Option<char> {
    if c == 'N' || c == 'n' {
        Some('N')
    } else if c == 'S' || c == 's' {
        Some('S')
    } else if c == 'E' || c == 'e' {
        Some('E')
    } else if c == 'W' || c == 'w' {
        Some('W')
    } else {
        None
    }
}

/// The hemisphere named by the first letter of `s`, else `default`.
pub open spec fn hemisphere_of(s: Seq<char>, default: char) -> char {
    match first_alpha(s) {
        Some(c) => match hemisphere(c) {
            Some(h) => h,
            None => default,
        },
        None => default,
    }
}

/// The hemisphere named by the first letter of `reference`, else `default`.
pub fn normalized_gps_ref(reference: &str, default: char) -> (r: char)
    ensures
        r == hemisphere_of(reference@, default),
{
    let len = reference.unicode_len();
    let mut i: usize = 0;
    assert(reference@.subrange(0, len as int) =~= reference@);
    while i < len
        invariant
            i <= len == reference@.len(),
            first_alpha(reference@) == first_alpha(reference@.subrange(i as int, len as int)),
        decreases len - i,
    {
        let ghost rest = reference@.subrange(i as int, len as int);
        assert(rest.drop_first() =~= reference@.subrange(i + 1, len as int));
        let c = reference.get_char(i);
        assert(rest[0] == c);
        if ('a' <= c && c <= 'z') || ('A' <= c && c <= 'Z') {
            return if c == 'N' || c == 'n' {
                'N'
            } else if c == 'S' || c == 's' {
                'S'
            } else if c == 'E' || c == 'e' {
                'E'
            } else if c == 'W' || c == 'w' {
                'W'
            } else {
                default
            };
        }
        i = i + 1;
    }
    default
}

/// Only a first letter `S` or `s` puts a latitude south, only `W` or `w` puts a
/// longitude west; any other or missing reference leaves the coordinate
/// positive (north, east).
pub proof fn lemma_sign_follows_hemisphere(s: Seq<char>)
    ensures
        (hemisphere_of(s, 'N') == 'S') == (first_alpha(s) == Some('S') || first_alpha(s) == Some('s')),
        (hemisphere_of(s, 'E') == 'W') == (first_alpha(s) == Some('W') || first_alpha(s) == Some('w')),
        hemisphere_of(Seq::empty(), 'N') == 'N',
        hemisphere_of(Seq::empty(), 'E') == 'E',
{
}

/// The hemisphere that the field of `tag` names, else `default`.
pub open spec fn direction_of(fs: Seq<Field>, tag: Tag, default: char) -> char {
    match lookup(fs, tag) {
        Some(i) => match field_text(fs[i]) {
            Some(t) => hemisphere_of(t, default),
            None => default,
        },
        None => default,
    }
}

fn direction(meta: &Metadata, tag: Tag, default: char) -> (r: char)
    ensures
        r == direction_of(meta.fields@, tag, default),
{
    match find_field(meta, tag) {
        Some(k) => match field_to_string(&meta.fields[k]) {
            Some(t) => normalized_gps_ref(t.as_str(), default),
            None => default,
        },
        None => default,
    }
}

/// The display line of a position.
pub open spec fn gps_text(lat: Angle, lat_dir: char, lon: Angle, lon_dir: char) -> Seq<char> {
    degrees_text(lat) + seq!['°', ' ', lat_dir, ',', ' '] + degrees_text(lon) + seq!['°', ' ', lon_dir]
}

/// The decoded position: present when latitude and longitude are both present
/// and readable; the hemisphere letters default to north and east.
pub open spec fn gps_of(fs: Seq<Field>) -> Option<(Angle, char, Angle, char)> {
    match (lookup(fs, Tag::GPSLatitude), lookup(fs, Tag::GPSLongitude)) {
        (Some(i), Some(j)) => match (coordinate_of(fs[i].value), coordinate_of(fs[j].value)) {
            (Some(lat), Some(lon)) => Some(
                (lat, direction_of(fs, Tag::GPSLatitudeRef, 'N'), lon, direction_of(fs, Tag::GPSLongitudeRef, 'E')),
            ),
            _ => None,
        },
        _ => None,
    }
}

/// Decodes the position. The signs follow the hemispheres: only `S` and `W`
/// make a coordinate negative; the display line shows magnitudes.
pub fn gps_coordinates(meta: &Metadata) -> (r: Option<GpsData>)
    ensures
        r.is_some() == gps_of(meta.fields@).is_some(),
        r matches Some(g) ==> {
            let (lat, lat_dir, lon, lon_dir) = gps_of(meta.fields@)->Some_0;
            &&& g.latitude == lat
            &&& g.longitude == lon
            &&& g.south == (lat_dir == 'S')
            &&& g.west == (lon_dir == 'W')
            &&& g.display@ == gps_text(lat, lat_dir, lon, lon_dir)
            &&& angle_ok(g.latitude)
            &&& angle_ok(g.longitude)
        },
{
    let i = find_field(meta, Tag::GPSLatitude);
    let i = match i {
        Some(i) => i,
        None => return None,
    };
    let j = match find_field(meta, Tag::GPSLongitude) {
        Some(j) => j,
        None => return None,
    };
    let lat = match gps_coordinate(&meta.fields[i].value) {
        Some(a) => a,
        None => return None,
    };
    let lon = match gps_coordinate(&meta.fields[j].value) {
        Some(a) => a,
        None => return None,
    };
    let lat_dir = direction(meta, Tag::GPSLatitudeRef, 'N');
    let lon_dir = direction(meta, Tag::GPSLongitudeRef, 'E');
    let mut display = String::new();
    push_degrees(&mut display, lat);
    push_char(&mut display, '°');
    push_char(&mut display, ' ');
    push_char(&mut display, lat_dir);
    push_char(&mut display, ',');
    push_char(&mut display, ' ');
    push_degrees(&mut display, lon);
    push_char(&mut display, '°');
    push_char(&mut display, ' ');
    push_char(&mut display, lon_dir);
    assert(display@ =~= gps_text(lat, lat_dir, lon, lon_dir));
    Some(GpsData { display, latitude: lat, south: lat_dir == 'S', longitude: lon, west: lon_dir == 'W' })
}

/// The index of the last comma of `s`, or -1.
pub open spec fn last_comma(s: Seq<char>) -> int
    decreases s.len(),
{
    if s.len() == 0 {
        -1
    } else if s.last() == ',' {
        s.len() - 1
    } else {
        last_comma(s.drop_last())
    }
}

/// The last comma-separated part of `s` that is not blank once trimmed.
pub open spec fn country_of(s: Seq<char>) -> Option<Seq<char>>
    decreases s.len(),
{
    let k = last_comma(s);
    let part = trim(s.subrange(k + 1, s.len() as int), Strip::Space);
    if part.len() > 0 {
        Some(part)
    } else if k < 0 || k >= s.len() {
        None
    } else {
        country_of(s.subrange(0, k))
    }
}

proof fn lemma_last_comma_skip(s: Seq<char>, i: int, end: int)
    requires
        0 <= i <= end <= s.len(),
        forall|j: int| i <= j < end ==> s[j] != ',',
        i == 0 || s[i - 1] == ',',
    ensures
        last_comma(s.subrange(0, end)) == i - 1,
    decreases end - i,
{
    let t = s.subrange(0, end);
    if end > i {
        assert(t.drop_last() =~= s.subrange(0, end - 1));
        lemma_last_comma_skip(s, i, end - 1);
    } else if i > 0 {
        assert(t.last() == ',');
    }
}

/// The country of a place name: its last non-blank comma-separated part.
pub fn extract_country(location: &str) -> (r: Option<String>)
    ensures
        text_of(r) == country_of(location@),
{
    let ghost s = location@;
    let len = location.unicode_len();
    let mut end: usize = len;
    assert(s.subrange(0, len as int) =~= s);
    loop
        invariant
            end <= len == s.len(),
            s == location@,
            country_of(s) == country_of(s.subrange(0, end as int)),
        decreases end,
    {
        let mut i: usize = end;
        while i > 0 && location.get_char(i - 1) != ','
            invariant
                i <= end <= len == s.len(),
                s == location@,
                forall|j: int| i <= j < end ==> s[j] != ',',
            decreases i,
        {
            i = i - 1;
        }
        let ghost t = s.subrange(0, end as int);
        proof {
            lemma_last_comma_skip(s, i as int, end as int);
            assert(t.subrange(i as int, end as int) =~= s.subrange(i as int, end as int));
        }
        let part = trimmed(location.substring_char(i, end), Strip::Space, true);
        if part.unicode_len() > 0 {
            return Some(part);
        }
        if i == 0 {
            return None;
        }
        assert(t.subrange(0, i - 1) =~= s.subrange(0, i - 1));
        end = i - 1;
    }
}

/// Where reverse geocoding is asked.
pub const GEOCODER_ENDPOINT: &'static str = "https://nominatim.openstreetmap.org/reverse";

/// A coordinate with six decimals, negative when `negative`.
pub open spec fn signed_text(a: Angle, negative: bool) -> Seq<char> {
    if negative { seq!['-'] + degrees_text(a) } else { degrees_text(a) }
}

/// The reverse-geocoding request for a position: no address details, names in `language`.
pub open spec fn geocode_url(g: GpsData, language: Seq<char>) -> Seq<char> {
    GEOCODER_ENDPOINT@ + "?lat="@ + signed_text(g.latitude, g.south) + "&lon="@ + signed_text(g.longitude, g.west)
        + "&addressdetails=0&accept-language="@ + language + "&format=json"@
}

/// The bounds under which a decoded position can be rendered.
pub open spec fn angle_ok(a: Angle) -> bool {
    0 < a.den <= 3600 * M32 * M32 * M32 && a.num <= 3661 * M32 * M32 * M32
}

/// The URL that asks the geocoder for the place at `g`.
pub fn reverse_geocode_url(g: &GpsData, language: &str) -> (r: String)
    requires
        angle_ok(g.latitude),
        angle_ok(g.longitude),
    ensures
        r@ == geocode_url(*g, language@),
{
    let mut s = String::from_str(GEOCODER_ENDPOINT);
    s.append("?lat=");
    if g.south {
        push_char(&mut s, '-');
    }
    push_degrees(&mut s, g.latitude);
    s.append("&lon=");
    if g.west {
        push_char(&mut s, '-');
    }
    push_degrees(&mut s, g.longitude);
    s.append("&addressdetails=0&accept-language=");
    s.append(language);
    s.append("&format=json");
    assert(s@ =~= geocode_url(*g, language@));
    s
}

} // verus!
