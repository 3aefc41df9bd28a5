use vstd::prelude::*;
use vstd::string::{StrSliceExecFns, StringExecFns};
use crate::metadata::{
    find_any,
    find_field, first_string, first_string_text, lookup, lookup_any, ratio_of, ratio_value, uint_of, uint_value,
    Field, Metadata, Tag, TagValue,
};
use crate::strings::{clean, cleaned, decode_utf8, text_of, utf8_decode};
use crate::text::push_char;
use crate::units::{
    focal_35mm_text, focal_length_text, format_focal_35mm, format_iso, format_lens_spec, format_shutter, iso_text,
    lens_spec_text, push_focal_length, shutter_text, fnumber_text, format_fnumber, Ratio,
};

verus! {

/// The focal length as a value: present when it is a finite rational.
pub open spec fn focal_length_of(fs: Seq<Field>) -> Option<Ratio> {
    match ratio_of(fs, seq![Tag::FocalLength]) {
        Some(r) => if r.finite() { Some(r) } else { None },
        None => None,
    }
}

/// The focal length as text and as a value; both absent unless it is a finite rational.
pub fn focal_length_values(meta: &Metadata) -> (r: (Option<String>, Option<Ratio>))
    ensures
        r.1 == focal_length_of(meta.fields@),
        text_of(r.0) == (match focal_length_of(meta.fields@) {
            Some(f) => Some(focal_length_text(f)),
            None => None,
        }),
{
    let tags = [Tag::FocalLength];
    assert(tags@ =~= seq![Tag::FocalLength]);
    match ratio_value(meta, tags.as_slice()) {
        Some(f) => {
            if f.denom > 0 {
                let mut s = String::new();
                push_focal_length(&mut s, f);
                assert(s@ =~= focal_length_text(f));
                (Some(s), Some(f))
            } else {
                (None, None)
            }
        },
        None => (None, None),
    }
}

pub open spec fn focal_35mm_of(fs: Seq<Field>) -> Option<u32> {
    uint_of(fs, seq![Tag::FocalLengthIn35mmFilm])
}

/// The 35 mm equivalent focal length as text and as a value.
pub fn focal_length_35mm_values(meta: &Metadata) -> (r: (Option<String>, Option<u32>))
    ensures
        r.1 == focal_35mm_of(meta.fields@),
        text_of(r.0) == (match focal_35mm_of(meta.fields@) {
            Some(v) => Some(focal_35mm_text(v)),
            None => None,
        }),
{
    let tags = [Tag::FocalLengthIn35mmFilm];
    assert(tags@ =~= seq![Tag::FocalLengthIn35mmFilm]);
    match uint_value(meta, tags.as_slice()) {
        Some(v) => (Some(format_focal_35mm(v)), Some(v)),
        None => (None, None),
    }
}

pub open spec fn aperture_tags() -> Seq<Tag> {
    seq![Tag::FNumber, Tag::ApertureValue]
}

/// The aperture: the first f-number, else the first aperture value, when finite.
pub open spec fn aperture_text(fs: Seq<Field>) -> Option<Seq<char>> {
    match ratio_of(fs, aperture_tags()) {
        Some(r) => if r.finite() { Some(fnumber_text(r)) } else { None },
        None => None,
    }
}

pub fn aperture_value(meta: &Metadata) -> (r: Option<String>)
    ensures
        r.is_some() == aperture_text(meta.fields@).is_some(),
        r.is_some() ==> r->Some_0@ == aperture_text(meta.fields@)->Some_0,
{
    let tags = [Tag::FNumber, Tag::ApertureValue];
    assert(tags@ =~= aperture_tags());
    match ratio_value(meta, tags.as_slice()) {
        Some(r) => if r.denom > 0 { Some(format_fnumber(r)) } else { None },
        None => None,
    }
}

pub open spec fn shutter_tags() -> Seq<Tag> {
    seq![Tag::ExposureTime, Tag::ShutterSpeedValue]
}

/// The exposure time; absent unless positive and finite.
pub open spec fn shutter_of(fs: Seq<Field>) -> Option<Seq<char>> {
    match ratio_of(fs, shutter_tags()) {
        Some(r) => if r.finite() && r.num > 0 { Some(shutter_text(r)) } else { None },
        None => None,
    }
}

pub fn shutter_value(meta: &Metadata) -> (r: Option<String>)
    ensures
        text_of(r) == shutter_of(meta.fields@),
{
    let tags = [Tag::ExposureTime, Tag::ShutterSpeedValue];
    assert(tags@ =~= shutter_tags());
    match ratio_value(meta, tags.as_slice()) {
        Some(t) => if t.denom > 0 && t.num > 0 { Some(format_shutter(t)) } else { None },
        None => None,
    }
}

pub open spec fn iso_tags() -> Seq<Tag> {
    seq![Tag::PhotographicSensitivity, Tag::ISOSpeed, Tag::ISOSpeedLatitudeyyy, Tag::ISOSpeedLatitudezzz]
}

pub open spec fn iso_of(fs: Seq<Field>) -> Option<Seq<char>> {
    match uint_of(fs, iso_tags()) {
        Some(v) => Some(iso_text(v)),
        None => None,
    }
}

pub fn iso_value(meta: &Metadata) -> (r: Option<String>)
    ensures
        text_of(r) == iso_of(meta.fields@),
{
    let tags = [Tag::PhotographicSensitivity, Tag::ISOSpeed, Tag::ISOSpeedLatitudeyyy, Tag::ISOSpeedLatitudezzz];
    assert(tags@ =~= iso_tags());
    match uint_value(meta, tags.as_slice()) {
        Some(v) => Some(format_iso(v)),
        None => None,
    }
}

pub open spec fn dash_colons(s: Seq<char>) -> Seq<char> {
    s.map_values(|c: char| if c == ':' { '-' } else { c })
}

/// A timestamp `YYYY:MM:DD HH:MM:SS` written `YYYY-MM-DD HH:MM:SS`; shorter
/// text is kept, trimmed.
pub open spec fn datetime_text(s: Seq<char>) -> Seq<char> {
    let t = clean(s);
    if t.len() >= 19 {
        dash_colons(t.subrange(0, 10)) + seq![' '] + t.subrange(11, 19)
    } else {
        t
    }
}

pub fn format_datetime(input: &str) -> (r: String)
    ensures
        r@ == datetime_text(input@),
{
    let t = cleaned(input);
    let len = t.unicode_len();
    if len < 19 {
        return t;
    }
    let mut out = String::new();
    let mut i: usize = 0;
    while i < 10
        invariant
            i <= 10 <= t@.len(),
            out@ =~= dash_colons(t@.subrange(0, i as int)),
        decreases 10 - i,
    {
        let c = t.as_str().get_char(i);
        push_char(&mut out, if c == ':' { '-' } else { c });
        assert(t@.subrange(0, i + 1) =~= t@.subrange(0, i as int).push(c));
        i = i + 1;
    }
    push_char(&mut out, ' ');
    let mut j: usize = 11;
    while j < 19
        invariant
            11 <= j <= 19 <= t@.len(),
            out@ =~= dash_colons(t@.subrange(0, 10)) + seq![' '] + t@.subrange(11, j as int),
        decreases 19 - j,
    {
        let c = t.as_str().get_char(j);
        push_char(&mut out, c);
        j = j + 1;
    }
    out
}

pub open spec fn datetime_tags() -> Seq<Tag> {
    seq![Tag::DateTimeOriginal, Tag::DateTimeDigitized, Tag::DateTime]
}

/// The first timestamp tag present, when it holds UTF-8 text.
pub open spec fn datetime_of(fs: Seq<Field>) -> Option<Seq<char>> {
    match lookup_any(fs, datetime_tags()) {
        Some(i) => match fs[i].value {
            TagValue::Ascii(vs) => if vs@.len() > 0 {
                match utf8_decode(vs@[0]@) {
                    Some(t) => Some(datetime_text(t)),
                    None => None,
                }
            } else {
                None
            },
            _ => None,
        },
        None => None,
    }
}

pub fn datetime_value(meta: &Metadata) -> (r: Option<String>)
    ensures
        text_of(r) == datetime_of(meta.fields@),
{
    let tags = [Tag::DateTimeOriginal, Tag::DateTimeDigitized, Tag::DateTime];
    assert(tags@ =~= datetime_tags());
    match find_any(meta, tags.as_slice()) {
        Some(k) => match &meta.fields[k].value {
            TagValue::Ascii(vs) => if vs.len() > 0 {
                match decode_utf8(&vs[0]) {
                    Some(t) => Some(format_datetime(t.as_str())),
                    None => None,
                }
            } else {
                None
            },
            _ => None,
        },
        None => None,
    }
}

/// The lens synthesised from a lens specification of at least four rationals.
pub open spec fn lens_spec_of(fs: Seq<Field>) -> Option<Seq<char>> {
    match lookup(fs, Tag::LensSpecification) {
        Some(i) => match fs[i].value {
            TagValue::Rational(vs) => if vs@.len() >= 4 {
                Some(lens_spec_text(vs@[0], vs@[1], vs@[2], vs@[3]))
            } else {
                None
            },
            _ => None,
        },
        None => None,
    }
}

pub fn lens_specification(meta: &Metadata) -> (r: Option<String>)
    ensures
        text_of(r) == lens_spec_of(meta.fields@),
{
    match find_field(meta, Tag::LensSpecification) {
        Some(k) => match &meta.fields[k].value {
            TagValue::Rational(vs) => if vs.len() >= 4 {
                Some(format_lens_spec(vs[0], vs[1], vs[2], vs[3]))
            } else {
                None
            },
            _ => None,
        },
        None => None,
    }
}

/// The location that the metadata itself names, and no country.
pub fn location_values(meta: &Metadata) -> (r: (Option<String>, Option<String>))
    ensures
        text_of(r.0) == first_string_text(meta.fields@, seq![Tag::GPSAreaInformation]),
        r.1.is_none(),
{
    let tags = [Tag::GPSAreaInformation];
    assert(tags@ =~= seq![Tag::GPSAreaInformation]);
    (first_string(meta, tags.as_slice()), None)
}

} // verus!
