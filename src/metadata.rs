use vstd::prelude::*;
use vstd::string::StringExecFns;
use crate::strings::{clean, cleaned, decode_utf8, decode_utf8_lossy, trim, trim_end, trimmed, utf8_decode, utf8_lossy, Strip};
use crate::units::Ratio;

verus! {

/// The metadata tags that captions are made from; every other tag is `Other`.
#[derive(Clone, Copy, Debug, PartialEq, Eq, Structural)]
pub enum Tag {
    ImageDescription,
    Make,
    Model,
    LensModel,
    LensSpecification,
    FocalLength,
    FocalLengthIn35mmFilm,
    FNumber,
    ApertureValue,
    ExposureTime,
    ShutterSpeedValue,
    PhotographicSensitivity,
    ISOSpeed,
    ISOSpeedLatitudeyyy,
    ISOSpeedLatitudezzz,
    DateTimeOriginal,
    DateTimeDigitized,
    DateTime,
    GPSLatitudeRef,
    GPSLatitude,
    GPSLongitudeRef,
    GPSLongitude,
    GPSAreaInformation,
    Other,
}

/// The value of a metadata field, by encoding.
#[derive(Debug)]
pub enum TagValue {
    /// NUL-terminated ASCII strings.
    Ascii(Vec<Vec<u8>>),
    /// An opaque byte blob.
    Undefined(Vec<u8>),
    /// Unsigned rationals.
    Rational(Vec<Ratio>),
    /// Unsigned integers of 8, 16 or 32 bits.
    Unsigned(Vec<u32>),
    /// Any other encoding.
    Other,
}

/// One field of a metadata container.
#[derive(Debug)]
pub struct Field {
    pub tag: Tag,
    /// The field belongs to the primary image (not to a thumbnail).
    pub primary: bool,
    pub value: TagValue,
    /// The value as the metadata reader renders it for display.
    pub text: String,
}

/// The fields read from an image, in the order in which they were read.
#[derive(Debug)]
pub struct Metadata {
    pub fields: Vec<Field>,
}

pub open spec fn has_at(fs: Seq<Field>, tag: Tag, primary_only: bool, i: int) -> bool {
    0 <= i < fs.len() && fs[i].tag == tag && (!primary_only || fs[i].primary)
}

/// The first index at or after `i` that holds `tag` (of the primary image, if `primary_only`).
pub open spec fn first_from(fs: Seq<Field>, tag: Tag, primary_only: bool, i: int) -> Option<int>
    decreases fs.len() - i,
{
    if i < 0 || i >= fs.len() {
        None
    } else if has_at(fs, tag, primary_only, i) {
        Some(i)
    } else {
        first_from(fs, tag, primary_only, i + 1)
    }
}

/// Where `tag` is found: its field of the primary image, else its first field.
pub open spec fn lookup(fs: Seq<Field>, tag: Tag) -> Option<int> {
    match first_from(fs, tag, true, 0) {
        Some(i) => Some(i),
        None => first_from(fs, tag, false, 0),
    }
}

/// Where the first of `tags` that is present is found.
pub open spec fn lookup_any(fs: Seq<Field>, tags: Seq<Tag>) -> Option<int>
    decreases tags.len(),
{
    if tags.len() == 0 {
        None
    } else {
        match lookup(fs, tags[0]) {
            Some(i) => Some(i),
            None => lookup_any(fs, tags.drop_first()),
        }
    }
}

proof fn lemma_first_from_bounds(fs: Seq<Field>, tag: Tag, primary_only: bool, i: int)
    ensures
        first_from(fs, tag, primary_only, i) matches Some(j) ==> 0 <= j < fs.len() && fs[j].tag == tag,
    decreases fs.len() - i,
{
    if 0 <= i < fs.len() && !has_at(fs, tag, primary_only, i) {
        lemma_first_from_bounds(fs, tag, primary_only, i + 1);
    }
}

fn first_index(fs: &Vec<Field>, tag: Tag, primary_only: bool) -> (r: Option<usize>)
    ensures
        r.is_some() == first_from(fs@, tag, primary_only, 0).is_some(),
        r matches Some(k) ==> first_from(fs@, tag, primary_only, 0) == Some(k as int) && k < fs@.len()
            && fs@[k as int].tag == tag,
{
    proof {
        lemma_first_from_bounds(fs@, tag, primary_only, 0);
    }
    let mut i: usize = 0;
    while i < fs.len()
        invariant
            i <= fs@.len(),
            first_from(fs@, tag, primary_only, 0) == first_from(fs@, tag, primary_only, i as int),
        decreases fs@.len() - i,
    {
        if fs[i].tag == tag && (!primary_only || fs[i].primary) {
            return Some(i);
        }
        i = i + 1;
    }
    None
}

/// Finds the field of `tag`: the one of the primary image, else the first one.
pub fn find_field(meta: &Metadata, tag: Tag) -> (r: Option<usize>)
    ensures
        r.is_some() == lookup(meta.fields@, tag).is_some(),
        r matches Some(k) ==> lookup(meta.fields@, tag) == Some(k as int) && k < meta.fields@.len()
            && meta.fields@[k as int].tag == tag,
{
    match first_index(&meta.fields, tag, true) {
        Some(i) => Some(i),
        None => first_index(&meta.fields, tag, false),
    }
}

/// The text of a field, by its encoding: the first ASCII string without its
/// trailing NULs; a non-empty byte blob decoded leniently and trimmed; else
/// the displayed value, trimmed. Empty blobs and texts count as absent.
pub open spec fn field_text(f: Field) -> Option<Seq<char>> {
    match f.value {
        TagValue::Ascii(vs) => {
            if vs@.len() == 0 {
                None
            } else {
                match utf8_decode(vs@[0]@) {
                    Some(t) => Some(trim_end(t, Strip::Nul)),
                    None => None,
                }
            }
        },
        TagValue::Undefined(b) => {
            let t = clean(utf8_lossy(b@));
            if b@.len() == 0 || t.len() == 0 { None } else { Some(t) }
        },
        _ => {
            let t = clean(f.text@);
            if t.len() == 0 { None } else { Some(t) }
        },
    }
}

/// The text of a field (see `field_text`).
pub fn field_to_string(field: &Field) -> (r: Option<String>)
    ensures
        r.is_some() == field_text(*field).is_some(),
        r.is_some() ==> r->Some_0@ == field_text(*field)->Some_0,
{
    match &field.value {
        TagValue::Ascii(values) => {
            if values.len() == 0 {
                None
            } else {
                match decode_utf8(&values[0]) {
                    Some(s) => Some(trimmed(s.as_str(), Strip::Nul, false)),
                    None => None,
                }
            }
        },
        TagValue::Undefined(bytes) => {
            if bytes.len() == 0 {
                None
            } else {
                let lossy = decode_utf8_lossy(bytes);
                let text = cleaned(lossy.as_str());
                if text.unicode_len() == 0 { None } else { Some(text) }
            }
        },
        _ => {
            let text = cleaned(field.text.as_str());
            if text.unicode_len() == 0 { None } else { Some(text) }
        },
    }
}

/// The text of the first of `tags` that is present and readable.
pub open spec fn first_text(fs: Seq<Field>, tags: Seq<Tag>) -> Option<Seq<char>>
    decreases tags.len(),
{
    if tags.len() == 0 {
        None
    } else {
        let here = match lookup(fs, tags[0]) {
            Some(i) => field_text(fs[i]),
            None => None,
        };
        match here {
            Some(t) => Some(t),
            None => first_text(fs, tags.drop_first()),
        }
    }
}

/// `first_text`, trimmed of white space and NULs at both ends; empty counts as absent.
pub open spec fn first_string_text(fs: Seq<Field>, tags: Seq<Tag>) -> Option<Seq<char>> {
    match first_text(fs, tags) {
        Some(t) => {
            let c = trim(t, Strip::NulOrSpace);
            if c.len() == 0 { None } else { Some(c) }
        },
        None => None,
    }
}

fn first_raw(meta: &Metadata, tags: &[Tag]) -> (r: Option<String>)
    ensures
        r.is_some() == first_text(meta.fields@, tags@).is_some(),
        r.is_some() ==> r->Some_0@ == first_text(meta.fields@, tags@)->Some_0,
{
    let mut i: usize = 0;
    assert(tags@.subrange(0, tags@.len() as int) =~= tags@);
    while i < tags.len()
        invariant
            i <= tags@.len(),
            first_text(meta.fields@, tags@) == first_text(meta.fields@, tags@.subrange(i as int, tags@.len() as int)),
        decreases tags@.len() - i,
    {
        let ghost rest = tags@.subrange(i as int, tags@.len() as int);
        assert(rest.drop_first() =~= tags@.subrange(i + 1, tags@.len() as int));
        assert(rest[0] == tags@[i as int]);
        if let Some(k) = find_field(meta, tags[i]) {
            assert(lookup(meta.fields@, rest[0]) == Some(k as int));
            if let Some(t) = field_to_string(&meta.fields[k]) {
                assert(field_text(meta.fields@[k as int]) == Some(t@));
                return Some(t);
            }
        }
        i = i + 1;
    }
    None
}

/// The text of the first of `tags` that is present and readable, trimmed.
pub fn first_string(meta: &Metadata, tags: &[Tag]) -> (r: Option<String>)
    ensures
        r.is_some() == first_string_text(meta.fields@, tags@).is_some(),
        r.is_some() ==> r->Some_0@ == first_string_text(meta.fields@, tags@)->Some_0,
{
    match first_raw(meta, tags) {
        Some(t) => {
            let c = trimmed(t.as_str(), Strip::NulOrSpace, true);
            if c.unicode_len() == 0 { None } else { Some(c) }
        },
        None => None,
    }
}

/// Finds the field of the first of `tags` that is present.
pub fn find_any(meta: &Metadata, tags: &[Tag]) -> (r: Option<usize>)
    ensures
        r.is_some() == lookup_any(meta.fields@, tags@).is_some(),
        r matches Some(k) ==> lookup_any(meta.fields@, tags@) == Some(k as int) && k < meta.fields@.len(),
{
    let mut i: usize = 0;
    assert(tags@.subrange(0, tags@.len() as int) =~= tags@);
    while i < tags.len()
        invariant
            i <= tags@.len(),
            lookup_any(meta.fields@, tags@) == lookup_any(meta.fields@, tags@.subrange(i as int, tags@.len() as int)),
        decreases tags@.len() - i,
    {
        let ghost rest = tags@.subrange(i as int, tags@.len() as int);
        assert(rest.drop_first() =~= tags@.subrange(i + 1, tags@.len() as int));
        assert(rest[0] == tags@[i as int]);
        if let Some(k) = find_field(meta, tags[i]) {
            return Some(k);
        }
        i = i + 1;
    }
    None
}

/// The first rational of a field, if it holds rationals.
pub open spec fn first_ratio(f: Field) -> Option<Ratio> {
    match f.value {
        TagValue::Rational(vs) => if vs@.len() > 0 { Some(vs@[0]) } else { None },
        _ => None,
    }
}

/// The first unsigned integer of a field, if it holds unsigned integers.
pub open spec fn first_uint(f: Field) -> Option<u32> {
    match f.value {
        TagValue::Unsigned(vs) => if vs@.len() > 0 { Some(vs@[0]) } else { None },
        _ => None,
    }
}

/// The field at a found index.
pub open spec fn field_at(fs: Seq<Field>, i: Option<int>) -> Option<Field> {
    match i {
        Some(k) => Some(fs[k]),
        None => None,
    }
}

/// The rational that the first of `tags` holds, if that field holds rationals.
pub open spec fn ratio_of(fs: Seq<Field>, tags: Seq<Tag>) -> Option<Ratio> {
    match field_at(fs, lookup_any(fs, tags)) {
        Some(f) => first_ratio(f),
        None => None,
    }
}

/// The integer that the first of `tags` holds, if that field holds unsigned integers.
pub open spec fn uint_of(fs: Seq<Field>, tags: Seq<Tag>) -> Option<u32> {
    match field_at(fs, lookup_any(fs, tags)) {
        Some(f) => first_uint(f),
        None => None,
    }
}

/// The first rational of the first of `tags` that is present.
pub fn ratio_value(meta: &Metadata, tags: &[Tag]) -> (r: Option<Ratio>)
    ensures
        r == ratio_of(meta.fields@, tags@),
{
    match find_any(meta, tags) {
        Some(k) => match &meta.fields[k].value {
            TagValue::Rational(vs) => if vs.len() > 0 { Some(vs[0]) } else { None },
            _ => None,
        },
        None => None,
    }
}

/// The first unsigned integer of the first of `tags` that is present.
pub fn uint_value(meta: &Metadata, tags: &[Tag]) -> (r: Option<u32>)
    ensures
        r == uint_of(meta.fields@, tags@),
{
    match find_any(meta, tags) {
        Some(k) => match &meta.fields[k].value {
            TagValue::Unsigned(vs) => if vs.len() > 0 { Some(vs[0]) } else { None },
            _ => None,
        },
        None => None,
    }
}

} // verus!
