use vstd::prelude::*;
use vstd::string::{StrSliceExecFns, StringExecFns};
use crate::strings::{text_of, trim_end, trimmed, Strip};
use crate::attributes::{
    aperture_text, aperture_value, datetime_of, datetime_value, focal_35mm_of, focal_length_35mm_values, focal_length_of,
    focal_length_values, iso_of, iso_value, lens_spec_of, lens_specification, location_values, shutter_of,
    shutter_value,
};
use crate::geo::{country_of, extract_country, gps_coordinates, gps_of, gps_text};
use crate::metadata::{first_string, first_string_text, Field, Metadata, Tag};
use crate::units::{closer_than, focal_35mm_text, focal_length_text, Ratio};

verus! {

/// What a caption is made from. Every field but camera and lens may be absent.
#[derive(Debug)]
pub struct ParsedExif {
    pub title: Option<String>,
    pub camera: String,
    pub lens: String,
    pub focal_length: Option<String>,
    pub focal_length_val: Option<Ratio>,
    pub focal_length_35mm: Option<String>,
    pub focal_length_35mm_val: Option<u32>,
    pub aperture: Option<String>,
    pub shutter: Option<String>,
    pub iso: Option<String>,
    pub datetime: Option<String>,
    pub location: Option<String>,
    pub country: Option<String>,
    pub gps: Option<String>,
}

/// The text fields of two records agree, and so do their focal length values.
pub open spec fn same_attributes(a: ParsedExif, b: ParsedExif) -> bool {
    &&& text_of(a.title) == text_of(b.title)
    &&& a.camera@ == b.camera@
    &&& a.lens@ == b.lens@
    &&& text_of(a.focal_length) == text_of(b.focal_length)
    &&& a.focal_length_val == b.focal_length_val
    &&& text_of(a.focal_length_35mm) == text_of(b.focal_length_35mm)
    &&& a.focal_length_35mm_val == b.focal_length_35mm_val
    &&& text_of(a.aperture) == text_of(b.aperture)
    &&& text_of(a.shutter) == text_of(b.shutter)
    &&& text_of(a.iso) == text_of(b.iso)
    &&& text_of(a.datetime) == text_of(b.datetime)
    &&& text_of(a.location) == text_of(b.location)
    &&& text_of(a.country) == text_of(b.country)
    &&& text_of(a.gps) == text_of(b.gps)
}

/// The native focal length stands in the caption: there is no 35 mm
/// equivalent, or it lies within half a millimetre of the native value.
pub open spec fn use_native_focal(a: ParsedExif) -> bool {
    match (a.focal_length_val, a.focal_length_35mm_val) {
        (_, None) => true,
        (Some(f), Some(v)) => closer_than(f, Ratio { num: v, denom: 1 }, 2),
        (None, Some(_)) => false,
    }
}

/// The one focal length that the caption shows.
pub open spec fn chosen_focal(a: ParsedExif) -> Option<Seq<char>> {
    if use_native_focal(a) {
        text_of(a.focal_length)
    } else if a.focal_length_35mm.is_some() {
        text_of(a.focal_length_35mm)
    } else {
        text_of(a.focal_length)
    }
}

pub open spec fn listed(o: Option<Seq<char>>) -> Seq<Seq<char>> {
    match o {
        Some(t) => seq![t],
        None => Seq::empty(),
    }
}

/// Focal length, aperture, shutter speed and sensitivity, where present.
pub open spec fn metrics(a: ParsedExif) -> Seq<Seq<char>> {
    listed(chosen_focal(a)) + listed(text_of(a.aperture)) + listed(text_of(a.shutter)) + listed(text_of(a.iso))
}

/// `items` joined by `", "`.
pub open spec fn join(items: Seq<Seq<char>>) -> Seq<char>
    decreases items.len(),
{
    if items.len() == 0 {
        Seq::empty()
    } else if items.len() == 1 {
        items[0]
    } else {
        join(items.drop_last()) + ", "@ + items.last()
    }
}

pub open spec fn or_text(o: Option<String>, default: Seq<char>) -> Seq<char> {
    match o {
        Some(s) => s@,
        None => default,
    }
}

pub open spec fn title_line(a: ParsedExif) -> Seq<char> {
    "💭: "@ + or_text(a.title, Seq::empty())
}

pub open spec fn separator_line() -> Seq<char> {
    "——————————"@
}

pub open spec fn camera_line(a: ParsedExif) -> Seq<char> {
    "📸: "@ + a.camera@ + " / "@ + a.lens@
}

pub open spec fn metrics_line(a: ParsedExif) -> Seq<char> {
    if metrics(a).len() == 0 {
        "📝: Parameters Unknown"@
    } else {
        "📝: "@ + join(metrics(a))
    }
}

pub open spec fn date_line(a: ParsedExif) -> Seq<char> {
    "📅: "@ + or_text(a.datetime, "Unknown"@)
}

/// The place line, present when a location or a country is known.
pub open spec fn place_lines(a: ParsedExif) -> Seq<Seq<char>> {
    match (a.location, a.country) {
        (Some(l), Some(c)) => seq!["🗺️: "@ + l@ + ", "@ + c@],
        (Some(l), None) => seq!["🗺️: "@ + l@],
        (None, Some(c)) => seq!["🗺️: "@ + c@],
        (None, None) => Seq::empty(),
    }
}

pub open spec fn gps_lines(a: ParsedExif) -> Seq<Seq<char>> {
    match a.gps {
        Some(g) => seq!["📍: "@ + g@],
        None => Seq::empty(),
    }
}

/// The lines of the caption, in order.
pub open spec fn caption_lines(a: ParsedExif) -> Seq<Seq<char>> {
    seq![title_line(a), separator_line(), camera_line(a), metrics_line(a), date_line(a)] + place_lines(a)
        + gps_lines(a)
}

/// Each line followed by a line feed.
pub open spec fn terminated(lines: Seq<Seq<char>>) -> Seq<char>
    decreases lines.len(),
{
    if lines.len() == 0 {
        Seq::empty()
    } else {
        terminated(lines.drop_last()) + lines.last() + seq!['\n']
    }
}

/// The caption: its lines, each ended by a line feed, without the line feeds at the end.
pub open spec fn caption_text(a: ParsedExif) -> Seq<char> {
    trim_end(terminated(caption_lines(a)), Strip::Newline)
}

proof fn lemma_terminated_push(lines: Seq<Seq<char>>, line: Seq<char>)
    ensures
        terminated(lines.push(line)) == terminated(lines) + line + seq!['\n'],
{
    assert(lines.push(line).drop_last() =~= lines);
}

fn push_line(out: &mut String, line: &str, Ghost(lines): Ghost<Seq<Seq<char>>>)
    requires
        old(out)@ == terminated(lines),
    ensures
        final(out)@ == terminated(lines.push(line@)),
{
    out.append(line);
    push_newline(out);
    assert(lines.push(line@).drop_last() =~= lines);
}

fn push_newline(out: &mut String)
    ensures
        final(out)@ == old(out)@ + seq!['\n'],
{
    crate::text::push_char(out, '\n');
}

fn push_metric(line: &mut String, count: &mut usize, item: &Option<String>, Ghost(items): Ghost<Seq<Seq<char>>>)
    requires
        old(line)@ == join(items),
        *old(count) == items.len(),
        items.len() < 4,
    ensures
        final(line)@ == join(items + listed(text_of(*item))),
        *final(count) == (items + listed(text_of(*item))).len(),
{
    match item {
        Some(t) => {
            if *count > 0 {
                line.append(", ");
            }
            line.append(t.as_str());
            *count = *count + 1;
            let ghost next = items + seq![t@];
            assert(next.drop_last() =~= items);
            assert(line@ =~= join(next));
        },
        None => {
            assert(items + Seq::<Seq<char>>::empty() =~= items);
        },
    }
}

fn chosen_focal_exec(data: &ParsedExif) -> (r: &Option<String>)
    ensures
        text_of(*r) == chosen_focal(*data),
{
    let native = match (data.focal_length_val, data.focal_length_35mm_val) {
        (_, None) => true,
        (Some(f), Some(v)) => crate::units::closer_than_exec(f, Ratio { num: v, denom: 1 }, 2),
        (None, Some(_)) => false,
    };
    if native {
        &data.focal_length
    } else if data.focal_length_35mm.is_some() {
        &data.focal_length_35mm
    } else {
        &data.focal_length
    }
}

/// Renders the caption of a record.
pub fn build_caption(data: &ParsedExif) -> (r: String)
    ensures
        r@ == caption_text(*data),
{
    let ghost mut lines: Seq<Seq<char>> = Seq::empty();
    let mut out = String::new();

    let mut title = String::from_str("💭: ");
    if let Some(t) = &data.title {
        title.append(t.as_str());
    }
    assert(title@ =~= title_line(*data));
    push_line(&mut out, title.as_str(), Ghost(lines));
    proof { lines = lines.push(title_line(*data)); }

    push_line(&mut out, "——————————", Ghost(lines));
    proof { lines = lines.push(separator_line()); }

    let mut camera = String::from_str("📸: ");
    camera.append(data.camera.as_str());
    camera.append(" / ");
    camera.append(data.lens.as_str());
    push_line(&mut out, camera.as_str(), Ghost(lines));
    proof { lines = lines.push(camera_line(*data)); }

    let mut joined = String::new();
    let mut count: usize = 0;
    assert(joined@ =~= join(Seq::empty()));
    push_metric(&mut joined, &mut count, chosen_focal_exec(data), Ghost(Seq::empty()));
    let ghost m1 = Seq::<Seq<char>>::empty() + listed(chosen_focal(*data));
    push_metric(&mut joined, &mut count, &data.aperture, Ghost(m1));
    let ghost m2 = m1 + listed(text_of(data.aperture));
    push_metric(&mut joined, &mut count, &data.shutter, Ghost(m2));
    let ghost m3 = m2 + listed(text_of(data.shutter));
    push_metric(&mut joined, &mut count, &data.iso, Ghost(m3));
    assert(m3 + listed(text_of(data.iso)) =~= metrics(*data));
    let params = if count == 0 {
        String::from_str("📝: Parameters Unknown")
    } else {
        let mut p = String::from_str("📝: ");
        p.append(joined.as_str());
        p
    };
    push_line(&mut out, params.as_str(), Ghost(lines));
    proof { lines = lines.push(metrics_line(*data)); }

    let mut date = String::from_str("📅: ");
    match &data.datetime {
        Some(d) => date.append(d.as_str()),
        None => date.append("Unknown"),
    }
    push_line(&mut out, date.as_str(), Ghost(lines));
    proof { lines = lines.push(date_line(*data)); }
    assert(lines =~= seq![title_line(*data), separator_line(), camera_line(*data), metrics_line(*data), date_line(*data)]);

    let place = match (&data.location, &data.country) {
        (Some(l), Some(c)) => {
            let mut p = String::from_str("🗺️: ");
            p.append(l.as_str());
            p.append(", ");
            p.append(c.as_str());
            Some(p)
        },
        (Some(l), None) => {
            let mut p = String::from_str("🗺️: ");
            p.append(l.as_str());
            Some(p)
        },
        (None, Some(c)) => {
            let mut p = String::from_str("🗺️: ");
            p.append(c.as_str());
            Some(p)
        },
        (None, None) => None,
    };
    if let Some(p) = &place {
        push_line(&mut out, p.as_str(), Ghost(lines));
        proof { lines = lines.push(p@); }
    }
    assert(lines =~= seq![title_line(*data), separator_line(), camera_line(*data), metrics_line(*data), date_line(*data)] + place_lines(*data));

    if let Some(g) = &data.gps {
        let mut p = String::from_str("📍: ");
        p.append(g.as_str());
        push_line(&mut out, p.as_str(), Ghost(lines));
        proof { lines = lines.push(p@); }
    }
    assert(lines =~= caption_lines(*data));
    trimmed(out.as_str(), Strip::Newline, false)
}

/// The camera: make and model, either alone, else `Unknown Camera`.
pub open spec fn camera_of(fs: Seq<Field>) -> Seq<char> {
    match (first_string_text(fs, seq![Tag::Make]), first_string_text(fs, seq![Tag::Model])) {
        (Some(make), Some(model)) => make + " "@ + model,
        (Some(make), None) => make,
        (None, Some(model)) => model,
        (None, None) => "Unknown Camera"@,
    }
}

/// The lens: its model, else its specification, else `Unknown Lens`.
pub open spec fn lens_of(fs: Seq<Field>) -> Seq<char> {
    match first_string_text(fs, seq![Tag::LensModel]) {
        Some(m) => m,
        None => match lens_spec_of(fs) {
            Some(l) => l,
            None => "Unknown Lens"@,
        },
    }
}

/// The place name geocoded for the position, counted only when the metadata
/// holds a position.
pub open spec fn geocoded(fs: Seq<Field>, place: Option<Seq<char>>) -> Option<Seq<char>> {
    if gps_of(fs).is_some() { place } else { None }
}

/// The location: the geocoded place name, else the area the metadata names.
pub open spec fn location_of(fs: Seq<Field>, place: Option<Seq<char>>) -> Option<Seq<char>> {
    match geocoded(fs, place) {
        Some(p) => Some(p),
        None => first_string_text(fs, seq![Tag::GPSAreaInformation]),
    }
}

/// The country: the last part of the geocoded place name; none without one.
pub open spec fn country_from(fs: Seq<Field>, place: Option<Seq<char>>) -> Option<Seq<char>> {
    match geocoded(fs, place) {
        Some(p) => country_of(p),
        None => None,
    }
}

/// Everything `from_exif` promises of its result.
pub open spec fn resolved_from(a: ParsedExif, fs: Seq<Field>, place: Option<Seq<char>>) -> bool {
    &&& text_of(a.title) == first_string_text(fs, seq![Tag::ImageDescription])
    &&& a.camera@ == camera_of(fs)
    &&& a.lens@ == lens_of(fs)
    &&& a.focal_length_val == focal_length_of(fs)
    &&& text_of(a.focal_length) == (match focal_length_of(fs) {
        Some(f) => Some(focal_length_text(f)),
        None => None,
    })
    &&& a.focal_length_35mm_val == focal_35mm_of(fs)
    &&& text_of(a.focal_length_35mm) == (match focal_35mm_of(fs) {
        Some(v) => Some(focal_35mm_text(v)),
        None => None,
    })
    &&& text_of(a.aperture) == aperture_text(fs)
    &&& text_of(a.shutter) == shutter_of(fs)
    &&& text_of(a.iso) == iso_of(fs)
    &&& text_of(a.datetime) == datetime_of(fs)
    &&& text_of(a.location) == location_of(fs, place)
    &&& text_of(a.country) == country_from(fs, place)
    &&& text_of(a.gps) == (match gps_of(fs) {
        Some(g) => Some(gps_text(g.0, g.1, g.2, g.3)),
        None => None,
    })
}

impl ParsedExif {
    /// Resolves every attribute of a caption from the metadata. `place` is the
    /// name that reverse geocoding gave for the position, if any; it is used
    /// only when the metadata holds a position.
    pub fn from_exif(meta: &Metadata, place: Option<String>) -> (r: ParsedExif)
        ensures
            resolved_from(r, meta.fields@, text_of(place)),
    {
        let title = first_string(meta, [Tag::ImageDescription].as_slice());
        let make = first_string(meta, [Tag::Make].as_slice());
        let model = first_string(meta, [Tag::Model].as_slice());
        proof {
            assert([Tag::ImageDescription]@ =~= seq![Tag::ImageDescription]);
            assert([Tag::Make]@ =~= seq![Tag::Make]);
            assert([Tag::Model]@ =~= seq![Tag::Model]);
        }
        let camera = match (make, model) {
            (Some(make), Some(model)) => {
                let mut c = make;
                c.append(" ");
                c.append(model.as_str());
                c
            },
            (Some(make), None) => make,
            (None, Some(model)) => model,
            (None, None) => String::from_str("Unknown Camera"),
        };
        let lens_model = first_string(meta, [Tag::LensModel].as_slice());
        proof {
            assert([Tag::LensModel]@ =~= seq![Tag::LensModel]);
        }
        let lens = match lens_model {
            Some(m) => m,
            None => match lens_specification(meta) {
                Some(l) => l,
                None => String::from_str("Unknown Lens"),
            },
        };
        let (focal_length, focal_length_val) = focal_length_values(meta);
        let (focal_length_35mm, focal_length_35mm_val) = focal_length_35mm_values(meta);
        let aperture = aperture_value(meta);
        let shutter = shutter_value(meta);
        let iso = iso_value(meta);
        let datetime = datetime_value(meta);
        let gps = match gps_coordinates(meta) {
            Some(g) => Some(g.display),
            None => None,
        };
        let (fallback_location, fallback_country) = location_values(meta);
        let place = if gps.is_some() { place } else { None };
        let (location, country) = match place {
            Some(p) => {
                let country = extract_country(p.as_str());
                (Some(p), country)
            },
            None => (fallback_location, fallback_country),
        };
        ParsedExif {
            title,
            camera,
            lens,
            focal_length,
            focal_length_val,
            focal_length_35mm,
            focal_length_35mm_val,
            aperture,
            shutter,
            iso,
            datetime,
            location,
            country,
            gps,
        }
    }

    /// The record of an image without metadata.
    pub fn empty() -> (r: ParsedExif)
        ensures
            r.camera@ == "Unknown Camera"@,
            r.lens@ == "Unknown Lens"@,
            r.title.is_none() && r.focal_length.is_none() && r.focal_length_val.is_none(),
            r.focal_length_35mm.is_none() && r.focal_length_35mm_val.is_none(),
            r.aperture.is_none() && r.shutter.is_none() && r.iso.is_none() && r.datetime.is_none(),
            r.location.is_none() && r.country.is_none() && r.gps.is_none(),
    {
        ParsedExif {
            title: None,
            camera: String::from_str("Unknown Camera"),
            lens: String::from_str("Unknown Lens"),
            focal_length: None,
            focal_length_val: None,
            focal_length_35mm: None,
            focal_length_35mm_val: None,
            aperture: None,
            shutter: None,
            iso: None,
            datetime: None,
            location: None,
            country: None,
            gps: None,
        }
    }
}

/// The caption of an image without metadata.
pub open spec fn empty_caption() -> Seq<char> {
    "💭: \n——————————\n📸: Unknown Camera / Unknown Lens\n📝: Parameters Unknown\n📅: Unknown"@
}

/// The caption of an image without metadata: unknown camera, lens,
/// parameters and date, and no place.
pub fn build_empty_caption() -> (r: String)
    ensures
        r@ == empty_caption(),
{
    let data = ParsedExif::empty();
    let r = build_caption(&data);
    proof {
        reveal_strlit("💭: \n——————————\n📸: Unknown Camera / Unknown Lens\n📝: Parameters Unknown\n📅: Unknown");
        reveal_strlit("💭: ");
        reveal_strlit("——————————");
        reveal_strlit("📸: ");
        reveal_strlit(" / ");
        reveal_strlit("Unknown Camera");
        reveal_strlit("Unknown Lens");
        reveal_strlit("📝: Parameters Unknown");
        reveal_strlit("📅: ");
        reveal_strlit("Unknown");
        assert(metrics(data) =~= Seq::<Seq<char>>::empty());
        let l0 = Seq::<Seq<char>>::empty();
        let l1 = l0.push(title_line(data));
        let l2 = l1.push(separator_line());
        let l3 = l2.push(camera_line(data));
        let l4 = l3.push(metrics_line(data));
        let l5 = l4.push(date_line(data));
        assert(caption_lines(data) =~= l5);
        lemma_terminated_push(l0, title_line(data));
        lemma_terminated_push(l1, separator_line());
        lemma_terminated_push(l2, camera_line(data));
        lemma_terminated_push(l3, metrics_line(data));
        lemma_terminated_push(l4, date_line(data));
        let body = terminated(l5);
        assert(body =~= empty_caption() + seq!['\n']);
        assert(body.drop_last() =~= empty_caption());
        reveal_with_fuel(trim_end, 2);
        assert(empty_caption().last() == 'n');
    }
    r
}

/// The number of bytes that UTF-8 takes for `c`.
pub open spec fn utf8_width(c: char) -> nat {
    if (c as u32) < 0x80 {
        1
    } else if (c as u32) < 0x800 {
        2
    } else if (c as u32) < 0x10000 {
        3
    } else {
        4
    }
}

/// The number of bytes that UTF-8 takes for `s`.
pub open spec fn utf8_len(s: Seq<char>) -> nat
    decreases s.len(),
{
    if s.len() == 0 {
        0
    } else {
        utf8_len(s.drop_last()) + utf8_width(s.last())
    }
}

/// The longest prefix of `s` that takes at most `limit` bytes.
pub open spec fn fitting(s: Seq<char>, limit: nat) -> Seq<char>
    decreases s.len(),
{
    if utf8_len(s) <= limit || s.len() == 0 {
        s
    } else {
        fitting(s.drop_last(), limit)
    }
}

/// Appended to a caption that had to be cut.
pub const TRUNCATION_MARKER: &'static str = "... [truncated]";

/// Byte budget of a caption before the truncation marker is added.
pub const CAPTION_LIMIT: usize = 1000;

/// A caption within the budget, else its longest prefix within the budget and the marker.
pub open spec fn limited(s: Seq<char>) -> Seq<char> {
    if utf8_len(s) <= CAPTION_LIMIT {
        s
    } else {
        fitting(s, CAPTION_LIMIT as nat) + TRUNCATION_MARKER@
    }
}

proof fn lemma_utf8_len_prefix(s: Seq<char>, i: int)
    requires
        0 <= i < s.len(),
    ensures
        utf8_len(s.subrange(0, i + 1)) == utf8_len(s.subrange(0, i)) + utf8_width(s[i]),
{
    assert(s.subrange(0, i + 1).drop_last() =~= s.subrange(0, i));
}

proof fn lemma_utf8_len_monotone(s: Seq<char>, i: int, j: int)
    requires
        0 <= i <= j <= s.len(),
    ensures
        utf8_len(s.subrange(0, i)) <= utf8_len(s.subrange(0, j)),
    decreases j - i,
{
    if i < j {
        lemma_utf8_len_prefix(s, j - 1);
        lemma_utf8_len_monotone(s, i, j - 1);
    }
}

proof fn lemma_fitting_prefix(s: Seq<char>, k: int, j: int, limit: nat)
    requires
        0 <= k <= j <= s.len(),
        utf8_len(s.subrange(0, k)) <= limit,
        k < s.len() ==> utf8_len(s.subrange(0, k + 1)) > limit,
    ensures
        fitting(s.subrange(0, j), limit) == s.subrange(0, k),
    decreases j - k,
{
    if j > k {
        lemma_utf8_len_monotone(s, k + 1, j);
        assert(s.subrange(0, j).drop_last() =~= s.subrange(0, j - 1));
        lemma_fitting_prefix(s, k, j - 1, limit);
    }
}

/// `utf8_len` of a concatenation is the sum.
pub proof fn lemma_utf8_len_concat(a: Seq<char>, b: Seq<char>)
    ensures
        utf8_len(a + b) == utf8_len(a) + utf8_len(b),
    decreases b.len(),
{
    if b.len() > 0 {
        assert((a + b).drop_last() =~= a + b.drop_last());
        lemma_utf8_len_concat(a, b.drop_last());
    } else {
        assert(a + b =~= a);
    }
}

fn utf8_width_exec(c: char) -> (w: usize)
    ensures
        w == utf8_width(c),
{
    let v = c as u32;
    if v < 0x80 {
        1
    } else if v < 0x800 {
        2
    } else if v < 0x10000 {
        3
    } else {
        4
    }
}

/// Keeps a caption within `CAPTION_LIMIT` bytes: a longer one is cut at the
/// last character boundary within the budget and marked as truncated.
pub fn enforce_caption_limit(caption: String) -> (r: String)
    ensures
        r@ == limited(caption@),
{
    let ghost s = caption@;
    let n = caption.unicode_len();
    let mut i: usize = 0;
    let mut used: usize = 0;
    let mut cut = false;
    while i < n && !cut
        invariant
            i <= n == s.len(),
            s == caption@,
            used == utf8_len(s.subrange(0, i as int)),
            used <= CAPTION_LIMIT,
            cut ==> i < n && used + utf8_width(s[i as int]) > CAPTION_LIMIT,
        decreases n - i, if cut { 0int } else { 1int },
    {
        let w = utf8_width_exec(caption.as_str().get_char(i));
        proof {
            lemma_utf8_len_prefix(s, i as int);
        }
        if used + w > CAPTION_LIMIT {
            cut = true;
        } else {
            used = used + w;
            i = i + 1;
        }
    }
    if !cut {
        assert(s.subrange(0, n as int) =~= s);
        return caption;
    }
    proof {
        lemma_utf8_len_prefix(s, i as int);
        lemma_fitting_prefix(s, i as int, n as int, CAPTION_LIMIT as nat);
        assert(s.subrange(0, n as int) =~= s);
        lemma_utf8_len_monotone(s, i as int + 1, n as int);
    }
    let mut out = String::from_str(caption.as_str().substring_char(0, i));
    out.append(TRUNCATION_MARKER);
    out
}

/// A limited caption takes at most the budget plus the marker, and carries
/// the marker exactly when the caption was over the budget.
pub proof fn lemma_caption_limit(s: Seq<char>)
    ensures
        utf8_len(limited(s)) <= CAPTION_LIMIT + utf8_len(TRUNCATION_MARKER@),
        utf8_len(s) > CAPTION_LIMIT ==> limited(s) == fitting(s, CAPTION_LIMIT as nat) + TRUNCATION_MARKER@
            && utf8_len(fitting(s, CAPTION_LIMIT as nat)) <= CAPTION_LIMIT,
        utf8_len(s) <= CAPTION_LIMIT ==> limited(s) == s,
{
    if utf8_len(s) > CAPTION_LIMIT {
        lemma_fitting_within(s, CAPTION_LIMIT as nat);
        lemma_utf8_len_concat(fitting(s, CAPTION_LIMIT as nat), TRUNCATION_MARKER@);
    }
}

proof fn lemma_fitting_within(s: Seq<char>, limit: nat)
    ensures
        utf8_len(fitting(s, limit)) <= limit,
    decreases s.len(),
{
    if utf8_len(s) > limit && s.len() > 0 {
        lemma_fitting_within(s.drop_last(), limit);
    }
}

/// Resolution leaves nothing open: two records resolved from the same fields
/// and place agree, so they render the same caption.
pub proof fn lemma_resolution_unique(a: ParsedExif, b: ParsedExif, fs: Seq<Field>, place: Option<Seq<char>>)
    requires
        resolved_from(a, fs, place),
        resolved_from(b, fs, place),
    ensures
        same_attributes(a, b),
        caption_text(a) == caption_text(b),
{
    lemma_caption_deterministic(a, b);
}

/// Without a location, a country or a position the caption has exactly the
/// five fixed lines: title, separator, camera and lens, parameters, date.
pub proof fn lemma_five_lines(a: ParsedExif)
    requires
        a.location.is_none(),
        a.country.is_none(),
        a.gps.is_none(),
    ensures
        caption_lines(a) == seq![title_line(a), separator_line(), camera_line(a), metrics_line(a), date_line(a)],
{
    assert(caption_lines(a) =~= seq![title_line(a), separator_line(), camera_line(a), metrics_line(a), date_line(a)]);
}

/// Equal records give the same caption, character for character.
pub proof fn lemma_caption_deterministic(a: ParsedExif, b: ParsedExif)
    requires
        same_attributes(a, b),
    ensures
        caption_text(a) == caption_text(b),
{
    assert(metrics(a) == metrics(b));
    assert(caption_lines(a) =~= caption_lines(b));
}

} // verus!
