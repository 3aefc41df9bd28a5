use fotobot::caption::{build_caption, build_empty_caption, enforce_caption_limit, ParsedExif, TRUNCATION_MARKER};
use fotobot::metadata::{Field, Metadata, Tag, TagValue};
use fotobot::summary::{summarize_metadata, ReadOutcome};
use fotobot::units::Ratio;

fn ascii(tag: Tag, text: &str) -> Field {
    Field { tag, primary: true, value: TagValue::Ascii(vec![text.as_bytes().to_vec()]), text: text.to_string() }
}

fn rational(tag: Tag, values: &[(u32, u32)]) -> Field {
    let vs: Vec<Ratio> = values.iter().map(|&(num, denom)| Ratio { num, denom }).collect();
    Field { tag, primary: true, value: TagValue::Rational(vs), text: String::new() }
}

fn unsigned(tag: Tag, v: u32) -> Field {
    Field { tag, primary: true, value: TagValue::Unsigned(vec![v]), text: v.to_string() }
}

fn canon() -> Metadata {
    Metadata {
        fields: vec![
            ascii(Tag::Make, "Canon"),
            ascii(Tag::Model, "EOS R5"),
            rational(Tag::FocalLength, &[(50, 1)]),
            rational(Tag::FNumber, &[(9, 5)]),
            rational(Tag::ExposureTime, &[(1, 200)]),
            unsigned(Tag::PhotographicSensitivity, 400),
        ],
    }
}

fn caption_of(meta: &Metadata, place: Option<&str>) -> String {
    build_caption(&ParsedExif::from_exif(meta, place.map(String::from)))
}

#[test]
fn canon_scenario_lines() {
    let text = caption_of(&canon(), None);
    let lines: Vec<&str> = text.split('\n').collect();
    assert_eq!(lines[0], "💭: ");
    assert_eq!(lines[1], "——————————");
    assert_eq!(lines[2], "📸: Canon EOS R5 / Unknown Lens");
    assert_eq!(lines[3], "📝: 50mm, f/1.8, 1/200s, ISO 400");
    assert_eq!(lines[4], "📅: Unknown");
    assert_eq!(lines.len(), 5);
    assert!(!text.contains("🗺️"));
    assert!(!text.contains("📍"));
}

#[test]
fn empty_caption_when_no_metadata() {
    let expected = "💭: \n——————————\n📸: Unknown Camera / Unknown Lens\n📝: Parameters Unknown\n📅: Unknown";
    assert_eq!(build_empty_caption(), expected);
    assert_eq!(summarize_metadata(ReadOutcome::NotFound, None), Ok(expected.to_string()));
    assert_eq!(caption_of(&Metadata { fields: vec![] }, None), expected);
}

#[test]
fn decode_failure_is_an_error() {
    let r = summarize_metadata(ReadOutcome::Failed("bad container".to_string()), None);
    assert_eq!(r, Err("bad container".to_string()));
}

#[test]
fn summary_of_found_metadata_is_its_caption() {
    let r = summarize_metadata(ReadOutcome::Found(canon()), None).unwrap();
    assert_eq!(r, caption_of(&canon(), None));
}

#[test]
fn caption_is_deterministic() {
    let a = caption_of(&canon(), Some("Pittsburgh, Pennsylvania, United States"));
    let b = caption_of(&canon(), Some("Pittsburgh, Pennsylvania, United States"));
    assert_eq!(a.as_bytes(), b.as_bytes());
}

fn with_position(mut meta: Metadata) -> Metadata {
    meta.fields.push(rational(Tag::GPSLatitude, &[(40, 1), (26, 1), (46, 1)]));
    meta.fields.push(ascii(Tag::GPSLatitudeRef, "N"));
    meta.fields.push(rational(Tag::GPSLongitude, &[(79, 1), (56, 1), (55, 1)]));
    meta.fields.push(ascii(Tag::GPSLongitudeRef, "W"));
    meta
}

#[test]
fn location_line_with_geocoded_place() {
    let text = caption_of(&with_position(canon()), Some("Pittsburgh, Pennsylvania, United States"));
    assert!(text.contains("🗺️: Pittsburgh, Pennsylvania, United States, United States"));
}

#[test]
fn place_ignored_without_position() {
    let text = caption_of(&canon(), Some("Pittsburgh, Pennsylvania, United States"));
    assert!(!text.contains("🗺️"));
    let data = ParsedExif::from_exif(&canon(), Some("Somewhere, Else".to_string()));
    assert!(data.location.is_none());
    assert!(data.country.is_none());
}

#[test]
fn title_trimmed_of_nuls_and_spaces_together() {
    let meta = Metadata { fields: vec![ascii(Tag::ImageDescription, "\0 A \0")] };
    assert_eq!(ParsedExif::from_exif(&meta, None).title, Some("A".to_string()));
    let blank = Metadata { fields: vec![ascii(Tag::ImageDescription, " \0 \0")] };
    assert_eq!(ParsedExif::from_exif(&blank, None).title, None);
}

#[test]
fn location_falls_back_to_area_information() {
    let mut meta = canon();
    meta.fields.push(Field {
        tag: Tag::GPSAreaInformation,
        primary: true,
        value: TagValue::Undefined(b"ASCII\0\0\0Old Town ".to_vec()),
        text: String::new(),
    });
    let text = caption_of(&meta, None);
    assert!(text.ends_with("🗺️: ASCII\0\0\0Old Town"));
}

#[test]
fn title_camera_and_lens_lines() {
    let meta = Metadata {
        fields: vec![
            ascii(Tag::ImageDescription, "  Sunset\0\0"),
            ascii(Tag::Model, "X100V"),
            ascii(Tag::LensModel, "XF23mm"),
        ],
    };
    let text = caption_of(&meta, None);
    let lines: Vec<&str> = text.split('\n').collect();
    assert_eq!(lines[0], "💭: Sunset");
    assert_eq!(lines[2], "📸: X100V / XF23mm");
}

#[test]
fn lens_from_specification() {
    let meta = Metadata {
        fields: vec![rational(Tag::LensSpecification, &[(24, 1), (70, 1), (28, 10), (28, 10)])],
    };
    assert!(caption_of(&meta, None).contains("📸: Unknown Camera / 24-70mm f/2.8"));
}

#[test]
fn focal_length_35mm_preferred_on_crop_sensor() {
    let mut meta = canon();
    meta.fields.push(unsigned(Tag::FocalLengthIn35mmFilm, 75));
    assert!(caption_of(&meta, None).contains("📝: 75mm (35mm eq), f/1.8"));
}

#[test]
fn native_focal_length_kept_on_full_frame() {
    let mut meta = canon();
    meta.fields.push(unsigned(Tag::FocalLengthIn35mmFilm, 50));
    assert!(caption_of(&meta, None).contains("📝: 50mm, f/1.8"));
}

#[test]
fn date_line_reformatted() {
    let mut meta = canon();
    meta.fields.push(ascii(Tag::DateTimeOriginal, "2024:05:17 18:30:02\0"));
    assert!(caption_of(&meta, None).contains("📅: 2024-05-17 18:30:02"));
}

#[test]
fn gps_line_rendered() {
    let mut meta = canon();
    meta.fields.push(rational(Tag::GPSLatitude, &[(40, 1), (26, 1), (46, 1)]));
    meta.fields.push(ascii(Tag::GPSLatitudeRef, "N"));
    meta.fields.push(rational(Tag::GPSLongitude, &[(79, 1), (56, 1), (55, 1)]));
    meta.fields.push(ascii(Tag::GPSLongitudeRef, "W"));
    let text = caption_of(&meta, None);
    assert!(text.ends_with("📍: 40.446111° N, 79.948611° W"));
}

#[test]
fn short_caption_is_kept() {
    let s = "💭: \n——————————".to_string();
    assert_eq!(enforce_caption_limit(s.clone()), s);
    let exact = "a".repeat(1000);
    assert_eq!(enforce_caption_limit(exact.clone()), exact);
}

#[test]
fn long_caption_is_truncated() {
    let s = "a".repeat(1001);
    let r = enforce_caption_limit(s);
    assert_eq!(r, format!("{}{}", "a".repeat(1000), TRUNCATION_MARKER));
    assert!(r.len() <= 1000 + TRUNCATION_MARKER.len());
}

#[test]
fn truncation_respects_character_boundaries() {
    // 999 single-byte characters, then a four-byte emoji straddling the budget.
    let s = format!("{}📸tail", "a".repeat(999));
    let r = enforce_caption_limit(s);
    assert_eq!(r, format!("{}{}", "a".repeat(999), TRUNCATION_MARKER));
    assert!(r.len() <= 1000 + TRUNCATION_MARKER.len());
    assert!(r.ends_with("... [truncated]"));
}
