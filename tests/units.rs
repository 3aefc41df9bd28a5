use fotobot::attributes::{aperture_value, datetime_value, format_datetime, iso_value, shutter_value};
use fotobot::metadata::{field_to_string, find_field, first_string, Field, Metadata, Tag, TagValue};
use fotobot::text::push_decimal;
use fotobot::units::{format_fnumber, format_focal_35mm, format_iso, format_lens_spec, format_shutter, push_focal_length, Ratio};

fn r(num: u32, denom: u32) -> Ratio {
    Ratio { num, denom }
}

fn focal(num: u32, denom: u32) -> String {
    let mut s = String::new();
    push_focal_length(&mut s, r(num, denom));
    s
}

#[test]
fn focal_length_whole_within_a_tenth() {
    assert_eq!(focal(50, 1), "50mm");
    assert_eq!(focal(5005, 100), "50mm");
    assert_eq!(focal(4995, 100), "50mm");
    assert_eq!(focal(5011, 100), "50.1mm");
    assert_eq!(focal(245, 10), "24.5mm");
    assert_eq!(focal(123, 7), "17.6mm");
}

#[test]
fn aperture_whole_within_a_twentieth() {
    assert_eq!(format_fnumber(r(9, 5)), "f/1.8");
    assert_eq!(format_fnumber(r(2, 1)), "f/2");
    assert_eq!(format_fnumber(r(28, 10)), "f/2.8");
    assert_eq!(format_fnumber(r(804, 100)), "f/8");
    assert_eq!(format_fnumber(r(806, 100)), "f/8.1");
    assert_eq!(format_fnumber(r(1, 0)), "f/--");
}

#[test]
fn shutter_long_exposures() {
    assert_eq!(format_shutter(r(2, 1)), "2s");
    assert_eq!(format_shutter(r(1, 1)), "1s");
    assert_eq!(format_shutter(r(25, 10)), "2.50s");
    assert_eq!(format_shutter(r(1005, 1000)), "1s");
    assert_eq!(format_shutter(r(1013, 1000)), "1.01s");
}

#[test]
fn shutter_short_exposures() {
    assert_eq!(format_shutter(r(1, 200)), "1/200s");
    assert_eq!(format_shutter(r(1, 3)), "1/3s");
    assert_eq!(format_shutter(r(10, 1250)), "1/125s");
    assert_eq!(format_shutter(r(3, 10)), "0.300s");
    assert_eq!(format_shutter(r(1, 8000)), "1/8000s");
    assert_eq!(format_shutter(r(1, 16000)), "0.000s");
}

#[test]
fn shutter_absent_when_zero_or_infinite() {
    let meta = |v: Ratio| Metadata {
        fields: vec![Field { tag: Tag::ExposureTime, primary: true, value: TagValue::Rational(vec![v]), text: String::new() }],
    };
    assert_eq!(shutter_value(&meta(r(0, 1))), None);
    assert_eq!(shutter_value(&meta(r(1, 0))), None);
    assert_eq!(shutter_value(&meta(r(1, 60))), Some("1/60s".to_string()));
}

#[test]
fn lens_specification_text() {
    assert_eq!(format_lens_spec(r(24, 1), r(70, 1), r(28, 10), r(28, 10)), "24-70mm f/2.8");
    assert_eq!(format_lens_spec(r(35, 1), r(352, 10), r(14, 10), r(14, 10)), "35mm f/1.4");
    assert_eq!(format_lens_spec(r(18, 1), r(55, 1), r(35, 10), r(56, 10)), "18-55mm f/3.5-f/5.6");
    assert_eq!(format_lens_spec(r(1, 0), r(0, 0), r(0, 0), r(2, 1)), "inf-NaNmm f/---f/2");
}

#[test]
fn integer_renderings() {
    assert_eq!(format_focal_35mm(75), "75mm (35mm eq)");
    assert_eq!(format_iso(400), "ISO 400");
    let mut s = String::from("n=");
    push_decimal(&mut s, 0);
    assert_eq!(s, "n=0");
}

#[test]
fn datetime_reformatting() {
    assert_eq!(format_datetime("2024:05:17 18:30:02"), "2024-05-17 18:30:02");
    assert_eq!(format_datetime(" 2024:05:17 18:30:02\0\0"), "2024-05-17 18:30:02");
    assert_eq!(format_datetime("2024:05:17"), "2024:05:17");
    assert_eq!(format_datetime(""), "");
}

fn field(tag: Tag, primary: bool, value: TagValue, text: &str) -> Field {
    Field { tag, primary, value, text: text.to_string() }
}

#[test]
fn field_text_by_encoding() {
    let a = field(Tag::Make, true, TagValue::Ascii(vec![b"Nikon\0\0".to_vec()]), "");
    assert_eq!(field_to_string(&a), Some("Nikon".to_string()));
    let bad = field(Tag::Make, true, TagValue::Ascii(vec![vec![0xff, 0xfe]]), "");
    assert_eq!(field_to_string(&bad), None);
    let none = field(Tag::Make, true, TagValue::Ascii(vec![]), "");
    assert_eq!(field_to_string(&none), None);
    let blob = field(Tag::GPSAreaInformation, true, TagValue::Undefined(b"\0 Harbour \0".to_vec()), "");
    assert_eq!(field_to_string(&blob), Some("Harbour".to_string()));
    let lossy = field(Tag::GPSAreaInformation, true, TagValue::Undefined(vec![b'a', 0xff, b'b']), "");
    assert_eq!(field_to_string(&lossy), Some("a\u{fffd}b".to_string()));
    let empty_blob = field(Tag::GPSAreaInformation, true, TagValue::Undefined(b"\0\0 ".to_vec()), "");
    assert_eq!(field_to_string(&empty_blob), None);
    let other = field(Tag::Other, true, TagValue::Other, " 1/2 \0");
    assert_eq!(field_to_string(&other), Some("1/2".to_string()));
}

#[test]
fn primary_field_found_first() {
    let meta = Metadata {
        fields: vec![
            field(Tag::Model, false, TagValue::Ascii(vec![b"Thumb".to_vec()]), ""),
            field(Tag::Make, true, TagValue::Ascii(vec![b"Sony".to_vec()]), ""),
            field(Tag::Model, true, TagValue::Ascii(vec![b"A7".to_vec()]), ""),
        ],
    };
    assert_eq!(find_field(&meta, Tag::Model), Some(2));
    assert_eq!(find_field(&meta, Tag::Make), Some(1));
    assert_eq!(find_field(&meta, Tag::LensModel), None);
    let only_thumb = Metadata { fields: vec![field(Tag::Model, false, TagValue::Ascii(vec![b"T".to_vec()]), "")] };
    assert_eq!(find_field(&only_thumb, Tag::Model), Some(0));
}

#[test]
fn first_string_skips_unreadable_tags() {
    let meta = Metadata {
        fields: vec![
            field(Tag::Make, true, TagValue::Ascii(vec![vec![0xff]]), ""),
            field(Tag::Model, true, TagValue::Ascii(vec![b" \0Z6\0".to_vec()]), ""),
            field(Tag::LensModel, true, TagValue::Ascii(vec![b"   ".to_vec()]), ""),
        ],
    };
    assert_eq!(first_string(&meta, &[Tag::Make, Tag::Model]), Some("Z6".to_string()));
    assert_eq!(first_string(&meta, &[Tag::LensModel]), None);
    assert_eq!(first_string(&meta, &[]), None);
}

#[test]
fn tag_fallback_chains() {
    let meta = Metadata {
        fields: vec![
            field(Tag::ApertureValue, true, TagValue::Rational(vec![r(4, 1)]), ""),
            field(Tag::ISOSpeed, true, TagValue::Unsigned(vec![3200]), ""),
            field(Tag::DateTime, true, TagValue::Ascii(vec![b"2020:01:02 03:04:05".to_vec()]), ""),
            field(Tag::DateTimeDigitized, true, TagValue::Ascii(vec![b"2021:01:02 03:04:05".to_vec()]), ""),
        ],
    };
    assert_eq!(aperture_value(&meta), Some("f/4".to_string()));
    assert_eq!(iso_value(&meta), Some("ISO 3200".to_string()));
    assert_eq!(datetime_value(&meta), Some("2021-01-02 03:04:05".to_string()));
    let first_wins = Metadata {
        fields: vec![
            field(Tag::ApertureValue, true, TagValue::Rational(vec![r(4, 1)]), ""),
            field(Tag::FNumber, true, TagValue::Rational(vec![r(56, 10)]), ""),
        ],
    };
    assert_eq!(aperture_value(&first_wins), Some("f/5.6".to_string()));
    let infinite = Metadata { fields: vec![field(Tag::FNumber, true, TagValue::Rational(vec![r(1, 0)]), "")] };
    assert_eq!(aperture_value(&infinite), None);
}
