use fotobot::geo::{extract_country, gps_coordinate, gps_coordinates, normalized_gps_ref, reverse_geocode_url};
use fotobot::metadata::{Field, Metadata, Tag, TagValue};
use fotobot::summary::place_from_response;
use fotobot::units::Ratio;

fn dms(d: (u32, u32), m: (u32, u32), s: (u32, u32)) -> TagValue {
    TagValue::Rational(vec![
        Ratio { num: d.0, denom: d.1 },
        Ratio { num: m.0, denom: m.1 },
        Ratio { num: s.0, denom: s.1 },
    ])
}

fn field(tag: Tag, value: TagValue) -> Field {
    Field { tag, primary: true, value, text: String::new() }
}

fn reference(tag: Tag, text: &str) -> Field {
    field(tag, TagValue::Ascii(vec![text.as_bytes().to_vec()]))
}

fn pittsburgh(lat_ref: Option<&str>, lon_ref: Option<&str>) -> Metadata {
    let mut fields = vec![
        field(Tag::GPSLatitude, dms((40, 1), (26, 1), (46, 1))),
        field(Tag::GPSLongitude, dms((79, 1), (56, 1), (55, 1))),
    ];
    if let Some(r) = lat_ref {
        fields.push(reference(Tag::GPSLatitudeRef, r));
    }
    if let Some(r) = lon_ref {
        fields.push(reference(Tag::GPSLongitudeRef, r));
    }
    Metadata { fields }
}

#[test]
fn pittsburgh_coordinates() {
    let g = gps_coordinates(&pittsburgh(Some("N"), Some("W"))).unwrap();
    assert_eq!(g.display, "40.446111° N, 79.948611° W");
    assert!(!g.south);
    assert!(g.west);
    let url = reverse_geocode_url(&g, "en");
    assert_eq!(
        url,
        "https://nominatim.openstreetmap.org/reverse?lat=40.446111&lon=-79.948611&addressdetails=0&accept-language=en&format=json"
    );
}

#[test]
fn fractional_seconds_coordinates() {
    let meta = Metadata {
        fields: vec![
            field(Tag::GPSLatitude, dms((40, 1), (26, 1), (458, 10))),
            field(Tag::GPSLongitude, dms((79, 1), (56, 1), (55, 1))),
            reference(Tag::GPSLongitudeRef, "W"),
        ],
    };
    let g = gps_coordinates(&meta).unwrap();
    assert_eq!(g.display, "40.446056° N, 79.948611° W");
}

#[test]
fn hemisphere_defaults_and_flips() {
    let g = gps_coordinates(&pittsburgh(None, None)).unwrap();
    assert_eq!(g.display, "40.446111° N, 79.948611° E");
    assert!(!g.south && !g.west);
    let g = gps_coordinates(&pittsburgh(Some("s"), Some("e"))).unwrap();
    assert_eq!(g.display, "40.446111° S, 79.948611° E");
    assert!(g.south && !g.west);
    let g = gps_coordinates(&pittsburgh(Some("X"), Some("?"))).unwrap();
    assert_eq!(g.display, "40.446111° N, 79.948611° E");
    let url = reverse_geocode_url(&gps_coordinates(&pittsburgh(Some("S"), Some("W"))).unwrap(), "zh-cn");
    assert!(url.contains("lat=-40.446111&lon=-79.948611&"));
    assert!(url.ends_with("accept-language=zh-cn&format=json"));
}

#[test]
fn normalized_reference_letters() {
    assert_eq!(normalized_gps_ref("S", 'N'), 'S');
    assert_eq!(normalized_gps_ref(" w\0", 'E'), 'W');
    assert_eq!(normalized_gps_ref("1 north", 'E'), 'N');
    assert_eq!(normalized_gps_ref("Q", 'N'), 'N');
    assert_eq!(normalized_gps_ref("", 'E'), 'E');
}

#[test]
fn gps_needs_both_coordinates() {
    let meta = Metadata { fields: vec![field(Tag::GPSLatitude, dms((40, 1), (26, 1), (46, 1)))] };
    assert!(gps_coordinates(&meta).is_none());
    let bad = Metadata {
        fields: vec![
            field(Tag::GPSLatitude, dms((40, 1), (26, 0), (46, 1))),
            field(Tag::GPSLongitude, dms((79, 1), (56, 1), (55, 1))),
        ],
    };
    assert!(gps_coordinates(&bad).is_none());
    assert!(gps_coordinate(&TagValue::Rational(vec![Ratio { num: 1, denom: 1 }])).is_none());
    assert!(gps_coordinate(&TagValue::Other).is_none());
}

#[test]
fn largest_components_render() {
    let m = u32::MAX;
    let meta = Metadata {
        fields: vec![
            field(Tag::GPSLatitude, dms((m, 1), (m, 1), (m, 1))),
            field(Tag::GPSLongitude, dms((0, m), (0, m), (1, m))),
        ],
    };
    let g = gps_coordinates(&meta).unwrap();
    assert_eq!(g.display, "4367743129.720833° N, 0.000000° E");
}

#[test]
fn country_is_last_nonblank_part() {
    assert_eq!(extract_country("Pittsburgh, Pennsylvania, United States"), Some("United States".to_string()));
    assert_eq!(extract_country("Paris, France, , "), Some("France".to_string()));
    assert_eq!(extract_country("Tokyo"), Some("Tokyo".to_string()));
    assert_eq!(extract_country(" , "), None);
    assert_eq!(extract_country(""), None);
}

#[test]
fn place_from_geocoder_answer() {
    let body = r#"{"place_id": 1, "display_name": "Pittsburgh, Pennsylvania, United States"}"#.to_string();
    assert_eq!(place_from_response(true, Some(body.clone())), Some("Pittsburgh, Pennsylvania, United States".to_string()));
    assert_eq!(place_from_response(false, Some(body)), None);
    assert_eq!(place_from_response(true, None), None);
    assert_eq!(place_from_response(true, Some("not json".to_string())), None);
    assert_eq!(place_from_response(true, Some(r#"{"error": "Unable to geocode"}"#.to_string())), None);
    assert_eq!(place_from_response(true, Some(r#"{"display_name": 5}"#.to_string())), None);
}
