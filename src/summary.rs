use vstd::prelude::*;
use crate::caption::{build_caption, build_empty_caption, caption_text, empty_caption, resolved_from, ParsedExif};
use crate::metadata::Metadata;
use crate::strings::text_of;

verus! {

/// The outcome of reading the metadata container of an image.
#[derive(Debug)]
pub enum ReadOutcome {
    Found(Metadata),
    /// The image holds no metadata: not an error.
    NotFound,
    /// The container could not be decoded.
    Failed(String),
}

/// Renders the caption of an image from what reading its metadata gave and
/// from the geocoded place name, if any. Missing metadata gives the empty
/// caption; a decoding failure is handed back.
pub fn summarize_metadata(read: ReadOutcome, place: Option<String>) -> (r: Result<String, String>)
    ensures
        match read {
            ReadOutcome::Found(meta) => r is Ok && exists|a: ParsedExif|
                #![trigger caption_text(a)]
                resolved_from(a, meta.fields@, text_of(place)) && r->Ok_0@ == caption_text(a),
            ReadOutcome::NotFound => r is Ok && r->Ok_0@ == empty_caption(),
            ReadOutcome::Failed(e) => r is Err && r->Err_0@ == e@,
        },
{
    match read {
        ReadOutcome::Found(meta) => {
            let data = ParsedExif::from_exif(&meta, place);
            let text = build_caption(&data);
            Ok(text)
        },
        ReadOutcome::NotFound => Ok(build_empty_caption()),
        ReadOutcome::Failed(e) => Err(e),
    }
}

/// The place name in a reverse-geocoding response body: the `display_name`
/// string of the JSON object, if the body is JSON and has one.
pub uninterp spec fn json_display_name(body: Seq<char>) -> Option<Seq<char>>;

/// Relies on `serde_json::from_str` and `Value::get` / `Value::as_str`: the
/// string member `display_name` of the parsed body.
#[verifier::external_body]
fn display_name_in(body: &str) -> (r: Option<String>)
    ensures
        text_of(r) == json_display_name(body@),
{
    let value: serde_json::Value = match serde_json::from_str(body) {
        Ok(v) => v,
        Err(_) => return None,
    };
    match value.get("display_name") {
        Some(field) => field.as_str().map(String::from),
        None => None,
    }
}

/// The place that a reverse-geocoding answer names: none when the request
/// failed, the status was not a success, or the body has no place name.
pub fn place_from_response(success: bool, body: Option<String>) -> (r: Option<String>)
    ensures
        text_of(r) == (match body {
            Some(b) if success => json_display_name(b@),
            _ => None,
        }),
{
    match body {
        Some(b) => if success { display_name_in(b.as_str()) } else { None },
        None => None,
    }
}

} // verus!
