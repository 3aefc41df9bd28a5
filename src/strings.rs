use vstd::prelude::*;
use vstd::string::{StrSliceExecFns, StringExecFns};

verus! {

/// The text of an optional string.
pub open spec fn text_of(o: Option<String>) -> Option<Seq<char>> {
    match o {
        Some(s) => Some(s@),
        None => None,
    }
}

/// Which characters a trim removes.
#[derive(Clone, Copy, Debug, PartialEq, Eq, Structural)]
pub enum Strip {
    /// The NUL character that pads fixed-size text fields.
    Nul,
    /// Unicode white space.
    Space,
    /// Line feeds.
    Newline,
    /// NULs and Unicode white space alike.
    NulOrSpace,
}

/// Unicode `White_Space`, the set that `char::is_whitespace` tests.
pub open spec fn is_space(c: char) -> bool {
    ||| ('\t' <= c && c <= '\r')
    ||| c == ' '
    ||| c == '\u{85}'
    ||| c == '\u{a0}'
    ||| c == '\u{1680}'
    ||| ('\u{2000}' <= c && c <= '\u{200a}')
    ||| c == '\u{2028}'
    ||| c == '\u{2029}'
    ||| c == '\u{202f}'
    ||| c == '\u{205f}'
    ||| c == '\u{3000}'
}

pub open spec fn strips(c: char, k: Strip) -> bool {
    match k {
        Strip::Nul => c == '\0',
        Strip::Space => is_space(c),
        Strip::Newline => c == '\n',
        Strip::NulOrSpace => c == '\0' || is_space(c),
    }
}

/// `s` without the characters of kind `k` at its start.
pub open spec fn trim_start(s: Seq<char>, k: Strip) -> Seq<char>
    decreases s.len(),
{
    if s.len() > 0 && strips(s[0], k) {
        trim_start(s.drop_first(), k)
    } else {
        s
    }
}

/// `s` without the characters of kind `k` at its end.
pub open spec fn trim_end(s: Seq<char>, k: Strip) -> Seq<char>
    decreases s.len(),
{
    if s.len() > 0 && strips(s.last(), k) {
        trim_end(s.drop_last(), k)
    } else {
        s
    }
}

/// `s` without the characters of kind `k` at either end.
pub open spec fn trim(s: Seq<char>, k: Strip) -> Seq<char> {
    trim_end(trim_start(s, k), k)
}

/// `trim` of NULs, then of white space.
pub open spec fn clean(s: Seq<char>) -> Seq<char> {
    trim(trim(s, Strip::Nul), Strip::Space)
}

fn is_space_exec(c: char) -> (b: bool)
    ensures
        b == is_space(c),
{
    ('\t' <= c && c <= '\r') || c == ' ' || c == '\u{85}' || c == '\u{a0}' || c == '\u{1680}'
        || ('\u{2000}' <= c && c <= '\u{200a}') || c == '\u{2028}' || c == '\u{2029}'
        || c == '\u{202f}' || c == '\u{205f}' || c == '\u{3000}'
}

fn strips_exec(c: char, k: Strip) -> (b: bool)
    ensures
        b == strips(c, k),
{
    match k {
        Strip::Nul => c == '\0',
        Strip::Space => is_space_exec(c),
        Strip::Newline => c == '\n',
        Strip::NulOrSpace => c == '\0' || is_space_exec(c),
    }
}

/// Removes the characters of kind `k` at the start (when `start`) and at the end.
pub fn trimmed(s: &str, k: Strip, start: bool) -> (r: String)
    ensures
        r@ == if start { trim(s@, k) } else { trim_end(s@, k) },
{
    let len = s.unicode_len();
    let mut i: usize = 0;
    assert(s@.subrange(0, len as int) =~= s@);
    if start {
        while i < len && strips_exec(s.get_char(i), k)
            invariant
                i <= len == s@.len(),
                trim_start(s@, k) == trim_start(s@.subrange(i as int, len as int), k),
            decreases len - i,
        {
            assert(s@.subrange(i as int, len as int).drop_first() =~= s@.subrange(i + 1, len as int));
            i = i + 1;
        }
        assert(trim_start(s@, k) == s@.subrange(i as int, len as int));
    }
    let mut j: usize = len;
    while j > i && strips_exec(s.get_char(j - 1), k)
        invariant
            i <= j <= len == s@.len(),
            trim_end(s@.subrange(i as int, len as int), k) == trim_end(s@.subrange(i as int, j as int), k),
        decreases j,
    {
        assert(s@.subrange(i as int, j as int).drop_last() =~= s@.subrange(i as int, j - 1));
        j = j - 1;
    }
    let t = s.substring_char(i, j);
    String::from_str(t)
}

/// `clean(s)`: NULs, then white space, removed at both ends.
pub fn cleaned(s: &str) -> (r: String)
    ensures
        r@ == clean(s@),
{
    let a = trimmed(s, Strip::Nul, true);
    trimmed(a.as_str(), Strip::Space, true)
}

/// What `String::from_utf8` yields for `b`: the text, or nothing where `b` is
/// not UTF-8.
pub uninterp spec fn utf8_decode(b: Seq<u8>) -> Option<Seq<char>>;

/// What `String::from_utf8_lossy` yields for `b`.
pub uninterp spec fn utf8_lossy(b: Seq<u8>) -> Seq<char>;

/// ASCII bytes decode to the characters of the same codes.
pub open spec fn ascii_chars(b: Seq<u8>) -> Option<Seq<char>> {
    if forall|i: int| 0 <= i < b.len() ==> b[i] < 128 {
        Some(b.map_values(|x: u8| x as char))
    } else {
        None
    }
}

/// Relies on `String::from_utf8`: strict decoding, which keeps ASCII as it is.
#[verifier::external_body]
pub(crate) fn decode_utf8(b: &Vec<u8>) -> (r: Option<String>)
    ensures
        r.is_some() == utf8_decode(b@).is_some(),
        r.is_some() ==> r->Some_0@ == utf8_decode(b@)->Some_0,
        ascii_chars(b@).is_some() ==> r.is_some() && r->Some_0@ == ascii_chars(b@)->Some_0,
{
    String::from_utf8(b.clone()).ok()
}

/// Relies on `String::from_utf8_lossy`: invalid sequences become U+FFFD, ASCII
/// stays as it is.
#[verifier::external_body]
pub(crate) fn decode_utf8_lossy(b: &Vec<u8>) -> (r: String)
    ensures
        r@ == utf8_lossy(b@),
        ascii_chars(b@).is_some() ==> r@ == ascii_chars(b@)->Some_0,
{
    String::from_utf8_lossy(b).into_owned()
}

} // verus!
