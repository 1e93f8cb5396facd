//! URLs, taken apart and put together with `reqwest::Url`.
//!
//! A URL is kept as its text, which is parsed where it is needed.

use vstd::prelude::*;

verus! {

/// What `Url::parse` makes of a text: the serialisation of the URL, or the text of the
/// error that it reports.
pub uninterp spec fn parsed_url(text: Seq<char>) -> Result<Seq<char>, Seq<char>>;

/// What `Url::path` gives of the URL that `Url::parse` makes of a text; none where the
/// text is no URL.
pub uninterp spec fn url_path(text: Seq<char>) -> Option<Seq<char>>;

/// The serialisation of the URL that `Url::parse` makes of a text, after `Url::set_path`;
/// none where the text is no URL.
pub uninterp spec fn url_with_path(text: Seq<char>, path: Seq<char>) -> Option<Seq<char>>;

/// Whether `Url::set_path` can write a byte of a path as three: a percent sign and two
/// digits. It writes no other byte as more than one.
pub open spec fn is_encoded_in_paths(byte: u8) -> bool {
    byte <= 0x20 || byte >= 0x7f || byte == 0x22 || byte == 0x23 || byte == 0x3c || byte == 0x3e
        || byte == 0x3f || byte == 0x60 || byte == 0x7b || byte == 0x7d
}

/// How many bytes a path can take once it is encoded, with nothing taken out of it.
pub open spec fn encoded_len(bytes: Seq<u8>) -> nat
    decreases bytes.len(),
{
    if bytes.len() == 0 {
        0
    } else {
        encoded_len(bytes.drop_last()) + (if is_encoded_in_paths(bytes.last()) {
            3nat
        } else {
            1nat
        })
    }
}

/// A URL keeps its positions in 32 bits: the URL with this serialisation is short enough
/// with this path in it. A few bytes are left for the slashes that a path gets.
pub open spec fn url_fits(serialised: Seq<char>, path: Seq<char>) -> bool {
    vstd::utf8::encode_utf8(serialised).len() + encoded_len(vstd::utf8::encode_utf8(path)) + 16
        <= u32::MAX
}

/// `Url::parse`: a function of the text alone, the displayed error with it.
#[verifier::external_body]
pub(crate) fn parse_url(text: &str) -> (serialised: Result<String, String>)
    ensures
        crate::outcome::of(serialised) == parsed_url(text@),
{
    reqwest::Url::parse(text).map(|url| url.to_string()).map_err(|error| error.to_string())
}

/// `Url::path` of what `Url::parse` makes of the text: a function of the text alone. There
/// is a path exactly where the text is a URL.
#[verifier::external_body]
pub(crate) fn path_of(text: &str) -> (path: Option<String>)
    ensures
        path.deep_view() == url_path(text@),
        path is Some == parsed_url(text@) is Ok,
{
    reqwest::Url::parse(text).ok().map(|url| url.path().to_string())
}

/// `Url::set_path` on what `Url::parse` makes of the text: a function of the text and the
/// path. There is such a URL exactly where the text is one. `Url::set_path` panics where
/// the new URL would take more than 32 bits of positions; how long it is shows only in the
/// result, from which dot segments, tabs and line ends are gone.
#[verifier::external_body]
pub(crate) fn with_path(text: &str, path: &str) -> (changed: Option<String>)
    requires
        parsed_url(text@) matches Ok(serialised) ==> url_fits(serialised, path@),
    ensures
        changed.deep_view() == url_with_path(text@, path@),
        changed is Some == parsed_url(text@) is Ok,
{
    let mut url = reqwest::Url::parse(text).ok()?;
    url.set_path(path);
    Some(url.to_string())
}

/// How many bytes a path can take once it is encoded, with nothing taken out of it.
fn path_len(path: &str) -> (len: u128)
    ensures
        len == encoded_len(vstd::utf8::encode_utf8(path@)),
        len <= 3 * usize::MAX,
{
    let bytes = path.as_bytes();
    let mut len: u128 = 0;
    let mut i: usize = 0;
    while i < bytes.len()
        invariant
            i <= bytes.len(),
            bytes@ == vstd::utf8::encode_utf8(path@),
            len == encoded_len(bytes@.take(i as int)),
            len <= 3 * i,
        decreases bytes.len() - i,
    {
        let byte: u8 = bytes[i];
        proof {
            assert(bytes@.take(i + 1).drop_last() =~= bytes@.take(i as int));
        }
        let grows: bool = byte <= 0x20 || byte >= 0x7f || byte == 0x22 || byte == 0x23
            || byte == 0x3c || byte == 0x3e || byte == 0x3f || byte == 0x60 || byte == 0x7b
            || byte == 0x7d;
        len = len + if grows {
            3
        } else {
            1
        };
        i = i + 1;
    }
    proof {
        assert(bytes@.take(i as int) =~= bytes@);
    }
    len
}

/// Tells whether the URL with this serialisation is short enough with this path in it.
pub(crate) fn fits_in_url(serialised: &str, path: &str) -> (fits: bool)
    ensures
        fits == url_fits(serialised@, path@),
{
    let own: usize = serialised.as_bytes().len();
    own as u128 + path_len(path) + 16 <= u32::MAX as u128
}

} // verus!
