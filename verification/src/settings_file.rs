//! The INI document in which the settings are kept.
//!
//! `rust-ini` reads and writes the document. What a document holds is taken as
//! a map from section and key to value: where a name occurs more than once,
//! the first section of that name and the first value of the key count.
use crate::text;
use vstd::prelude::*;
use vstd::string::*;

verus! {

/// A document of `rust-ini`.
#[verifier::external_type_specification]
#[verifier::external_body]
pub struct ExIni(ini::Ini);

/// Why `rust-ini` could not parse a text.
#[verifier::external_type_specification]
#[verifier::external_body]
pub struct ExParseError(ini::ParseError);

/// The values of a document, by section and key. Values outside any section
/// are left out.
pub uninterp spec fn ini_entries(document: ini::Ini) -> Map<(Seq<char>, Seq<char>), Seq<char>>;

/// Whether a document is plain: every section name, key and value in it is, also
/// those that an earlier one hides, and there are no values outside any section.
pub uninterp spec fn ini_plain(document: ini::Ini) -> bool;

/// The values that a text holds, by section and key; `None` where it is no
/// INI document.
pub uninterp spec fn parsed_ini(s: Seq<char>) -> Option<
    Map<(Seq<char>, Seq<char>), Seq<char>>,
>;

/// Whether `s` is made of ASCII letters, digits and underscores, at least one.
pub open spec fn plain(s: Seq<char>) -> bool {
    s.len() > 0 && forall|i: int|
        0 <= i < s.len() ==> {
            let c = #[trigger] s[i];
            'a' <= c <= 'z' || 'A' <= c <= 'Z' || '0' <= c <= '9' || c == '_'
        }
}

/// No value at all.
pub open spec fn no_values() -> Map<(Seq<char>, Seq<char>), Seq<char>> {
    Map::empty()
}

/// `ini::Ini::new` makes a document without values.
#[verifier::external_body]
pub(crate) fn empty_document() -> (document: ini::Ini)
    ensures
        ini_entries(document) == no_values(),
        ini_plain(document),
{
    ini::Ini::new()
}

/// `ini::Ini::set_to` puts a value under a key in the first section of that
/// name, which it adds where there is none, in place of any value that the key
/// had there.
#[verifier::external_body]
pub(crate) fn set_value(document: &mut ini::Ini, section: &str, key: &str, value: &str)
    ensures
        ini_entries(*final(document)) == ini_entries(*old(document)).insert(
            (section@, key@),
            value@,
        ),
        ini_plain(*old(document)) && plain(section@) && plain(key@) && plain(value@) ==> ini_plain(
            *final(document),
        ),
{
    document.set_to(Some(section), key.to_string(), value.to_string());
}

/// `ini::Ini::get_from` gives the first value of the key in the first section
/// of that name.
#[verifier::external_body]
pub(crate) fn value_at<'a>(document: &'a ini::Ini, section: &str, key: &str) -> (value: Option<
    &'a str,
>)
    ensures
        value is Some <==> ini_entries(*document).dom().contains((section@, key@)),
        value matches Some(v) ==> v@ == ini_entries(*document)[(section@, key@)],
{
    document.get_from(Some(section), key)
}

/// `ini::Ini::load_from_str` parses a text. Whether it succeeds, and what the
/// document then holds, depends on the text alone.
#[verifier::external_body]
fn parse_document(s: &str) -> (document: Result<ini::Ini, ini::ParseError>)
    ensures
        document is Ok <==> parsed_ini(s@) is Some,
        document matches Ok(d) ==> parsed_ini(s@) == Some(ini_entries(d)),
{
    ini::Ini::load_from_str(s)
}

/// `ini::Ini::write_to` writes a document out. In one that is plain nothing has
/// to be escaped: the text is ASCII, and parsing it gives the same values back.
/// The text itself is not stated: its line ends are those of the system.
#[verifier::external_body]
pub(crate) fn document_text(document: &ini::Ini) -> (s: String)
    requires
        ini_plain(*document),
    ensures
        parsed_ini(s@) == Some(ini_entries(*document)),
        text::all_ascii(s@),
{
    let mut bytes: Vec<u8> = Vec::new();
    let _ = document.write_to(&mut bytes);
    String::from_utf8_lossy(&bytes).into_owned()
}

/// `s` without the byte order mark that it may begin with.
pub open spec fn without_mark(s: Seq<char>) -> Seq<char> {
    if s.len() > 0 && s[0] == '\u{feff}' {
        s.skip(1)
    } else {
        s
    }
}

/// The document that the text of a settings file holds. A byte order mark in
/// front is passed over.
pub fn read_document(s: &str) -> (document: Option<ini::Ini>)
    ensures
        document is Some <==> parsed_ini(without_mark(s@)) is Some,
        document matches Some(d) ==> parsed_ini(without_mark(s@)) == Some(ini_entries(d)),
{
    let len: usize = s.unicode_len();
    let body = if len > 0 && s.get_char(0) == '\u{feff}' {
        s.substring_char(1, len)
    } else {
        s
    };
    proof {
        assert(body@ == without_mark(s@));
    }
    match parse_document(body) {
        Ok(document) => Some(document),
        Err(_) => None,
    }
}

} // verus!
