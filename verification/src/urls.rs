//! Connection strings: what the URL and JDBC parsers say of them, and what the
//! loader reads from the answers.

use vstd::prelude::*;
use crate::text::str_eq;

verus! {

/// What the loader reads from a parsed URL.
#[derive(Debug, PartialEq, Eq)]
pub struct ParsedUrl {
    /// The decoded pairs of the query, in the order in which they are written.
    pub query_pairs: Vec<(String, String)>,
    /// The segments of the path; `None` where the URL has no path that
    /// starts with `/`.
    pub path_segments: Option<Vec<String>>,
}

/// The mathematical content of a [`ParsedUrl`].
pub struct ParsedUrlView {
    pub query_pairs: Seq<(Seq<char>, Seq<char>)>,
    pub path_segments: Option<Seq<Seq<char>>>,
}

/// The contents of a list of pairs of strings.
pub open spec fn pairs_view(s: Seq<(String, String)>) -> Seq<(Seq<char>, Seq<char>)> {
    s.map_values(|p: (String, String)| (p.0@, p.1@))
}

/// The contents of a list of strings.
pub open spec fn strings_view(s: Seq<String>) -> Seq<Seq<char>> {
    s.map_values(|t: String| t@)
}

impl View for ParsedUrl {
    type V = ParsedUrlView;

    open spec fn view(&self) -> ParsedUrlView {
        ParsedUrlView {
            query_pairs: pairs_view(self.query_pairs@),
            path_segments: match self.path_segments {
                Some(segments) => Some(strings_view(segments@)),
                None => None,
            },
        }
    }
}

/// The contents of a parsed URL or of the parser's complaint.
pub open spec fn parse_outcome(r: Result<ParsedUrl, String>) -> Result<ParsedUrlView, Seq<char>> {
    match r {
        Ok(parts) => Ok(parts@),
        Err(details) => Err(details@),
    }
}

/// The contents of a looked-up property or of the parser's complaint.
pub open spec fn lookup_outcome(r: Result<Option<String>, String>) -> Result<
    Option<Seq<char>>,
    Seq<char>,
> {
    match r {
        Ok(Some(value)) => Ok(Some(value@)),
        Ok(None) => Ok(None),
        Err(details) => Err(details@),
    }
}

/// The contents of an optional text.
pub open spec fn text_view(o: Option<String>) -> Option<Seq<char>> {
    match o {
        Some(text) => Some(text@),
        None => None,
    }
}

/// The complaint of `quaint::connector::ConnectionInfo::from_url` about
/// `url`: the text of its error, `None` where it accepts `url`.
pub uninterp spec fn connection_info_complaint(url: Seq<char>) -> Option<Seq<char>>;

/// What `url::Url::parse` makes of `input`: the query pairs and path segments
/// of the URL, or the text of the parse error.
pub uninterp spec fn url_parse(input: Seq<char>) -> Result<ParsedUrlView, Seq<char>>;

/// What `connection_string::JdbcString` holds under `key` after parsing
/// `input`, or the text of the parse error.
pub uninterp spec fn jdbc_property(input: Seq<char>, key: Seq<char>) -> Result<
    Option<Seq<char>>,
    Seq<char>,
>;

/// Calls `url::Url::parse` and reads `query_pairs` and `path_segments` from
/// the URL. Nothing is claimed of the answer but that it depends on `input`
/// alone; a failure carries the parse error's own text.
#[verifier::external_body]
pub(crate) fn parse_url(input: &str) -> (r: Result<ParsedUrl, String>)
    ensures
        parse_outcome(r) == url_parse(input@),
{
    match url::Url::parse(input) {
        Ok(url) => Ok(
            ParsedUrl {
                query_pairs: url.query_pairs().into_owned().collect(),
                path_segments: url.path_segments().map(|s| s.map(|p| p.to_owned()).collect()),
            },
        ),
        Err(e) => Err(e.to_string()),
    }
}

/// Calls `quaint::connector::ConnectionInfo::from_url`, which takes the URLs
/// of the backends that quaint is built for and refuses every other string.
/// Nothing is claimed of the answer but that it depends on `url` alone; a
/// refusal carries the error's own text.
///
/// That claim rests on how quaint is built here: for PostgreSQL only. Built
/// for SQLite as well, `from_url` asks the disk whether the path is a
/// directory, and the answer would depend on more than `url`. One answer
/// depends on the width of a pointer: `connection_limit` is read as a
/// `usize`, so a limit that needs more than 32 bits is taken where pointers
/// have 64 and refused where they have 32.
#[verifier::external_body]
pub(crate) fn connection_complaint(url: &str) -> (r: Option<String>)
    ensures
        text_view(r) == connection_info_complaint(url@),
{
    match quaint::connector::ConnectionInfo::from_url(url) {
        Ok(_) => None,
        Err(e) => Some(e.to_string()),
    }
}

/// Calls `JdbcString::from_str` of `connection_string` and reads one entry of
/// `properties`. Nothing is claimed of the answer but that it depends on
/// `input` and `key` alone; a failure carries the parse error's own text.
#[verifier::external_body]
pub(crate) fn jdbc_lookup(input: &str, key: &str) -> (r: Result<Option<String>, String>)
    ensures
        lookup_outcome(r) == jdbc_property(input@, key@),
{
    match input.parse::<connection_string::JdbcString>() {
        Ok(conn) => Ok(conn.properties().get(key).cloned()),
        Err(e) => Err(e.to_string()),
    }
}

/// The value of the last pair of `pairs` whose key is `key`: a later pair
/// overrides an earlier one.
pub open spec fn last_value(pairs: Seq<(Seq<char>, Seq<char>)>, key: Seq<char>) -> Option<
    Seq<char>,
>
    decreases pairs.len(),
{
    if pairs.len() == 0 {
        None
    } else if pairs.last().0 == key {
        Some(pairs.last().1)
    } else {
        last_value(pairs.drop_last(), key)
    }
}

/// `last_value` finds a pair exactly when some pair has the key, and then it
/// is the last such pair.
pub proof fn lemma_last_value(pairs: Seq<(Seq<char>, Seq<char>)>, key: Seq<char>)
    ensures
        last_value(pairs, key) is None <==> forall|i: int|
            0 <= i < pairs.len() ==> (#[trigger] pairs[i]).0 != key,
        last_value(pairs, key) matches Some(v) ==> exists|i: int|
            0 <= i < pairs.len() && #[trigger] pairs[i] == (key, v) && forall|j: int|
                i < j < pairs.len() ==> (#[trigger] pairs[j]).0 != key,
    decreases pairs.len(),
{
    if pairs.len() > 0 {
        let t = pairs.drop_last();
        if pairs.last().0 != key {
            lemma_last_value(t, key);
            assert forall|i: int| 0 <= i < t.len() implies t[i] == pairs[i] by {}
        }
    }
}

/// Looks `key` up in `pairs`, where a later pair overrides an earlier one.
pub fn lookup(pairs: &Vec<(String, String)>, key: &str) -> (r: Option<String>)
    ensures
        match r {
            Some(v) => last_value(pairs_view(pairs@), key@) == Some(v@),
            None => last_value(pairs_view(pairs@), key@) is None,
        },
{
    let ghost pv = pairs_view(pairs@);
    let mut i: usize = pairs.len();
    assert(pv.take(i as int) =~= pv);
    while i > 0
        invariant
            i <= pairs.len(),
            pv == pairs_view(pairs@),
            last_value(pv, key@) == last_value(pv.take(i as int), key@),
        decreases i,
    {
        assert(pv.take(i as int).drop_last() =~= pv.take(i - 1));
        if str_eq(pairs[i - 1].0.as_str(), key) {
            return Some(pairs[i - 1].1.clone());
        }
        i -= 1;
    }
    None
}

} // verus!
