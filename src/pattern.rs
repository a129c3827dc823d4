//! Compiled text patterns: the regular-expression engine the search relies on,
//! and the per-language heuristic that recognises a symbol's definition.
use crate::file_type::FileType;
use regex::Regex;
use vstd::prelude::*;

verus! {

#[verifier::external_type_specification]
#[verifier::external_body]
pub struct ExRegex(Regex);

#[verifier::external_type_specification]
#[verifier::external_body]
pub struct ExRegexError(regex::Error);

/// Whether the regex compiler accepts `pattern` (valid syntax, within the
/// default size limit).
pub uninterp spec fn regex_compiles(pattern: Seq<char>) -> bool;

/// The pattern that a compiled regex stands for, together with the options
/// it was built with. For a regex from `Regex::new` (default options, the
/// only way this crate builds one) it is the text that `Regex::as_str` hands
/// back; for one built through `RegexBuilder` with other options it is that
/// text with the options written in as inline flags (such as `(?i)`).
pub uninterp spec fn regex_source(re: Regex) -> Seq<char>;

/// Whether the regular expression written `pattern` matches somewhere in
/// `haystack`.
pub uninterp spec fn regex_finds(pattern: Seq<char>, haystack: Seq<char>) -> bool;

/// Relies on regex::Regex::new: it fails on an invalid or oversized pattern
/// and otherwise returns a regex that keeps `re` as its source text.
pub assume_specification[ Regex::new ](re: &str) -> (r: Result<Regex, regex::Error>)
    ensures
        r is Ok <==> regex_compiles(re@),
        r matches Ok(c) ==> regex_source(c) == re@,
;

/// Relies on regex::Regex::is_match: true if and only if the regex matches
/// anywhere in the haystack.
pub assume_specification[ Regex::is_match ](re: &Regex, haystack: &str) -> (r: bool)
    ensures
        r == regex_finds(regex_source(*re), haystack@),
;

/// The pattern that recognises a line defining `query` in a file of type `t`.
///
/// Each language lists the syntactic forms a definition can take, joined by
/// alternation, with word boundaries around the symbol so that it does not
/// match inside a longer identifier.
pub open spec fn query_pattern(query: Seq<char>, t: FileType) -> Seq<char> {
    match t {
        FileType::JS => r"(\b(function|var|let|const|class|interface|type)\s+"@ + query + r"\b|\b"@
            + query + r"\([^)]*\)\s*(:[^\{]+)?\{|\b"@ + query + r":|@typedef\s*(\{[^\}]+\})?\s*\b"@
            + query + r"\b)"@,
        FileType::PHP => r"\b(function|class|trait|interface|enum) "@ + query + r"\b"@,
    }
}

/// Builds the text of [query_pattern].
pub fn query_pattern_text(query: &str, file_type: FileType) -> (r: String)
    ensures
        r@ == query_pattern(query@, file_type),
{
    match file_type {
        FileType::JS => {
            let mut s = String::from_str(r"(\b(function|var|let|const|class|interface|type)\s+");
            s.append(query);
            s.append(r"\b|\b");
            s.append(query);
            s.append(r"\([^)]*\)\s*(:[^\{]+)?\{|\b");
            s.append(query);
            s.append(r":|@typedef\s*(\{[^\}]+\})?\s*\b");
            s.append(query);
            s.append(r"\b)");
            s
        },
        FileType::PHP => {
            let mut s = String::from_str(r"\b(function|class|trait|interface|enum) ");
            s.append(query);
            s.append(r"\b");
            s
        },
    }
}

/// Compiles the definition pattern for `query` in files of type `file_type`.
///
/// Fails where the query holds characters that make the pattern malformed.
pub fn get_regexp_for_query(query: &str, file_type: FileType) -> (r: Result<Regex, regex::Error>)
    ensures
        r is Ok <==> regex_compiles(query_pattern(query@, file_type)),
        r matches Ok(re) ==> regex_source(re) == query_pattern(query@, file_type),
{
    let text = query_pattern_text(query, file_type);
    Regex::new(text.as_str())
}

} // verus!
