//! What the scan of one file yields under each pre-scan, and what holds of it.
//!
//! A file is seen three ways by the two phases: as one text (`None` where it
//! is not valid text), as bytes read in chunks, and as lines.
use crate::prescan::{occurs_at, occurs_in, whole_text_may_match};
use crate::scan::{line_results, result_for_line, ResultModel};
use crate::searcher::SearchMethod;
use vstd::prelude::*;
use vstd::utf8::encode_utf8;

verus! {

/// Whether the pre-scan of `method` lets the line pass run on a file.
pub open spec fn prescan_accepts(
    method: SearchMethod,
    pattern: Seq<char>,
    needle: Seq<u8>,
    text: Option<Seq<char>>,
    bytes: Seq<u8>,
) -> bool {
    match method {
        SearchMethod::PrescanRegex => whole_text_may_match(pattern, text),
        SearchMethod::PrescanMemmem => occurs_in(bytes, needle),
        SearchMethod::NoPrescan => true,
    }
}

/// The results of one file: those of the line pass where the pre-scan lets
/// it run, and none otherwise.
pub open spec fn file_results(
    method: SearchMethod,
    pattern: Seq<char>,
    needle: Seq<u8>,
    path: Seq<char>,
    numbered: bool,
    text: Option<Seq<char>>,
    bytes: Seq<u8>,
    lines: Seq<Option<Seq<char>>>,
) -> Seq<ResultModel> {
    if prescan_accepts(method, pattern, needle, text, bytes) {
        line_results(pattern, path, lines, numbered)
    } else {
        Seq::empty()
    }
}

/// A line that the pattern matches is reported by the line pass, with its
/// 1-based number (when numbers are asked for) and its trimmed text.
pub proof fn lemma_matching_line_reported(
    pattern: Seq<char>,
    path: Seq<char>,
    lines: Seq<Option<Seq<char>>>,
    numbered: bool,
    i: int,
)
    requires
        0 <= i < lines.len(),
        lines[i] is Some,
        crate::pattern::regex_finds(pattern, lines[i]->Some_0),
    ensures
        line_results(pattern, path, lines, numbered).contains(
            result_for_line(path, (i + 1) as nat, lines[i]->Some_0, numbered),
        ),
    decreases lines.len(),
{
    let before = line_results(pattern, path, lines.drop_last(), numbered);
    if i == lines.len() - 1 {
        let all = line_results(pattern, path, lines, numbered);
        assert(all == before.push(
            result_for_line(path, lines.len(), lines[i]->Some_0, numbered),
        ));
        assert(all[all.len() - 1] == result_for_line(path, (i + 1) as nat, lines[i]->Some_0, numbered));
    } else {
        lemma_matching_line_reported(pattern, path, lines.drop_last(), numbered, i);
        let r = result_for_line(path, (i + 1) as nat, lines[i]->Some_0, numbered);
        let k = choose|k: int| 0 <= k < before.len() && before[k] == r;
        let all = line_results(pattern, path, lines, numbered);
        assert(all[k] == r);
    }
}

/// The scan of a file reports each line that the pattern matches, under
/// every pre-scan that lets the file through (always so without one).
pub proof fn lemma_matching_line_in_file_results(
    method: SearchMethod,
    pattern: Seq<char>,
    needle: Seq<u8>,
    path: Seq<char>,
    numbered: bool,
    text: Option<Seq<char>>,
    bytes: Seq<u8>,
    lines: Seq<Option<Seq<char>>>,
    i: int,
)
    requires
        prescan_accepts(method, pattern, needle, text, bytes),
        0 <= i < lines.len(),
        lines[i] is Some,
        crate::pattern::regex_finds(pattern, lines[i]->Some_0),
    ensures
        file_results(method, pattern, needle, path, numbered, text, bytes, lines).contains(
            result_for_line(path, (i + 1) as nat, lines[i]->Some_0, numbered),
        ),
{
    lemma_matching_line_reported(pattern, path, lines, numbered, i);
}

/// The pre-scan only filters and never changes what is found: on a file that
/// has no matching line, or that both pre-scans let through, the three
/// methods give the same results.
pub proof fn lemma_prescan_does_not_change_results(
    pattern: Seq<char>,
    needle: Seq<u8>,
    path: Seq<char>,
    numbered: bool,
    text: Option<Seq<char>>,
    bytes: Seq<u8>,
    lines: Seq<Option<Seq<char>>>,
)
    requires
        line_results(pattern, path, lines, numbered).len() > 0 ==> {
            &&& whole_text_may_match(pattern, text)
            &&& occurs_in(bytes, needle)
        },
    ensures
        forall|m1: SearchMethod, m2: SearchMethod|
            file_results(m1, pattern, needle, path, numbered, text, bytes, lines) == file_results(
                m2,
                pattern,
                needle,
                path,
                numbered,
                text,
                bytes,
                lines,
            ),
{
    assert forall|m: SearchMethod|
        file_results(m, pattern, needle, path, numbered, text, bytes, lines) == line_results(
            pattern,
            path,
            lines,
            numbered,
        ) by {
        if line_results(pattern, path, lines, numbered).len() == 0 {
            assert(line_results(pattern, path, lines, numbered) =~= Seq::<ResultModel>::empty());
        }
    }
}

/// `needle` occurs in `hay`, as characters.
pub open spec fn contains_text(hay: Seq<char>, needle: Seq<char>) -> bool {
    exists|i: int|
        0 <= i && i + needle.len() <= hay.len() && #[trigger] hay.subrange(i, i + needle.len())
            == needle
}

/// The UTF-8 encoding of a concatenation is the concatenation of the
/// encodings.
pub proof fn lemma_encode_concat(a: Seq<char>, b: Seq<char>)
    ensures
        encode_utf8(a + b) == encode_utf8(a) + encode_utf8(b),
    decreases a.len(),
{
    if a.len() == 0 {
        assert(a + b =~= b);
        assert(encode_utf8(a) =~= Seq::<u8>::empty());
        assert(encode_utf8(a) + encode_utf8(b) =~= encode_utf8(b));
    } else {
        assert((a + b).drop_first() =~= a.drop_first() + b);
        assert((a + b)[0] == a[0]);
        lemma_encode_concat(a.drop_first(), b);
        assert(encode_utf8(a + b) =~= encode_utf8(a) + encode_utf8(b));
    }
}

/// Text that occurs in `hay` occurs in its UTF-8 encoding as bytes.
pub proof fn lemma_text_occurs_in_encoding(hay: Seq<char>, needle: Seq<char>)
    requires
        contains_text(hay, needle),
    ensures
        occurs_in(encode_utf8(hay), encode_utf8(needle)),
{
    let i = choose|i: int|
        0 <= i && i + needle.len() <= hay.len() && #[trigger] hay.subrange(i, i + needle.len())
            == needle;
    let before = hay.subrange(0, i);
    let after = hay.subrange(i + needle.len(), hay.len() as int);
    assert(hay =~= before + needle + after);
    lemma_encode_concat(before + needle, after);
    lemma_encode_concat(before, needle);
    let e = encode_utf8(hay);
    let n = encode_utf8(needle);
    let at = encode_utf8(before).len() as int;
    assert(e =~= encode_utf8(before) + n + encode_utf8(after));
    assert(e.subrange(at, at + n.len()) =~= n);
    assert(occurs_at(e, n, at));
}

/// Text found inside text found in `hay` is found in `hay`.
proof fn lemma_contains_text_transitive(hay: Seq<char>, mid: Seq<char>, needle: Seq<char>)
    requires
        contains_text(hay, mid),
        contains_text(mid, needle),
    ensures
        contains_text(hay, needle),
{
    let i = choose|i: int|
        0 <= i && i + mid.len() <= hay.len() && #[trigger] hay.subrange(i, i + mid.len()) == mid;
    let j = choose|j: int|
        0 <= j && j + needle.len() <= mid.len() && #[trigger] mid.subrange(j, j + needle.len())
            == needle;
    assert(hay.subrange(i + j, i + j + needle.len()) =~= needle);
}

/// A line pass that reports something met a line that the pattern matches.
proof fn lemma_result_has_matching_line(
    pattern: Seq<char>,
    path: Seq<char>,
    lines: Seq<Option<Seq<char>>>,
    numbered: bool,
) -> (k: int)
    requires
        line_results(pattern, path, lines, numbered).len() > 0,
    ensures
        0 <= k < lines.len(),
        lines[k] is Some,
        crate::pattern::regex_finds(pattern, lines[k]->Some_0),
    decreases lines.len(),
{
    let last = lines.len() - 1;
    match lines.last() {
        Some(t) => if crate::pattern::regex_finds(pattern, t) {
            last
        } else {
            lemma_result_has_matching_line(pattern, path, lines.drop_last(), numbered)
        },
        None => lemma_result_has_matching_line(pattern, path, lines.drop_last(), numbered),
    }
}

/// On a file read as text (its bytes being that text's UTF-8 encoding, and
/// each line a piece of it), the three methods give the same results,
/// provided each line the pattern matches holds the query's text and the
/// pattern also matches the whole text.
pub proof fn lemma_methods_agree_on_text_file(
    pattern: Seq<char>,
    query: Seq<char>,
    path: Seq<char>,
    numbered: bool,
    text: Seq<char>,
    lines: Seq<Option<Seq<char>>>,
)
    requires
        query.len() > 0,
        forall|k: int|
            0 <= k < lines.len() && #[trigger] lines[k] is Some ==> contains_text(
                text,
                lines[k]->Some_0,
            ),
        forall|k: int|
            0 <= k < lines.len() && #[trigger] lines[k] is Some && crate::pattern::regex_finds(
                pattern,
                lines[k]->Some_0,
            ) ==> contains_text(lines[k]->Some_0, query) && crate::pattern::regex_finds(
                pattern,
                text,
            ),
    ensures
        forall|m1: SearchMethod, m2: SearchMethod|
            file_results(m1, pattern, encode_utf8(query), path, numbered, Some(text), encode_utf8(text), lines)
                == file_results(
                m2,
                pattern,
                encode_utf8(query),
                path,
                numbered,
                Some(text),
                encode_utf8(text),
                lines,
            ),
{
    if line_results(pattern, path, lines, numbered).len() > 0 {
        let k = lemma_result_has_matching_line(pattern, path, lines, numbered);
        let line = lines[k]->Some_0;
        lemma_contains_text_transitive(text, line, query);
        lemma_text_occurs_in_encoding(text, query);
    }
    lemma_prescan_does_not_change_results(
        pattern,
        encode_utf8(query),
        path,
        numbered,
        Some(text),
        encode_utf8(text),
        lines,
    );
}

/// A file in which the query's bytes do not occur gives no result under
/// the chunked literal pre-scan.
pub proof fn lemma_absent_query_gives_nothing(
    pattern: Seq<char>,
    needle: Seq<u8>,
    path: Seq<char>,
    numbered: bool,
    text: Option<Seq<char>>,
    bytes: Seq<u8>,
    lines: Seq<Option<Seq<char>>>,
)
    requires
        !occurs_in(bytes, needle),
    ensures
        file_results(SearchMethod::PrescanMemmem, pattern, needle, path, numbered, text, bytes, lines)
            == Seq::<ResultModel>::empty(),
{
}

} // verus!
