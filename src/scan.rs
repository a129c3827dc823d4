//! The precise pass over one file's lines, the results it produces, how a
//! result is shown, and the collection that gathers results across files.
use crate::pattern::{regex_finds, regex_source};
use colored::Colorize;
use regex::Regex;
use vstd::prelude::*;

verus! {

/// A definition found by the search.
///
/// `line_number` is set only when line numbers were asked for.
#[derive(Debug, PartialEq, Clone)]
pub struct SearchResult {
    /// The path of the file holding the definition.
    pub file_path: String,
    /// The 1-based number of the line holding the definition.
    pub line_number: Option<usize>,
    /// The definition's line, without surrounding whitespace.
    pub text: String,
}

/// What a [SearchResult] holds, as plain values.
pub struct ResultModel {
    pub file_path: Seq<char>,
    pub line_number: Option<nat>,
    pub text: Seq<char>,
}

impl View for SearchResult {
    type V = ResultModel;

    open spec fn view(&self) -> ResultModel {
        ResultModel {
            file_path: self.file_path@,
            line_number: match self.line_number {
                Some(n) => Some(n as nat),
                None => None,
            },
            text: self.text@,
        }
    }
}

/// The models of a sequence of results.
pub open spec fn result_views(v: Seq<SearchResult>) -> Seq<ResultModel> {
    v.map_values(|r: SearchResult| r@)
}

/// A file's lines as text; `None` stands for a line that is not valid text.
pub open spec fn text_lines(v: Seq<Option<String>>) -> Seq<Option<Seq<char>>> {
    v.map_values(
        |l: Option<String>|
            match l {
                Some(s) => Some(s@),
                None => None,
            },
    )
}

/// Whether `c` has the Unicode `White_Space` property.
pub open spec fn is_white_space(c: char) -> bool {
    let u = c as u32;
    ||| 0x09 <= u <= 0x0D
    ||| u == 0x20
    ||| u == 0x85
    ||| u == 0xA0
    ||| u == 0x1680
    ||| 0x2000 <= u <= 0x200A
    ||| u == 0x2028
    ||| u == 0x2029
    ||| u == 0x202F
    ||| u == 0x205F
    ||| u == 0x3000
}

/// `s` without its leading whitespace.
pub open spec fn trim_start_ws(s: Seq<char>) -> Seq<char>
    decreases s.len(),
{
    if s.len() > 0 && is_white_space(s[0]) {
        trim_start_ws(s.drop_first())
    } else {
        s
    }
}

/// `s` without its trailing whitespace.
pub open spec fn trim_end_ws(s: Seq<char>) -> Seq<char>
    decreases s.len(),
{
    if s.len() > 0 && is_white_space(s.last()) {
        trim_end_ws(s.drop_last())
    } else {
        s
    }
}

/// `s` without its leading and trailing whitespace.
pub open spec fn trimmed(s: Seq<char>) -> Seq<char> {
    trim_end_ws(trim_start_ws(s))
}

/// Relies on str::trim: the text without the leading and trailing characters
/// for which `char::is_whitespace` holds (the `White_Space` property).
#[verifier::external_body]
fn trim_text(s: &str) -> (r: String)
    ensures
        r@ == trimmed(s@),
{
    s.trim().to_string()
}

/// The result for line number `number` (1-based) holding `line`.
pub open spec fn result_for_line(
    path: Seq<char>,
    number: nat,
    line: Seq<char>,
    numbered: bool,
) -> ResultModel {
    ResultModel {
        file_path: path,
        line_number: if numbered {
            Some(number)
        } else {
            None
        },
        text: trimmed(line),
    }
}

/// The results of the line pass with the line pattern `pattern`: one per
/// line that it matches, in line order. Lines that are not valid text never
/// match.
pub open spec fn line_results(
    pattern: Seq<char>,
    path: Seq<char>,
    lines: Seq<Option<Seq<char>>>,
    numbered: bool,
) -> Seq<ResultModel>
    decreases lines.len(),
{
    if lines.len() == 0 {
        Seq::empty()
    } else {
        let before = line_results(pattern, path, lines.drop_last(), numbered);
        match lines.last() {
            Some(t) => if regex_finds(pattern, t) {
                before.push(result_for_line(path, lines.len(), t, numbered))
            } else {
                before
            },
            None => before,
        }
    }
}

/// The line pass over one file: every line that `re` matches gives one
/// result, with the line's 1-based number when `line_number` is set and the
/// line's text trimmed.
pub fn search_file_line_by_line(
    re: &Regex,
    file_path: &str,
    lines: &Vec<Option<String>>,
    line_number: bool,
) -> (r: Vec<SearchResult>)
    ensures
        result_views(r@) == line_results(
            regex_source(*re),
            file_path@,
            text_lines(lines@),
            line_number,
        ),
{
    let ghost all = text_lines(lines@);
    let mut results: Vec<SearchResult> = Vec::new();
    let mut i: usize = 0;
    while i < lines.len()
        invariant
            i <= lines@.len(),
            all == text_lines(lines@),
            result_views(results@) == line_results(
                regex_source(*re),
                file_path@,
                all.subrange(0, i as int),
                line_number,
            ),
        decreases lines@.len() - i,
    {
        let ghost before = results@;
        let ghost prefix = all.subrange(0, i as int + 1);
        assert(prefix.drop_last() == all.subrange(0, i as int));
        match &lines[i] {
            Some(t) => {
                if re.is_match(t.as_str()) {
                    let r = SearchResult {
                        file_path: String::from_str(file_path),
                        line_number: if line_number {
                            Some(i + 1)
                        } else {
                            None
                        },
                        text: trim_text(t.as_str()),
                    };
                    results.push(r);
                    assert(result_views(results@) == result_views(before).push(r@));
                }
            },
            None => {},
        }
        i += 1;
    }
    assert(all.subrange(0, lines@.len() as int) == all);
    results
}

/// The decimal digits of `n`, without sign or leading zeros.
pub open spec fn decimal(n: nat) -> Seq<char>
    decreases n,
{
    if n < 10 {
        seq![digit_char(n)]
    } else {
        decimal(n / 10).push(digit_char(n % 10))
    }
}

/// The character of the decimal digit `d`.
pub open spec fn digit_char(d: nat) -> char {
    if d == 0 {
        '0'
    } else if d == 1 {
        '1'
    } else if d == 2 {
        '2'
    } else if d == 3 {
        '3'
    } else if d == 4 {
        '4'
    } else if d == 5 {
        '5'
    } else if d == 6 {
        '6'
    } else if d == 7 {
        '7'
    } else if d == 8 {
        '8'
    } else {
        '9'
    }
}

/// The terminal escape that ends a colour.
pub open spec fn ansi_reset() -> Seq<char> {
    seq!['\x1B', '[', '0', 'm']
}

/// The terminal escape that starts the foreground colour `code`.
pub open spec fn ansi_color(code: Seq<char>) -> Seq<char> {
    seq!['\x1B', '['] + code + seq!['m']
}

/// The colour code of magenta, used for paths.
pub open spec fn magenta_code() -> Seq<char> {
    seq!['3', '5']
}

/// The colour code of green, used for line numbers.
pub open spec fn green_code() -> Seq<char> {
    seq!['3', '2']
}

/// `plain` with the escape `style` inserted after each colour reset in it,
/// so that the colour starts again after a nested reset.
pub open spec fn escape_resets(plain: Seq<char>, style: Seq<char>) -> Seq<char>
    decreases plain.len(),
{
    if plain.len() == 0 {
        Seq::empty()
    } else if plain.len() >= 4 && plain.subrange(0, 4) == ansi_reset() {
        ansi_reset() + style + escape_resets(plain.subrange(4, plain.len() as int), style)
    } else {
        seq![plain[0]] + escape_resets(plain.drop_first(), style)
    }
}

/// `shown` is `plain` as a terminal shows it in colour `code`: unchanged
/// where colour is off, else wrapped in the colour's escapes, with the
/// colour restarted after each reset inside `plain`.
pub open spec fn painted(shown: Seq<char>, plain: Seq<char>, code: Seq<char>) -> bool {
    ||| shown == plain
    ||| shown == ansi_color(code) + escape_resets(plain, ansi_color(code)) + ansi_reset()
}

/// A result line in grep's format: `path:text`, or `path:number:text`.
pub open spec fn grep_line(path: Seq<char>, number: Option<Seq<char>>, text: Seq<char>) -> Seq<
    char,
> {
    match number {
        Some(n) => path + seq![':'] + n + seq![':'] + text,
        None => path + seq![':'] + text,
    }
}

/// The text of the decimal digit `d`.
fn digit_text(d: usize) -> (r: &'static str)
    requires
        d < 10,
    ensures
        r@ == seq![digit_char(d as nat)],
{
    proof {
        reveal_strlit("0");
        reveal_strlit("1");
        reveal_strlit("2");
        reveal_strlit("3");
        reveal_strlit("4");
        reveal_strlit("5");
        reveal_strlit("6");
        reveal_strlit("7");
        reveal_strlit("8");
        reveal_strlit("9");
    }
    if d == 0 {
        "0"
    } else if d == 1 {
        "1"
    } else if d == 2 {
        "2"
    } else if d == 3 {
        "3"
    } else if d == 4 {
        "4"
    } else if d == 5 {
        "5"
    } else if d == 6 {
        "6"
    } else if d == 7 {
        "7"
    } else if d == 8 {
        "8"
    } else {
        "9"
    }
}

/// The decimal digits of `n`, without sign or leading zeros.
pub fn decimal_text(n: usize) -> (r: String)
    ensures
        r@ == decimal(n as nat),
    decreases n,
{
    if n < 10 {
        String::from_str(digit_text(n))
    } else {
        let mut s = decimal_text(n / 10);
        s.append(digit_text(n % 10));
        s
    }
}

/// Relies on colored's `Colorize::magenta` and the `Display` of the
/// `ColoredString` it returns: the text, in magenta when colour is on.
#[verifier::external_body]
fn paint_magenta(s: &str) -> (r: String)
    ensures
        painted(r@, s@, magenta_code()),
{
    s.magenta().to_string()
}

/// Relies on colored's `Colorize::green` and the `Display` of the
/// `ColoredString` it returns: the text, in green when colour is on.
#[verifier::external_body]
fn paint_green(s: &str) -> (r: String)
    ensures
        painted(r@, s@, green_code()),
{
    s.green().to_string()
}

/// Joins the parts of a result line, already coloured, in grep's format.
pub fn format_grep(path: &str, number: Option<&str>, text: &str) -> (r: String)
    ensures
        r@ == grep_line(
            path@,
            match number {
                Some(n) => Some(n@),
                None => None,
            },
            text@,
        ),
{
    let mut s = String::from_str(path);
    s.append(":");
    proof {
        reveal_strlit(":");
    }
    match number {
        Some(n) => {
            s.append(n);
            s.append(":");
        },
        None => {},
    }
    s.append(text);
    s
}

impl SearchResult {
    /// The result in grep's format: `path:text`, or `path:number:text` when
    /// it has a line number; the path is magenta and the number green when
    /// the terminal shows colour.
    pub fn to_grep(&self) -> (r: String)
        ensures
            exists|p: Seq<char>|
                #![trigger painted(p, self.file_path@, magenta_code())]
                painted(p, self.file_path@, magenta_code()) && match self.line_number {
                    Some(n) => exists|g: Seq<char>|
                        #![trigger painted(g, decimal(n as nat), green_code())]
                        painted(g, decimal(n as nat), green_code()) && r@ == grep_line(
                            p,
                            Some(g),
                            self.text@,
                        ),
                    None => r@ == grep_line(p, None, self.text@),
                },
    {
        let path = paint_magenta(self.file_path.as_str());
        match self.line_number {
            Some(n) => {
                let digits = decimal_text(n);
                let number = paint_green(digits.as_str());
                format_grep(path.as_str(), Some(number.as_str()), self.text.as_str())
            },
            None => format_grep(path.as_str(), None, self.text.as_str()),
        }
    }
}

} // verus!
