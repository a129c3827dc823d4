//! The supported languages: how each is named, and which file paths belong
//! to it.
use crate::pattern::{regex_compiles, regex_finds, regex_source};
use regex::Regex;
use vstd::prelude::*;

verus! {

/// The supported file types to search.
#[derive(Clone, Copy, Debug, PartialEq, Eq, Structural)]
pub enum FileType {
    /// JavaScript and TypeScript, with or without JSX.
    JS,
    /// PHP.
    PHP,
}

/// The file type that a name given by the user stands for, with its aliases.
pub open spec fn file_type_named(name: Seq<char>) -> Option<FileType> {
    if name == "js"@ || name == "ts"@ || name == "jsx"@ || name == "tsx"@ || name == "javascript"@
        || name == "javascript.jsx"@ || name == "javascriptreact"@ || name == "typescript"@
        || name == "typescript.tsx"@ || name == "typescriptreact"@ {
        Some(FileType::JS)
    } else if name == "php"@ {
        Some(FileType::PHP)
    } else {
        None
    }
}

/// Whether `s` holds exactly the text `name`.
fn is_named(s: &String, name: &str) -> (r: bool)
    ensures
        r == (s@ == name@),
{
    let n = String::from_str(name);
    s.eq(&n)
}

impl FileType {
    /// Turns a name into a [FileType]; also accepts editor aliases such as
    /// `javascript`, `javascriptreact` or `typescript.tsx`.
    pub fn from_string(file_type_string: String) -> (r: Result<FileType, &'static str>)
        ensures
            file_type_named(file_type_string@) matches Some(t) ==> r == Ok::<FileType, &'static str>(t),
            file_type_named(file_type_string@) is None ==> r == Err::<FileType, &'static str>(
                "Invalid file type",
            ),
    {
        let s = &file_type_string;
        if is_named(s, "js") || is_named(s, "ts") || is_named(s, "jsx") || is_named(s, "tsx")
            || is_named(s, "javascript") || is_named(s, "javascript.jsx") || is_named(
            s,
            "javascriptreact",
        ) || is_named(s, "typescript") || is_named(s, "typescript.tsx") || is_named(
            s,
            "typescriptreact",
        ) {
            Ok(FileType::JS)
        } else if is_named(s, "php") {
            Ok(FileType::PHP)
        } else {
            Err("Invalid file type")
        }
    }
}

/// The pattern that a file's path must match to belong to type `t`.
pub open spec fn extension_pattern(t: FileType) -> Seq<char> {
    match t {
        FileType::JS => r"\.(js|jsx|ts|tsx|mjs|cjs)$"@,
        FileType::PHP => r"\.php$"@,
    }
}

/// Whether `path` belongs to type `t`, judged by its extension.
pub open spec fn path_has_type(path: Seq<char>, t: FileType) -> bool {
    regex_compiles(extension_pattern(t)) && regex_finds(extension_pattern(t), path)
}

/// The type guessed for a file at `path`: the first type, in declaration
/// order, whose extension pattern the path matches.
pub open spec fn guessed_type(path: Seq<char>) -> Option<FileType> {
    if path_has_type(path, FileType::JS) {
        Some(FileType::JS)
    } else if path_has_type(path, FileType::PHP) {
        Some(FileType::PHP)
    } else {
        None
    }
}

/// Compiles the pattern that selects the files of type `file_type` by path.
pub fn get_regexp_for_file_type(file_type: FileType) -> (r: Result<Regex, regex::Error>)
    ensures
        r is Ok <==> regex_compiles(extension_pattern(file_type)),
        r matches Ok(re) ==> regex_source(re) == extension_pattern(file_type),
{
    let text = match file_type {
        FileType::JS => String::from_str(r"\.(js|jsx|ts|tsx|mjs|cjs)$"),
        FileType::PHP => String::from_str(r"\.php$"),
    };
    Regex::new(text.as_str())
}

/// Whether the file at `path` belongs to type `file_type`.
pub fn path_matches_type(path: &str, file_type: FileType) -> (r: bool)
    ensures
        r == path_has_type(path@, file_type),
{
    match get_regexp_for_file_type(file_type) {
        Ok(re) => re.is_match(path),
        Err(_) => false,
    }
}

/// Guesses the type of the file at `file_path` from its extension.
///
/// A directory walk hands each file it meets to this function and stops at
/// the first answer.
pub fn guess_file_type_from_file_path(file_path: &str) -> (r: Option<FileType>)
    ensures
        r == guessed_type(file_path@),
{
    if path_matches_type(file_path, FileType::JS) {
        Some(FileType::JS)
    } else if path_matches_type(file_path, FileType::PHP) {
        Some(FileType::PHP)
    } else {
        None
    }
}

} // verus!
