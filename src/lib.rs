//! Quick search for symbol definitions in source trees.
//!
//! A definition is found without parsing: each supported language has a
//! heuristic pattern that recognises the lines which define a given symbol.
//! The library holds the pattern model, the two-phase per-file scan (a cheap
//! pre-scan, then a precise line pass), the search configuration and the
//! collection of results. Walking directories, reading files and running the
//! workers are left to the caller, which hands the library what it read.
pub mod collector;
pub mod file_scan;
pub mod file_type;
pub mod pattern;
pub mod prescan;
pub mod scan;
pub mod searcher;

pub use collector::ResultCollector;
pub use file_type::{get_regexp_for_file_type, guess_file_type_from_file_path, FileType};
pub use pattern::get_regexp_for_query;
pub use prescan::{does_file_match_regexp, QueryFinder};
pub use scan::{search_file_line_by_line, SearchResult};
pub use searcher::{Args, Config, SearchMethod, Searcher};
