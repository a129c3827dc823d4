//! The search configuration and the searcher built from it.
use crate::file_type::{extension_pattern, file_type_named, get_regexp_for_file_type, FileType};
use crate::pattern::{get_regexp_for_query, query_pattern, regex_compiles, regex_finds, regex_source};
use crate::file_scan::{file_results, prescan_accepts};
use crate::prescan::{does_file_match_regexp, whole_text_may_match, QueryFinder};
use crate::scan::{line_results, result_views, search_file_line_by_line, text_lines, SearchResult};
use regex::Regex;
use vstd::prelude::*;
use vstd::utf8::encode_utf8;

verus! {

/// The number of workers used when none is asked for.
pub const DEFAULT_THREADS: usize = 5;

/// The pre-scan that decides, file by file, whether the line pass runs.
#[derive(Clone, Copy, Debug, PartialEq, Eq, Structural, Default)]
pub enum SearchMethod {
    /// Read the whole file as text and match the line pattern against it.
    #[default]
    PrescanRegex,
    /// Read the file in chunks until the query's text is found.
    PrescanMemmem,
    /// Run the line pass on every candidate file.
    NoPrescan,
}

/// The options of a search, as given by its caller.
///
/// Only `query` is needed; see [Args::build_minimal].
#[derive(Debug, Default)]
pub struct Args {
    /// The symbol name (function, class, etc.) to search for.
    pub query: String,
    /// The paths to search, recursively; the current directory when unset.
    pub file_path: Option<Vec<String>>,
    /// The file type to search (`js`, `php`, ...); guessed when unset.
    pub file_type: Option<String>,
    /// Whether results carry line numbers.
    pub line_number: bool,
    /// Whether colour is turned off in output.
    pub no_color: bool,
    /// Whether debugging information is printed.
    pub debug: bool,
    /// The pre-scan to use; [SearchMethod::PrescanRegex] when unset.
    pub search_method: Option<SearchMethod>,
    /// The number of workers; [DEFAULT_THREADS] when unset.
    pub threads: Option<usize>,
}

impl Args {
    /// Options with `query` and every other option left at its default.
    pub fn build_minimal(query: &str) -> (r: Args)
        ensures
            r.query@ == query@,
            r.file_path is None,
            r.file_type is None,
            !r.line_number,
            !r.no_color,
            !r.debug,
            r.search_method is None,
            r.threads is None,
    {
        Args {
            query: String::from_str(query),
            file_path: None,
            file_type: None,
            line_number: false,
            no_color: false,
            debug: false,
            search_method: None,
            threads: None,
        }
    }

    /// Options with the query, file type, paths and line-number flag given.
    pub fn new(
        query: String,
        file_type: Option<String>,
        file_path: Option<Vec<String>>,
        line_number: bool,
    ) -> (r: Args)
        ensures
            r.query == query,
            r.file_type == file_type,
            r.file_path == file_path,
            r.line_number == line_number,
            !r.no_color,
            !r.debug,
            r.search_method is None,
            r.threads is None,
    {
        Args {
            query,
            file_type,
            file_path,
            line_number,
            no_color: false,
            debug: false,
            search_method: None,
            threads: None,
        }
    }

    /// The paths to search: those given, or the current directory.
    pub fn search_paths(&self) -> (r: Vec<String>)
        ensures
            r@.map_values(|s: String| s@) == paths_to_search(*self),
    {
        match &self.file_path {
            Some(paths) => {
                let mut r: Vec<String> = Vec::new();
                let mut i: usize = 0;
                while i < paths.len()
                    invariant
                        i <= paths@.len(),
                        self.file_path == Some(*paths),
                        r@.map_values(|s: String| s@) == paths@.subrange(0, i as int).map_values(
                            |s: String| s@,
                        ),
                    decreases paths@.len() - i,
                {
                    r.push(String::from_str(paths[i].as_str()));
                    i += 1;
                    assert(paths@.subrange(0, i as int).map_values(|s: String| s@) =~= paths@.subrange(
                        0,
                        i - 1,
                    ).map_values(|s: String| s@).push(paths@[i - 1]@));
                }
                assert(paths@.subrange(0, paths@.len() as int) == paths@);
                r
            },
            None => {
                let mut r: Vec<String> = Vec::new();
                r.push(String::from_str("."));
                assert(r@.map_values(|s: String| s@) =~= seq!["."@]);
                r
            },
        }
    }
}

/// The paths a search with `args` walks.
pub open spec fn paths_to_search(args: Args) -> Seq<Seq<char>> {
    match args.file_path {
        Some(v) => v@.map_values(|s: String| s@),
        None => seq!["."@],
    }
}

/// A search configuration, as plain values.
pub struct ConfigModel {
    pub query: Seq<char>,
    pub file_paths: Seq<Seq<char>>,
    pub file_type: FileType,
    pub line_number: bool,
    pub debug: bool,
    pub no_color: bool,
    pub search_method: SearchMethod,
    pub num_threads: nat,
}

/// The configuration that `args` gives, where `guessed` is the type guessed
/// from the files under the paths (consulted only when no type was given),
/// or the configuration error.
pub open spec fn configured(args: Args, guessed: Option<FileType>) -> Result<
    ConfigModel,
    &'static str,
> {
    let file_type = match args.file_type {
        Some(s) => file_type_named(s@),
        None => guessed,
    };
    if args.file_type is Some && file_type is None {
        Err("Invalid file type")
    } else if file_type is None {
        Err("Could not guess the file type")
    } else if args.threads == Some(0usize) {
        Err("Invalid number of threads")
    } else {
        Ok(
            ConfigModel {
                query: args.query@,
                file_paths: paths_to_search(args),
                file_type: file_type->Some_0,
                line_number: args.line_number,
                debug: args.debug,
                no_color: args.no_color,
                search_method: match args.search_method {
                    Some(m) => m,
                    None => SearchMethod::PrescanRegex,
                },
                num_threads: match args.threads {
                    Some(n) => n as nat,
                    None => DEFAULT_THREADS as nat,
                },
            },
        )
    }
}

/// A validated search configuration; it does not change once built.
pub struct Config {
    query: String,
    file_paths: Vec<String>,
    file_type: FileType,
    line_number: bool,
    debug: bool,
    no_color: bool,
    search_method: SearchMethod,
    num_threads: usize,
}

impl View for Config {
    type V = ConfigModel;

    closed spec fn view(&self) -> ConfigModel {
        ConfigModel {
            query: self.query@,
            file_paths: self.file_paths@.map_values(|s: String| s@),
            file_type: self.file_type,
            line_number: self.line_number,
            debug: self.debug,
            no_color: self.no_color,
            search_method: self.search_method,
            num_threads: self.num_threads as nat,
        }
    }
}

impl Config {
    /// Validates `args`; `guessed_type` is the type guessed from the files
    /// under the paths, used only when `args` names no type.
    pub fn new(args: Args, guessed_type: Option<FileType>) -> (r: Result<Config, &'static str>)
        ensures
            match configured(args, guessed_type) {
                Ok(c) => r matches Ok(k) && k@ == c,
                Err(e) => r == Err::<Config, &'static str>(e),
            },
    {
        let file_paths = args.search_paths();
        let file_type = match args.file_type {
            Some(name) => match FileType::from_string(name) {
                Ok(t) => t,
                Err(_) => {
                    return Err("Invalid file type");
                },
            },
            None => match guessed_type {
                Some(t) => t,
                None => {
                    return Err("Could not guess the file type");
                },
            },
        };
        let num_threads: usize = match args.threads {
            Some(n) => {
                if n == 0 {
                    return Err("Invalid number of threads");
                }
                n
            },
            None => DEFAULT_THREADS,
        };
        let search_method = match args.search_method {
            Some(m) => m,
            None => SearchMethod::PrescanRegex,
        };
        Ok(
            Config {
                query: args.query,
                file_paths,
                file_type,
                line_number: args.line_number,
                debug: args.debug,
                no_color: args.no_color,
                search_method,
                num_threads,
            },
        )
    }
}

/// Whether a search configured as `c` can compile both of its patterns.
pub open spec fn patterns_compile(c: ConfigModel) -> bool {
    regex_compiles(query_pattern(c.query, c.file_type)) && regex_compiles(
        extension_pattern(c.file_type),
    )
}

/// Performs the search that its configuration describes.
///
/// It holds the configuration and both compiled patterns; the file walk,
/// the reads and the workers are driven from outside, through
/// [Searcher::accepts_path], the pre-scans and [Searcher::search_lines].
pub struct Searcher {
    config: Config,
    query_re: Regex,
    file_type_re: Regex,
}

impl View for Searcher {
    type V = ConfigModel;

    closed spec fn view(&self) -> ConfigModel {
        self.config@
    }
}

impl Searcher {
    #[verifier::type_invariant]
    spec fn patterns_match_config(&self) -> bool {
        &&& regex_source(self.query_re) == query_pattern(self.config@.query, self.config@.file_type)
        &&& regex_source(self.file_type_re) == extension_pattern(self.config@.file_type)
        &&& self.config@.num_threads >= 1
    }

    /// Validates `args` (see [Config::new]) and compiles the search's two
    /// patterns; a pattern that does not compile is an error.
    pub fn new(args: Args, guessed_type: Option<FileType>) -> (r: Result<Searcher, &'static str>)
        ensures
            match configured(args, guessed_type) {
                Ok(c) => if patterns_compile(c) {
                    r matches Ok(s) && s@ == c
                } else {
                    r == Err::<Searcher, &'static str>("Could not compile the search patterns")
                },
                Err(e) => r == Err::<Searcher, &'static str>(e),
            },
    {
        let config = match Config::new(args, guessed_type) {
            Ok(c) => c,
            Err(e) => {
                return Err(e);
            },
        };
        let query_re = match get_regexp_for_query(config.query.as_str(), config.file_type) {
            Ok(re) => re,
            Err(_) => {
                return Err("Could not compile the search patterns");
            },
        };
        let file_type_re = match get_regexp_for_file_type(config.file_type) {
            Ok(re) => re,
            Err(_) => {
                return Err("Could not compile the search patterns");
            },
        };
        Ok(Searcher { config, query_re, file_type_re })
    }

    /// The query.
    pub fn query(&self) -> (r: &str)
        ensures
            r@ == self@.query,
    {
        self.config.query.as_str()
    }

    /// The paths to walk.
    pub fn file_paths(&self) -> (r: &Vec<String>)
        ensures
            r@.map_values(|s: String| s@) == self@.file_paths,
    {
        &self.config.file_paths
    }

    /// The file type searched.
    pub fn file_type(&self) -> (r: FileType)
        ensures
            r == self@.file_type,
    {
        self.config.file_type
    }

    /// Whether results carry line numbers.
    pub fn line_number(&self) -> (r: bool)
        ensures
            r == self@.line_number,
    {
        self.config.line_number
    }

    /// Whether debugging information is printed.
    pub fn debug(&self) -> (r: bool)
        ensures
            r == self@.debug,
    {
        self.config.debug
    }

    /// Whether colour is turned off.
    pub fn no_color(&self) -> (r: bool)
        ensures
            r == self@.no_color,
    {
        self.config.no_color
    }

    /// The pre-scan used on each file.
    pub fn search_method(&self) -> (r: SearchMethod)
        ensures
            r == self@.search_method,
    {
        self.config.search_method
    }

    /// The number of workers; never zero.
    pub fn num_threads(&self) -> (r: usize)
        ensures
            r == self@.num_threads,
            r >= 1,
    {
        proof {
            use_type_invariant(self);
        }
        self.config.num_threads
    }

    /// Whether a file met in the walk is a candidate: its path matches the
    /// extension pattern of the searched type.
    pub fn accepts_path(&self, path: &str) -> (r: bool)
        ensures
            r == regex_finds(extension_pattern(self@.file_type), path@),
    {
        proof {
            use_type_invariant(self);
        }
        self.file_type_re.is_match(path)
    }

    /// The whole-text pre-scan of one file (`None`: not readable as text).
    pub fn prescan_text(&self, text: &Option<String>) -> (r: bool)
        ensures
            r == whole_text_may_match(
                query_pattern(self@.query, self@.file_type),
                match text {
                    Some(t) => Some(t@),
                    None => None,
                },
            ),
    {
        proof {
            use_type_invariant(self);
        }
        does_file_match_regexp(text, &self.query_re)
    }

    /// A fresh literal finder for the query, for the chunked pre-scan.
    pub fn query_finder(&self) -> (r: QueryFinder)
        ensures
            r.wf(),
            r.needle() == encode_utf8(self@.query),
            r.seen() == Seq::<u8>::empty(),
    {
        QueryFinder::new(self.config.query.as_str())
    }

    /// The verdict of this search's pre-scan on one file. `text` is the file
    /// read whole (`None`: not readable as text), for
    /// [SearchMethod::PrescanRegex]; `finder` is a finder from
    /// [Searcher::query_finder] fed with the file's chunks, for
    /// [SearchMethod::PrescanMemmem]. The one the method does not use is not
    /// looked at.
    pub fn prescan_passes(&self, text: &Option<String>, finder: &QueryFinder) -> (r: bool)
        requires
            finder.wf(),
        ensures
            r == prescan_accepts(
                self@.search_method,
                query_pattern(self@.query, self@.file_type),
                finder.needle(),
                match text {
                    Some(t) => Some(t@),
                    None => None,
                },
                finder.seen(),
            ),
    {
        match self.config.search_method {
            SearchMethod::PrescanRegex => self.prescan_text(text),
            SearchMethod::PrescanMemmem => finder.found(),
            SearchMethod::NoPrescan => true,
        }
    }

    /// The results of the file at `file_path`: those of the line pass over
    /// `lines` where the pre-scan (see [Searcher::prescan_passes]) lets the
    /// file through, and none otherwise. Where it does not, `lines` is not
    /// looked at and may be left unread.
    pub fn search_file(
        &self,
        file_path: &str,
        text: &Option<String>,
        finder: &QueryFinder,
        lines: &Vec<Option<String>>,
    ) -> (r: Vec<SearchResult>)
        requires
            finder.wf(),
        ensures
            result_views(r@) == file_results(
                self@.search_method,
                query_pattern(self@.query, self@.file_type),
                finder.needle(),
                file_path@,
                self@.line_number,
                match text {
                    Some(t) => Some(t@),
                    None => None,
                },
                finder.seen(),
                text_lines(lines@),
            ),
    {
        if self.prescan_passes(text, finder) {
            self.search_lines(file_path, lines)
        } else {
            let r: Vec<SearchResult> = Vec::new();
            assert(result_views(r@) =~= Seq::<crate::scan::ResultModel>::empty());
            r
        }
    }

    /// The line pass over the lines of the file at `file_path`.
    pub fn search_lines(&self, file_path: &str, lines: &Vec<Option<String>>) -> (r: Vec<
        SearchResult,
    >)
        ensures
            result_views(r@) == line_results(
                query_pattern(self@.query, self@.file_type),
                file_path@,
                text_lines(lines@),
                self@.line_number,
            ),
    {
        proof {
            use_type_invariant(self);
        }
        search_file_line_by_line(&self.query_re, file_path, lines, self.config.line_number)
    }
}

} // verus!
