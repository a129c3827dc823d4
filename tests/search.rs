use grepdef::scan::{decimal_text, format_grep};
use grepdef::{
    does_file_match_regexp, get_regexp_for_file_type, get_regexp_for_query,
    guess_file_type_from_file_path, search_file_line_by_line, Args, FileType, QueryFinder,
    ResultCollector, SearchMethod, SearchResult, Searcher, Config,
};

fn lines_of(text: &str) -> Vec<Option<String>> {
    text.lines().map(|l| Some(String::from(l))).collect()
}

fn searcher_for(query: &str, file_type: &str, method: SearchMethod) -> Searcher {
    let mut args = Args::new(
        String::from(query),
        Some(String::from(file_type)),
        None,
        true,
    );
    args.search_method = Some(method);
    Searcher::new(args, None).unwrap()
}

/// Runs one file through the searcher the way a worker does, reading the
/// literal pre-scan's chunks `chunk` bytes at a time.
fn scan(searcher: &Searcher, path: &str, content: &str, chunk: usize) -> Vec<SearchResult> {
    let text = match searcher.search_method() {
        SearchMethod::PrescanRegex => Some(String::from(content)),
        _ => None,
    };
    let mut finder = searcher.query_finder();
    if searcher.search_method() == SearchMethod::PrescanMemmem {
        for part in content.as_bytes().chunks(chunk) {
            if finder.feed(part) {
                break;
            }
        }
    }
    searcher.search_file(path, &text, &finder, &lines_of(content))
}

const JS_FILE: &str = "// helpers\n\nimport x from 'y';\n\nconst a = 1;\n\nfunction parseQuery() {\n  return a;\n}\n";

#[test]
fn from_string_accepts_aliases() {
    for name in [
        "js",
        "ts",
        "jsx",
        "tsx",
        "javascript",
        "javascript.jsx",
        "javascriptreact",
        "typescript",
        "typescript.tsx",
        "typescriptreact",
    ] {
        assert_eq!(FileType::from_string(String::from(name)), Ok(FileType::JS));
    }
    assert_eq!(FileType::from_string(String::from("php")), Ok(FileType::PHP));
}

#[test]
fn from_string_rejects_unknown_type() {
    assert_eq!(
        FileType::from_string(String::from("cobol")),
        Err("Invalid file type")
    );
    assert!(FileType::from_string(String::from("JS")).is_err());
    assert!(FileType::from_string(String::new()).is_err());
}

#[test]
fn build_minimal_sets_only_query() {
    let args = Args::build_minimal("parseQuery");
    assert_eq!(args.query, String::from("parseQuery"));
    assert_eq!(args.file_path, None);
    assert_eq!(args.file_type, None);
    assert!(!args.line_number);
    assert!(args.search_method.is_none());
    assert!(args.threads.is_none());
}

#[test]
fn args_new_keeps_given_values() {
    let args = Args::new(
        String::from("q"),
        Some(String::from("php")),
        Some(vec![String::from("./src")]),
        true,
    );
    assert_eq!(args.query, "q");
    assert_eq!(args.file_type, Some(String::from("php")));
    assert_eq!(args.file_path, Some(vec![String::from("./src")]));
    assert!(args.line_number);
    assert!(!args.debug);
}

#[test]
fn search_paths_default_to_current_directory() {
    assert_eq!(
        Args::build_minimal("q").search_paths(),
        vec![String::from(".")]
    );
}

#[test]
fn two_roots_are_both_walked() {
    let args = Args::new(
        String::from("parseQuery"),
        Some(String::from("js")),
        Some(vec![String::from("./src"), String::from("./lib")]),
        true,
    );
    assert_eq!(
        args.search_paths(),
        vec![String::from("./src"), String::from("./lib")]
    );
    let searcher = Searcher::new(args, None).unwrap();
    assert_eq!(
        searcher.file_paths(),
        &vec![String::from("./src"), String::from("./lib")]
    );
    let mut collector = ResultCollector::new();
    collector.append(scan(&searcher, "./src/a.js", JS_FILE, 2048));
    collector.append(scan(
        &searcher,
        "./lib/b.js",
        "let parseQuery = () => 1;\n",
        2048,
    ));
    let results = collector.into_results();
    assert_eq!(results.len(), 2);
    assert_eq!(results[0].file_path, "./src/a.js");
    assert_eq!(results[1].file_path, "./lib/b.js");
    assert_eq!(results[1].text, "let parseQuery = () => 1;");
}

#[test]
fn searcher_new_reports_configuration_errors() {
    let bad_type = Args::new(String::from("q"), Some(String::from("cobol")), None, false);
    assert_eq!(
        Searcher::new(bad_type, Some(FileType::JS)).err(),
        Some("Invalid file type")
    );
    let unguessed = Args::build_minimal("q");
    assert_eq!(
        Searcher::new(unguessed, None).err(),
        Some("Could not guess the file type")
    );
    let mut zero = Args::build_minimal("q");
    zero.threads = Some(0);
    assert_eq!(
        Searcher::new(zero, Some(FileType::PHP)).err(),
        Some("Invalid number of threads")
    );
    let bad_query = Args::new(String::from("foo("), Some(String::from("js")), None, false);
    assert_eq!(
        Searcher::new(bad_query, None).err(),
        Some("Could not compile the search patterns")
    );
}

#[test]
fn searcher_new_uses_guess_and_defaults() {
    let searcher = Searcher::new(Args::build_minimal("parseQuery"), Some(FileType::PHP)).unwrap();
    assert_eq!(searcher.file_type(), FileType::PHP);
    assert_eq!(searcher.num_threads(), 5);
    assert_eq!(searcher.search_method(), SearchMethod::PrescanRegex);
    assert_eq!(searcher.query(), "parseQuery");
    assert!(!searcher.line_number());
    assert!(!searcher.no_color());
    assert!(!searcher.debug());
    // A named type wins over the guess.
    let args = Args::new(String::from("q"), Some(String::from("ts")), None, false);
    assert_eq!(
        Searcher::new(args, Some(FileType::PHP)).unwrap().file_type(),
        FileType::JS
    );
    let mut args = Args::build_minimal("q");
    args.threads = Some(12);
    assert_eq!(
        Searcher::new(args, Some(FileType::JS)).unwrap().num_threads(),
        12
    );
}

#[test]
fn extension_patterns_select_files() {
    let js = get_regexp_for_file_type(FileType::JS).unwrap();
    for path in ["a.js", "a.jsx", "a.ts", "a.tsx", "a.mjs", "a.cjs"] {
        assert!(js.is_match(path), "{path}");
    }
    assert!(!js.is_match("a.json"));
    assert!(!js.is_match("a.php"));
    let php = get_regexp_for_file_type(FileType::PHP).unwrap();
    assert!(php.is_match("dir/b.php"));
    assert!(!php.is_match("b.php.bak"));
}

#[test]
fn guess_file_type_from_extension() {
    assert_eq!(guess_file_type_from_file_path("./src/a.tsx"), Some(FileType::JS));
    assert_eq!(guess_file_type_from_file_path("./b.php"), Some(FileType::PHP));
    assert_eq!(guess_file_type_from_file_path("./README.md"), None);
}

#[test]
fn forced_type_keeps_only_its_files() {
    let searcher = searcher_for("parseQuery", "php", SearchMethod::PrescanRegex);
    assert!(!searcher.accepts_path("dir/a.js"));
    assert!(searcher.accepts_path("dir/b.php"));
    let php = "<?php\n\nclass X {}\n\nfunction parseQuery() {\n}\n";
    let results = scan(&searcher, "dir/b.php", php, 2048);
    assert_eq!(
        results,
        vec![SearchResult {
            file_path: String::from("dir/b.php"),
            line_number: Some(5),
            text: String::from("function parseQuery() {"),
        }]
    );
}

#[test]
fn js_definition_on_line_seven() {
    let searcher = searcher_for("parseQuery", "js", SearchMethod::PrescanRegex);
    let results = scan(&searcher, "a.js", JS_FILE, 2048);
    assert_eq!(
        results,
        vec![SearchResult {
            file_path: String::from("a.js"),
            line_number: Some(7),
            text: String::from("function parseQuery() {"),
        }]
    );
}

#[test]
fn js_definition_forms_are_recognised() {
    let re = get_regexp_for_query("parseQuery", FileType::JS).unwrap();
    for line in [
        "function parseQuery() {",
        "var parseQuery = 1;",
        "let parseQuery = 1;",
        "const parseQuery = () => {};",
        "class parseQuery {",
        "interface parseQuery {",
        "type parseQuery = string;",
        "  parseQuery(a, b) {",
        "  parseQuery(a): string {",
        "  parseQuery: function() {",
        "/** @typedef {Object} parseQuery */",
    ] {
        assert!(re.is_match(line), "{line}");
    }
    assert!(!re.is_match("parseQuery(a, b);"));
    assert!(!re.is_match("return parseQuery;"));
}

#[test]
fn php_definition_forms_are_recognised() {
    let re = get_regexp_for_query("Thing", FileType::PHP).unwrap();
    for line in [
        "function Thing() {",
        "class Thing {",
        "trait Thing {",
        "interface Thing {",
        "enum Thing {",
    ] {
        assert!(re.is_match(line), "{line}");
    }
    assert!(!re.is_match("new Thing();"));
}

#[test]
fn query_inside_longer_identifier_does_not_match() {
    let re = get_regexp_for_query("foo", FileType::JS).unwrap();
    assert!(!re.is_match("function foobar() {"));
    assert!(!re.is_match("const foobar = 1;"));
    assert!(!re.is_match("function barfoo() {"));
    assert!(re.is_match("function foo() {"));
    let php = get_regexp_for_query("foo", FileType::PHP).unwrap();
    assert!(!php.is_match("function foobar() {"));
}

#[test]
fn typedef_form_keeps_word_boundary() {
    let re = get_regexp_for_query("foo", FileType::JS).unwrap();
    assert!(!re.is_match("@typedeffoo"));
    assert!(!re.is_match("@typedef {Object} barfoo"));
    assert!(re.is_match("/** @typedef {Object} foo */"));
    assert!(re.is_match("@typedef foo"));
}

#[test]
fn prescan_verdict_decides_the_line_pass() {
    let lines = lines_of(JS_FILE);
    let regex = searcher_for("parseQuery", "js", SearchMethod::PrescanRegex);
    let finder = regex.query_finder();
    assert!(!regex.prescan_passes(&None, &finder));
    assert!(regex.search_file("a.js", &None, &finder, &lines).is_empty());
    let text = Some(String::from(JS_FILE));
    assert!(regex.prescan_passes(&text, &finder));
    assert_eq!(regex.search_file("a.js", &text, &finder, &lines).len(), 1);

    let literal = searcher_for("parseQuery", "js", SearchMethod::PrescanMemmem);
    let mut finder = literal.query_finder();
    assert!(!literal.prescan_passes(&None, &finder));
    assert!(literal.search_file("a.js", &None, &finder, &lines).is_empty());
    finder.feed(JS_FILE.as_bytes());
    assert!(finder.found());
    assert_eq!(literal.search_file("a.js", &None, &finder, &lines).len(), 1);

    let none = searcher_for("parseQuery", "js", SearchMethod::NoPrescan);
    let finder = none.query_finder();
    assert!(none.prescan_passes(&None, &finder));
    assert_eq!(none.search_file("a.js", &None, &finder, &lines).len(), 1);
}

#[test]
fn trim_removes_unicode_whitespace() {
    let re = get_regexp_for_query("go", FileType::JS).unwrap();
    let lines = vec![Some(String::from("\u{3000}\u{a0} function go() {\u{2029}\t"))];
    let results = search_file_line_by_line(&re, "f.js", &lines, true);
    assert_eq!(results[0].text, "function go() {");
}

#[test]
fn decimal_text_gives_digits() {
    assert_eq!(decimal_text(0), "0");
    assert_eq!(decimal_text(7), "7");
    assert_eq!(decimal_text(1090), "1090");
    assert_eq!(decimal_text(usize::MAX), usize::MAX.to_string());
}

#[test]
fn line_pass_trims_and_numbers_lines() {
    let re = get_regexp_for_query("go", FileType::JS).unwrap();
    let lines = vec![
        Some(String::from("x")),
        None,
        Some(String::from("   function go() {   ")),
        Some(String::from("\tconst go = 2;")),
    ];
    let numbered = search_file_line_by_line(&re, "f.js", &lines, true);
    assert_eq!(numbered.len(), 2);
    assert_eq!(numbered[0].line_number, Some(3));
    assert_eq!(numbered[0].text, "function go() {");
    assert_eq!(numbered[1].line_number, Some(4));
    assert_eq!(numbered[1].text, "const go = 2;");
    let plain = search_file_line_by_line(&re, "f.js", &lines, false);
    assert_eq!(plain[0].line_number, None);
    assert_eq!(plain[1].file_path, "f.js");
}

#[test]
fn every_method_gives_the_same_results() {
    let content = "const a = 1;\nfunction parseQuery() {\n}\nconst parseQuery2 = 1;\nparseQuery: 3,\n";
    let mut all = vec![];
    for method in [
        SearchMethod::PrescanRegex,
        SearchMethod::PrescanMemmem,
        SearchMethod::NoPrescan,
    ] {
        let searcher = searcher_for("parseQuery", "js", method);
        for chunk in [1, 3, 7, 2048] {
            all.push(scan(&searcher, "m.js", content, chunk));
        }
    }
    assert_eq!(all[0].len(), 2);
    assert_eq!(all[0][0].line_number, Some(2));
    assert_eq!(all[0][1].text, "parseQuery: 3,");
    for r in &all {
        assert_eq!(r, &all[0]);
    }
}

#[test]
fn absent_symbol_gives_no_results() {
    for method in [
        SearchMethod::PrescanRegex,
        SearchMethod::PrescanMemmem,
        SearchMethod::NoPrescan,
    ] {
        let searcher = searcher_for("missingThing", "js", method);
        assert!(scan(&searcher, "a.js", JS_FILE, 4).is_empty());
    }
}

#[test]
fn whole_text_prescan() {
    let re = get_regexp_for_query("parseQuery", FileType::JS).unwrap();
    assert!(does_file_match_regexp(&Some(String::from(JS_FILE)), &re));
    assert!(!does_file_match_regexp(&Some(String::new()), &re));
    assert!(!does_file_match_regexp(&None, &re));
    assert!(!does_file_match_regexp(&Some(String::from("parseQuery();")), &re));
}

#[test]
fn finder_sees_query_across_chunk_boundaries() {
    let mut finder = QueryFinder::new("parseQuery");
    assert!(!finder.feed(b"xx\nfunction par"));
    assert!(!finder.feed(b"seQ"));
    assert!(finder.feed(b"uery() {"));
    // A straddling occurrence with no newline anywhere.
    let mut finder = QueryFinder::new("abcdef");
    assert!(!finder.feed(b"zzzzab"));
    assert!(!finder.feed(b"cd"));
    assert!(finder.feed(b"efzz"));
    // A newline just before the boundary.
    let mut finder = QueryFinder::new("abc");
    assert!(!finder.feed(b"xa\n"));
    assert!(!finder.feed(b"ab"));
    assert!(finder.feed(b"c"));
    // Once found, it stays found.
    assert!(finder.feed(b"zzz"));
}

#[test]
fn finder_reports_absence() {
    let mut finder = QueryFinder::new("needle");
    for part in [&b"nee"[..], b"dl", b"\nneedl", b"x"] {
        assert!(!finder.feed(part));
    }
    let mut finder = QueryFinder::new("needle");
    assert!(!finder.feed(b""));
}

#[test]
fn collection_ignores_completion_order() {
    let r = |p: &str, n: usize| SearchResult {
        file_path: String::from(p),
        line_number: Some(n),
        text: String::from("t"),
    };
    let batches = vec![vec![r("a", 1), r("a", 4)], vec![], vec![r("b", 2)], vec![r("c", 9)]];
    let mut one = ResultCollector::new();
    for b in batches.iter() {
        one.append(b.clone());
    }
    let mut other = ResultCollector::new();
    for b in batches.iter().rev() {
        other.append(b.clone());
    }
    let mut x = one.into_results();
    let mut y = other.into_results();
    assert_eq!(x.len(), 4);
    // Each file's results stay together and in line order.
    let a_pos = y.iter().position(|i| i.file_path == "a").unwrap();
    assert_eq!(y[a_pos + 1], r("a", 4));
    let key = |s: &SearchResult| (s.file_path.clone(), s.line_number);
    x.sort_by_key(key);
    y.sort_by_key(key);
    assert_eq!(x, y);
}

#[test]
fn repeated_search_is_identical() {
    let searcher = searcher_for("parseQuery", "js", SearchMethod::PrescanMemmem);
    let first = scan(&searcher, "a.js", JS_FILE, 16);
    let second = scan(&searcher, "a.js", JS_FILE, 16);
    assert_eq!(first, second);
    assert_eq!(first.len(), 1);
}

#[test]
fn grep_format_with_and_without_colour() {
    let with_number = SearchResult {
        file_path: String::from("./src/queries.js"),
        line_number: Some(17),
        text: String::from("function parseQuery {"),
    };
    let without_number = SearchResult {
        line_number: None,
        ..with_number.clone()
    };
    colored::control::set_override(false);
    assert_eq!(
        with_number.to_grep(),
        "./src/queries.js:17:function parseQuery {"
    );
    assert_eq!(
        without_number.to_grep(),
        "./src/queries.js:function parseQuery {"
    );
    colored::control::set_override(true);
    assert_eq!(
        with_number.to_grep(),
        "\u{1b}[35m./src/queries.js\u{1b}[0m:\u{1b}[32m17\u{1b}[0m:function parseQuery {"
    );
    assert_eq!(
        without_number.to_grep(),
        "\u{1b}[35m./src/queries.js\u{1b}[0m:function parseQuery {"
    );
    let nested = SearchResult {
        file_path: String::from("a\u{1b}[0mb"),
        line_number: None,
        text: String::from("t"),
    };
    assert_eq!(
        nested.to_grep(),
        "\u{1b}[35ma\u{1b}[0m\u{1b}[35mb\u{1b}[0m:t"
    );
    colored::control::unset_override();
}

#[test]
fn config_new_validates_args() {
    assert!(Config::new(Args::build_minimal("q"), Some(FileType::JS)).is_ok());
    assert_eq!(
        Config::new(Args::build_minimal("q"), None).err().map(|_| ()),
        Some(())
    );
    let args = Args::new(String::from("q"), Some(String::from("rust")), None, false);
    assert!(matches!(
        Config::new(args, Some(FileType::JS)),
        Err("Invalid file type")
    ));
}

#[test]
fn grep_parts_are_joined_with_colons() {
    assert_eq!(format_grep("a.js", Some("7"), "x y"), "a.js:7:x y");
    assert_eq!(format_grep("a.js", None, "x y"), "a.js:x y");
}
