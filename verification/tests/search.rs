use treefind::config::{configure, PatternArg, RootArg, SearchConfig};
use treefind::detail::ResultRecord;
use treefind::entry::{Entry, NodeKind, Stat};
use treefind::search::{paths_json, run, Action, Document, Event, Search};

fn config(pattern: Option<&str>, detail: bool, json: bool, hidden: bool) -> SearchConfig {
    let arg = pattern.map(|p| PatternArg { text: p.to_string(), is_path: false });
    configure(&arg, &RootArg::Resolved("/root".to_string()), detail, json, hidden)
        .expect("the configuration is valid")
}

fn stat_of(kind: NodeKind) -> Stat {
    Stat { kind, size: 7, modified: Some(100), accessed: Some(200), created: Some(300) }
}

fn visited(path: &str, name: &str, kind: NodeKind) -> Event {
    Event::Visited {
        entry: Entry { path: path.to_string(), name: Some(name.to_string()) },
        stat: Some(stat_of(kind)),
    }
}

fn entry_of(event: &Event) -> Entry {
    match event {
        Event::Visited { entry, .. } => entry.clone(),
        Event::Unreadable { .. } => panic!("not a visit"),
    }
}

/// The root holds `a.txt`, `.secret` and `sub/b.txt`. The walker leaves out
/// what the hidden-entry policy does not admit.
fn tree(hidden: bool) -> Vec<Event> {
    let mut events = vec![
        visited("/root", "root", NodeKind::Directory),
        visited("/root/a.txt", "a.txt", NodeKind::File),
    ];
    if hidden {
        events.push(visited("/root/.secret", ".secret", NodeKind::File));
    }
    events.push(visited("/root/sub", "sub", NodeKind::Directory));
    events.push(visited("/root/sub/b.txt", "b.txt", NodeKind::File));
    events
}

fn strings(items: &[&str]) -> Vec<String> {
    items.iter().map(|s| s.to_string()).collect()
}

#[test]
fn pattern_txt_without_hidden_reports_the_two_text_files() {
    let report = run(config(Some(".txt"), false, false, false), &tree(false));
    assert_eq!(report.printed, strings(&["/root/a.txt", "/root/sub/b.txt"]));
    assert_eq!(report.document, None);
}

#[test]
fn hidden_entry_is_excluded_even_if_the_walker_yields_it() {
    let report = run(config(Some(".secret|.txt"), false, false, false), &tree(true));
    assert_eq!(report.printed, strings(&["/root/a.txt", "/root/sub/b.txt"]));
}

#[test]
fn match_all_with_hidden_reports_every_node() {
    let report = run(config(Some(".*"), false, false, true), &tree(true));
    assert_eq!(
        report.printed,
        strings(&["/root", "/root/a.txt", "/root/.secret", "/root/sub", "/root/sub/b.txt"])
    );
}

#[test]
fn structured_paths_for_pattern_b() {
    let report = run(config(Some("b"), false, true, false), &tree(false));
    assert_eq!(report.printed, Vec::<String>::new());
    assert_eq!(
        report.document,
        Some(Document::Paths(strings(&["/root/sub", "/root/sub/b.txt"])))
    );
    let report = run(config(Some("^b"), false, true, false), &tree(false));
    assert_eq!(report.document, Some(Document::Paths(strings(&["/root/sub/b.txt"]))));
}

#[test]
fn empty_walk_gives_an_empty_document() {
    let report = run(config(None, false, true, false), &Vec::new());
    assert_eq!(report.printed, Vec::<String>::new());
    assert_eq!(report.document, Some(Document::Paths(Vec::new())));
    let report = run(config(None, true, true, false), &Vec::new());
    assert_eq!(report.document, Some(Document::Records(Vec::new())));
    let report = run(config(None, false, false, false), &Vec::new());
    assert_eq!(report.printed, Vec::<String>::new());
    assert_eq!(report.document, None);
}

#[test]
fn empty_root_directory_without_a_match_gives_an_empty_document() {
    let events = vec![visited("/root", "root", NodeKind::Directory)];
    let report = run(config(Some("txt"), false, true, false), &events);
    assert_eq!(report.printed, Vec::<String>::new());
    assert_eq!(report.document, Some(Document::Paths(Vec::new())));
}

#[test]
fn walking_twice_gives_the_same_results() {
    let first = run(config(Some("t"), false, true, true), &tree(true));
    let second = run(config(Some("t"), false, true, true), &tree(true));
    assert_eq!(first, second);
}

#[test]
fn order_of_the_walk_does_not_change_the_result_set() {
    let forward = tree(true);
    let mut backward = tree(true);
    backward.reverse();
    let a = run(config(Some("t"), false, true, true), &forward);
    let b = run(config(Some("t"), false, true, true), &backward);
    let sorted = |d: Option<Document>| match d {
        Some(Document::Paths(mut p)) => {
            p.sort();
            p
        }
        _ => panic!("a list of paths is expected"),
    };
    assert_eq!(sorted(a.document), sorted(b.document));
}

#[test]
fn every_listed_path_was_visited() {
    let events = tree(true);
    let report = run(config(Some("s"), false, true, true), &events);
    let paths = match report.document {
        Some(Document::Paths(p)) => p,
        _ => panic!("a list of paths is expected"),
    };
    assert_eq!(paths, strings(&["/root/.secret", "/root/sub"]));
    for p in paths.iter() {
        assert!(events.iter().any(|e| entry_of(e).path == *p));
    }
}

#[test]
fn structured_detail_gives_records() {
    let report = run(config(Some("txt"), true, true, false), &tree(false));
    assert_eq!(report.printed, Vec::<String>::new());
    let record = |name: &str, path: &str| ResultRecord {
        filetype: "file".to_string(),
        name: name.to_string(),
        path: path.to_string(),
        size: 7,
        modified: Some(100),
        accessed: Some(200),
        created: Some(300),
    };
    assert_eq!(
        report.document,
        Some(Document::Records(vec![
            record("a.txt", "/root/a.txt"),
            record("b.txt", "/root/sub/b.txt"),
        ]))
    );
}

#[test]
fn structured_detail_drops_entries_without_metadata() {
    let events = vec![
        Event::Visited { entry: entry_of(&visited("/root/a.txt", "a.txt", NodeKind::File)), stat: None },
        visited("/root/b.txt", "b.txt", NodeKind::File),
    ];
    let report = run(config(None, true, true, false), &events);
    match report.document {
        Some(Document::Records(r)) => {
            assert_eq!(r.len(), 1);
            assert_eq!(r[0].path, "/root/b.txt");
        }
        _ => panic!("records are expected"),
    }
}

#[test]
fn text_detail_prints_a_block_per_entry() {
    let report = run(config(Some("^sub$"), true, false, false), &tree(false));
    assert_eq!(
        report.printed,
        strings(&[
            "\n/root/sub",
            "\tFiletype: directory",
            "\tName: sub",
            "\tSize: 7 B",
            "\tModified: \"Thu, 1 Jan 1970 00:01:40 +0000\"",
            "\tAccessed: \"Thu, 1 Jan 1970 00:03:20 +0000\"",
            "\tCreated: \"Thu, 1 Jan 1970 00:05:00 +0000\"",
        ])
    );
    assert_eq!(report.document, None);
}

#[test]
fn walker_failures_are_printed_in_text_mode_only() {
    let events = vec![
        visited("/root/a.txt", "a.txt", NodeKind::File),
        Event::Unreadable { message: "permission denied: /root/locked".to_string() },
        visited("/root/b.txt", "b.txt", NodeKind::File),
    ];
    let text = run(config(None, false, false, false), &events);
    assert_eq!(
        text.printed,
        strings(&["/root/a.txt", "permission denied: /root/locked", "/root/b.txt"])
    );
    let structured = run(config(None, false, true, false), &events);
    assert_eq!(structured.printed, Vec::<String>::new());
    assert_eq!(
        structured.document,
        Some(Document::Paths(strings(&["/root/a.txt", "/root/b.txt"])))
    );
}

#[test]
fn visit_tells_the_caller_what_to_do() {
    let a = entry_of(&visited("/root/a.txt", "a.txt", NodeKind::File));
    let h = entry_of(&visited("/root/.secret", ".secret", NodeKind::File));

    let mut plain = Search::new(config(Some("txt|secret"), false, false, false));
    assert_eq!(plain.visit(&a), Action::Print("/root/a.txt".to_string()));
    assert_eq!(plain.visit(&h), Action::Proceed);
    assert_eq!(plain.finish(), None);

    let mut detailed = Search::new(config(Some("txt"), true, false, false));
    assert_eq!(detailed.visit(&a), Action::Stat);
    assert_eq!(detailed.inspect(&a, None), Vec::<String>::new());
    assert_eq!(detailed.inspect(&a, Some(stat_of(NodeKind::File))).len(), 7);

    let mut listed = Search::new(config(Some("txt"), false, true, false));
    assert_eq!(listed.visit(&a), Action::Proceed);
    assert_eq!(listed.visit(&h), Action::Proceed);
    assert_eq!(listed.finish(), Some(Document::Paths(strings(&["/root/a.txt"]))));

    let mut recorded = Search::new(config(Some("txt"), true, true, false));
    assert_eq!(recorded.visit(&a), Action::Stat);
    assert_eq!(recorded.inspect(&a, Some(stat_of(NodeKind::File))), Vec::<String>::new());
    assert_eq!(recorded.visit(&h), Action::Proceed);
    match recorded.finish() {
        Some(Document::Records(r)) => assert_eq!(r.len(), 1),
        _ => panic!("records are expected"),
    }
}

#[test]
fn failure_is_passed_on_in_text_mode_only() {
    let text = Search::new(config(None, false, false, false));
    assert_eq!(text.failure(&"gone".to_string()), Some("gone".to_string()));
    let structured = Search::new(config(None, true, true, false));
    assert_eq!(structured.failure(&"gone".to_string()), None);
}

#[test]
fn feed_is_visit_followed_by_inspect() {
    let mut search = Search::new(config(Some("a"), true, true, false));
    let lines = search.feed(&visited("/root/a.txt", "a.txt", NodeKind::File));
    assert_eq!(lines, Vec::<String>::new());
    assert_eq!(search.records.len(), 1);
    assert_eq!(search.records[0].name, "a.txt");
    assert!(search.paths.is_empty());
}

#[test]
fn empty_list_of_paths_is_an_empty_json_array() {
    assert_eq!(paths_json(&Vec::new()), Some("[]".to_string()));
    let report = run(config(Some("txt"), false, true, false), &Vec::new());
    match report.document {
        Some(Document::Paths(p)) => assert_eq!(paths_json(&p), Some("[]".to_string())),
        _ => panic!("a list of paths is expected"),
    }
}

#[test]
fn list_of_paths_is_a_json_array_of_strings() {
    let report = run(config(Some("^b"), false, true, false), &tree(false));
    match report.document {
        Some(Document::Paths(p)) => {
            assert_eq!(paths_json(&p), Some("[\"/root/sub/b.txt\"]".to_string()))
        }
        _ => panic!("a list of paths is expected"),
    }
    assert_eq!(
        paths_json(&strings(&["/r/a", "/r/say \"hi\"", "/r/back\\slash"])),
        Some("[\"/r/a\",\"/r/say \\\"hi\\\"\",\"/r/back\\\\slash\"]".to_string())
    );
}

#[test]
fn no_pattern_reports_what_dot_star_reports() {
    for hidden in [false, true] {
        for (detail, json) in [(false, false), (true, false), (false, true), (true, true)] {
            let mut events = tree(true);
            events.push(Event::Unreadable { message: "unreadable".to_string() });
            let none = run(config(None, detail, json, hidden), &events);
            let dot_star = run(config(Some(".*"), detail, json, hidden), &events);
            assert_eq!(none, dot_star);
        }
    }
    let none = run(config(None, false, true, false), &tree(true));
    assert_eq!(
        none.document,
        Some(Document::Paths(strings(&["/root", "/root/a.txt", "/root/sub", "/root/sub/b.txt"])))
    );
}

#[test]
fn structured_detail_names_the_kind_in_words() {
    let events = vec![
        visited("/root/sub", "sub", NodeKind::Directory),
        visited("/root/sub/b.txt", "b.txt", NodeKind::File),
    ];
    let report = run(config(None, true, true, false), &events);
    match report.document {
        Some(Document::Records(r)) => {
            assert_eq!(r.len(), 2);
            assert_eq!(r[0].filetype, "directory");
            assert_eq!(r[0].name, "sub");
            assert_eq!(r[0].path, "/root/sub");
            assert_eq!(r[1].filetype, "file");
        }
        _ => panic!("records are expected"),
    }
}
