use fn_fixture::{
    build_fixture, nested_fixtures, parse_attribute, plan_snapshots, pull_function_description, render_units,
    snapshot_code, sort_dir, AttrToken, DirEntryInfo, FixtureParams, FnSignature, Harness, InputKind, ParamShape,
    ReadResult, Unit,
};

fn file(name: &str) -> ReadResult {
    Ok(DirEntryInfo {
        name: Some(name.to_string()),
        shown: format!("entry {}", name),
        is_dir: Ok(false),
        canonical: Ok(format!("/elsewhere/{}", name)),
        listing: Err("not a directory".to_string()),
    })
}

fn dir(name: &str, canon: &str, children: Vec<ReadResult>) -> DirEntryInfo {
    DirEntryInfo {
        name: Some(name.to_string()),
        shown: format!("entry {}", name),
        is_dir: Ok(true),
        canonical: Ok(canon.to_string()),
        listing: Ok(children),
    }
}

fn params() -> FixtureParams {
    FixtureParams { expected_file_name: "f.txt".to_string(), actual_file_name: "f.actual.txt".to_string() }
}

fn harness() -> Harness {
    Harness {
        tag: "#[test]".to_string(),
        source_loader: "load_source".to_string(),
        bytes_loader: "load_bytes".to_string(),
        text_loader: "load_text".to_string(),
        input_bounds: " + Bound".to_string(),
        normal_body: "NORMAL".to_string(),
        plaintext_body: "PLAIN".to_string(),
    }
}

fn name_of(r: &ReadResult) -> Option<String> {
    match r {
        Ok(e) => e.name.clone(),
        Err(_) => None,
    }
}

#[test]
fn sort_puts_errors_first_then_names_by_bytes() {
    let mut odd = dir("x", "/x", vec![]);
    odd.name = None;
    let items = vec![
        file("b"),
        Ok(odd),
        file("B"),
        Err("broken".to_string()),
        file("a"),
        file("ab"),
    ];
    let sorted = sort_dir(items);
    assert_eq!(sorted.len(), 6);
    assert!(sorted[0].is_err());
    let names: Vec<Option<String>> = sorted.iter().map(name_of).collect();
    assert_eq!(
        names,
        vec![
            None,
            Some("B".to_string()),
            Some("a".to_string()),
            Some("ab".to_string()),
            Some("b".to_string()),
            None
        ]
    );
    assert!(sorted[5].is_ok());
}

#[test]
fn sort_of_nothing_is_nothing() {
    assert!(sort_dir(vec![]).is_empty());
}

#[test]
fn leaf_directory_yields_one_case_named_after_it() {
    let leaf = dir("good_number", "/root/good_number", vec![file("input.txt"), file("f.txt"), file("notes.md")]);
    let units = build_fixture(leaf, &params());
    assert_eq!(units.len(), 1);
    match &units[0] {
        Unit::Case { name, kind, input, expected, actual } => {
            assert_eq!(name, "good_number");
            assert_eq!(*kind, InputKind::Text);
            assert_eq!(input, "/root/good_number/input.txt");
            assert_eq!(expected, "/root/good_number/f.txt");
            assert_eq!(actual, "/root/good_number/f.actual.txt");
        },
        other => panic!("unexpected {:?}", other),
    }
}

#[test]
fn each_input_name_gives_its_kind() {
    for (file_name, want) in [("input.rs", InputKind::Source), ("input.bin", InputKind::Bytes), ("input.txt", InputKind::Text)] {
        let units = build_fixture(dir("case", "/c", vec![file(file_name)]), &params());
        match &units[0] {
            Unit::Case { kind, input, .. } => {
                assert_eq!(*kind, want);
                assert_eq!(input, &format!("/c/{}", file_name));
            },
            other => panic!("unexpected {:?}", other),
        }
    }
}

#[test]
fn group_directory_yields_nested_modules_in_sorted_order() {
    let inner = dir("deep", "/g/b/deep", vec![file("input.rs")]);
    let group = dir(
        "grp",
        "/g",
        vec![Ok(dir("b", "/g/b", vec![Ok(inner)])), Ok(dir("a", "/g/a", vec![file("input.bin")]))],
    );
    let units = build_fixture(group, &params());
    let shape: Vec<String> = units
        .iter()
        .map(|u| match u {
            Unit::Case { name, .. } => format!("case {}", name),
            Unit::Diagnostic(m) => format!("error {}", m),
            Unit::Open(n) => format!("open {}", n),
            Unit::Close => "close".to_string(),
        })
        .collect();
    assert_eq!(shape, vec!["open grp", "case a", "open b", "case deep", "close", "close"]);
}

#[test]
fn two_inputs_make_one_diagnostic() {
    let units = build_fixture(dir("both", "/both", vec![file("input.rs"), file("input.txt")]), &params());
    assert_eq!(units.len(), 1);
    match &units[0] {
        Unit::Diagnostic(m) => assert_eq!(
            m,
            "Expected sub-directories or exactly one of input.rs, input.bin, or input.txt in /both"
        ),
        other => panic!("unexpected {:?}", other),
    }
}

#[test]
fn input_beside_subdirectory_makes_one_diagnostic() {
    let units = build_fixture(
        dir("mixed", "/mixed", vec![file("input.rs"), Ok(dir("sub", "/mixed/sub", vec![file("input.txt")]))]),
        &params(),
    );
    assert_eq!(units.len(), 1);
    assert!(matches!(&units[0], Unit::Diagnostic(_)));
}

#[test]
fn empty_directory_makes_one_diagnostic() {
    let units = build_fixture(dir("empty", "/empty", vec![]), &params());
    assert_eq!(units.len(), 1);
    assert!(matches!(&units[0], Unit::Diagnostic(_)));
}

#[test]
fn unreadable_child_makes_the_group_invalid_and_is_reported() {
    let mut bad = dir("t", "/g/t", vec![]);
    bad.is_dir = Err("denied".to_string());
    let units = build_fixture(
        dir("g", "/g", vec![Ok(dir("ok", "/g/ok", vec![file("input.txt")])), Ok(bad), Err("gone".to_string())]),
        &params(),
    );
    assert_eq!(units.len(), 1);
    match &units[0] {
        Unit::Diagnostic(m) => assert_eq!(
            m,
            "Expected sub-directories or exactly one of input.rs, input.bin, or input.txt in /g\nFailed to get DirEntry in /g: Err(gone)\nBad file type of entry t: Err(denied)"
        ),
        other => panic!("unexpected {:?}", other),
    }
}

#[test]
fn bad_fixture_does_not_hide_its_siblings() {
    let items = vec![
        Ok(dir("c", "/r/c", vec![file("input.txt")])),
        Ok(dir("b", "/r/b", vec![])),
        Err("lost".to_string()),
        Ok(dir("a", "/r/a", vec![file("input.rs")])),
    ];
    let units = nested_fixtures(items, &"/r".to_string(), &params());
    assert_eq!(units.len(), 4);
    match &units[0] {
        Unit::Diagnostic(m) => assert_eq!(m, "Failed to read in /r: Err(lost)"),
        other => panic!("unexpected {:?}", other),
    }
    assert!(matches!(&units[1], Unit::Case { name, .. } if name == "a"));
    assert!(matches!(&units[2], Unit::Diagnostic(_)));
    assert!(matches!(&units[3], Unit::Case { name, .. } if name == "c"));
}

#[test]
fn keyword_directory_name_is_refused() {
    let units = build_fixture(dir("fn", "/r/fn", vec![file("input.txt")]), &params());
    match &units[0] {
        Unit::Diagnostic(m) => assert_eq!(m, "Failed to convert filename of /r/fn into rust identifier"),
        other => panic!("unexpected {:?}", other),
    }
    let units = build_fixture(dir("1st", "/r/1st", vec![file("input.txt")]), &params());
    assert!(matches!(&units[0], Unit::Diagnostic(_)));
}

#[test]
fn unusable_entries_give_their_own_messages() {
    let mut e = dir("a", "/r/a", vec![]);
    e.canonical = Err("no such file".to_string());
    match &build_fixture(e, &params())[0] {
        Unit::Diagnostic(m) => assert_eq!(m, "Failed to canonicalize fixtures: entry a: Err(no such file)"),
        other => panic!("unexpected {:?}", other),
    }
    let mut e = dir("a", "/r/a", vec![]);
    e.name = None;
    match &build_fixture(e, &params())[0] {
        Unit::Diagnostic(m) => assert_eq!(m, "Failed to convert filename to utf8 of entry a"),
        other => panic!("unexpected {:?}", other),
    }
    let mut e = dir("a", "/r/a", vec![]);
    e.listing = Err("not a directory".to_string());
    match &build_fixture(e, &params())[0] {
        Unit::Diagnostic(m) => assert_eq!(m, "Failed to read fixture directory /r/a: Err(not a directory)"),
        other => panic!("unexpected {:?}", other),
    }
    let mut odd = dir("x", "/r/a/x", vec![]);
    odd.is_dir = Ok(false);
    odd.name = None;
    match &build_fixture(dir("a", "/r/a", vec![Ok(odd)]), &params())[0] {
        Unit::Diagnostic(m) => assert!(m.ends_with("\nUnresolvable file name")),
        other => panic!("unexpected {:?}", other),
    }
}

#[test]
fn case_code_reaches_the_driver_through_one_super_per_module() {
    let units = vec![
        Unit::Case {
            name: "a".to_string(),
            kind: InputKind::Text,
            input: "/r/a/input.txt".to_string(),
            expected: "/r/a/f.txt".to_string(),
            actual: "/r/a/f.actual.txt".to_string(),
        },
        Unit::Open("g".to_string()),
        Unit::Case {
            name: "b".to_string(),
            kind: InputKind::Bytes,
            input: "/r/g/b/input.bin".to_string(),
            expected: "/r/g/b/f.txt".to_string(),
            actual: "/r/g/b/f.actual.txt".to_string(),
        },
        Unit::Close,
    ];
    let code = render_units(&harness(), &"f".to_string(), &units);
    assert_eq!(
        code,
        "#[test] fn a() { super::f(( |a: &mut std::option::Option<_>| { a.replace(load_text!(\"/r/a/input.txt\")); }, \"/r/a/f.txt\", \"/r/a/f.actual.txt\", )) } \
mod g { #[test] fn b() { super::super::f(( |b: &mut std::option::Option<_>| { b.replace(load_bytes!(\"/r/g/b/input.bin\")); }, \"/r/g/b/f.txt\", \"/r/g/b/f.actual.txt\", )) } } "
    );
}

#[test]
fn paths_are_escaped_as_string_literals() {
    let units = vec![Unit::Case {
        name: "q".to_string(),
        kind: InputKind::Source,
        input: "/r/\"q\"/input.rs".to_string(),
        expected: "/r/\\q/f.txt".to_string(),
        actual: "/r/q/f.actual.txt".to_string(),
    }];
    let code = render_units(&harness(), &"f".to_string(), &units);
    assert!(code.contains("load_source!(\"/r/\\\"q\\\"/input.rs\")"));
    assert!(code.contains("\"/r/\\\\q/f.txt\""));
}

#[test]
fn diagnostic_renders_as_a_build_error() {
    let code = render_units(&harness(), &"f".to_string(), &vec![Unit::Diagnostic("boom".to_string())]);
    assert!(code.contains("compile_error"));
    assert!(code.contains("\"boom\""));
}

#[test]
fn attribute_forms() {
    let lit = |s: &str| AttrToken::Literal(s.to_string());
    let ident = |s: &str| AttrToken::Ident(s.to_string());
    assert_eq!(parse_attribute(&vec![lit("\"snapshot-tests/code\"")]), Ok((false, "snapshot-tests/code".to_string())));
    assert_eq!(parse_attribute(&vec![ident("plaintext"), lit("\"a\\\\b\"")]), Ok((true, "a\\b".to_string())));
    assert_eq!(parse_attribute(&vec![]), Err("No path provided in attribute".to_string()));
    assert_eq!(parse_attribute(&vec![ident("x")]), Err("x must be a path literal".to_string()));
    assert_eq!(parse_attribute(&vec![ident("loud"), lit("\"a\"")]), Err("May only specify plaintext, found loud".to_string()));
    assert_eq!(
        parse_attribute(&vec![lit("\"a\""), lit("\"b\"")]),
        Err("Must provide only a path literal and optionally specify plaintext before".to_string())
    );
    assert_eq!(
        parse_attribute(&vec![ident("plaintext"), lit("\"a\""), AttrToken::Other(",".to_string())]),
        Err("Must provide only a path literal and optionally specify plaintext before".to_string())
    );
    assert_eq!(parse_attribute(&vec![lit("42")]), Err("Expected literal path in attribute, received: 42".to_string()));
}

fn typed(ident: Option<&str>, pattern: &str, ty: &str) -> ParamShape {
    ParamShape::Typed { ident: ident.map(|s| s.to_string()), pattern: pattern.to_string(), ty: ty.to_string() }
}

fn signature(name: &str, params: Vec<ParamShape>) -> FnSignature {
    FnSignature {
        name: name.to_string(),
        generics_lt: String::new(),
        generics_params: String::new(),
        generics_gt: String::new(),
        where_clause: String::new(),
        params,
    }
}

fn error_of(r: Result<fn_fixture::FnDescription, String>) -> String {
    match r {
        Ok(_) => panic!("expected an error"),
        Err(m) => m,
    }
}

#[test]
fn signature_checks() {
    let item = "fn f() {}".to_string();
    let ok = pull_function_description(Ok(signature("parse", vec![typed(Some("value"), "value", "& str")])), &item);
    match ok {
        Ok(d) => {
            assert_eq!(d.name, "parse");
            assert_eq!(d.param_name, "value");
            assert_eq!(d.param_type, "& str");
        },
        Err(m) => panic!("unexpected {}", m),
    }
    assert_eq!(error_of(pull_function_description(Ok(signature("f", vec![])), &item)), "No input parameter");
    assert_eq!(
        error_of(pull_function_description(
            Ok(signature("f", vec![typed(Some("a"), "a", "u8"), typed(Some("b"), "b", "u8")])),
            &item
        )),
        "Expected one parameter, received a: u8 b: u8"
    );
    assert_eq!(
        error_of(pull_function_description(Ok(signature("f", vec![ParamShape::Receiver("& self".to_string())])), &item)),
        "Unexpected self in & self"
    );
    assert_eq!(
        error_of(pull_function_description(Ok(signature("f", vec![typed(None, "(a, b)", "(u8, u8)")])), &item)),
        "Expected parameter, received (a, b)"
    );
    assert_eq!(
        error_of(pull_function_description(Ok(signature("f", vec![typed(Some("f"), "f", "u8")])), &item)),
        "Function f may not share name with its parameter"
    );
    assert_eq!(
        error_of(pull_function_description(Err("expected fn".to_string()), &"struct S;".to_string())),
        "Expected attribute must be on a function, received: struct S;\n\n: Err(expected fn)"
    );
}

#[test]
fn planning_checks_name_environment_and_attribute() {
    let item = "fn f() {}".to_string();
    let attr = vec![AttrToken::Ident("plaintext".to_string()), AttrToken::Literal("\"cases\"".to_string())];
    let sig = || Ok(signature("check", vec![typed(Some("v"), "v", "u8")]));
    match plan_snapshots(sig(), &item, Ok("/m".to_string()), &attr) {
        Ok(p) => {
            assert!(p.plaintext);
            assert_eq!(p.path, "cases");
            assert_eq!(p.manifest_dir, "/m");
            assert_eq!(p.params.expected_file_name, "check.txt");
            assert_eq!(p.params.actual_file_name, "check.actual.txt");
        },
        Err(c) => panic!("unexpected {}", c),
    }
    let clash = plan_snapshots(Ok(signature("input", vec![typed(Some("v"), "v", "u8")])), &item, Ok("/m".to_string()), &attr);
    assert!(matches!(clash, Err(c) if c.contains("conflicts with input.txt detection")));
    let no_env = plan_snapshots(sig(), &item, Err("NotPresent".to_string()), &attr);
    assert!(matches!(no_env, Err(c) if c.contains("No manifest directory env: Err(NotPresent)")));
    let bad_attr = plan_snapshots(sig(), &item, Ok("/m".to_string()), &vec![]);
    assert!(matches!(bad_attr, Err(c) if c.contains("No path provided in attribute")));
}

#[test]
fn snapshot_code_wraps_driver_and_tree() {
    let item = "fn check(v: u8) -> u8 { v }".to_string();
    let attr = vec![AttrToken::Literal("\"cases\"".to_string())];
    let plan = match plan_snapshots(
        Ok(signature("check", vec![typed(Some("v"), "v", "u8")])),
        &item,
        Ok("/m".to_string()),
        &attr,
    ) {
        Ok(p) => p,
        Err(c) => panic!("unexpected {}", c),
    };
    let listing = Ok(vec![Ok(dir("one", "/m/cases/one", vec![file("input.rs")]))]);
    let code = snapshot_code(&plan, &harness(), &item, &"/m/cases".to_string(), listing).unwrap();
    assert_eq!(
        code,
        "fn check  (mut v: ( impl std::ops::Fn(&mut std::option::Option<u8>) + Bound, &'static str, &'static str, ))  { fn check(v: u8) -> u8 { v } let (to_call, (provider, expected_file, actual_file)) = (&check, v); NORMAL } mod check { #[test] fn one() { super::check(( |one: &mut std::option::Option<_>| { one.replace(load_source!(\"/m/cases/one/input.rs\")); }, \"/m/cases/one/check.txt\", \"/m/cases/one/check.actual.txt\", )) }  }"
    );
    let failed = snapshot_code(&plan, &harness(), &item, &"/m/cases".to_string(), Err("missing".to_string()));
    assert!(matches!(failed, Err(c) if c.contains("Failed to read /m/cases: Err(missing)")));
}

#[test]
fn empty_root_is_one_diagnostic_naming_it() {
    let units = fn_fixture::fixture_tree(vec![], &"/m/cases".to_string(), &params());
    assert_eq!(units.len(), 1);
    match &units[0] {
        Unit::Diagnostic(m) => assert_eq!(
            m,
            "Expected sub-directories or exactly one of input.rs, input.bin, or input.txt in /m/cases"
        ),
        other => panic!("unexpected {:?}", other),
    }
}

#[test]
fn empty_root_renders_a_build_error_inside_the_module() {
    let item = "fn check(v: u8) -> u8 { v }".to_string();
    let plan = match plan_snapshots(
        Ok(signature("check", vec![typed(Some("v"), "v", "u8")])),
        &item,
        Ok("/m".to_string()),
        &vec![AttrToken::Literal("\"cases\"".to_string())],
    ) {
        Ok(p) => p,
        Err(c) => panic!("unexpected {}", c),
    };
    let code = snapshot_code(&plan, &harness(), &item, &"/m/cases".to_string(), Ok(vec![])).unwrap();
    assert!(code.contains("mod check { ::core::compile_error! { \"Expected sub-directories or exactly one of input.rs, input.bin, or input.txt in /m/cases\" }"));
}

#[test]
fn literals_that_are_not_strings_are_refused_without_stopping() {
    let lit = |s: &str| AttrToken::Literal(s.to_string());
    assert_eq!(
        parse_attribute(&vec![lit("c\"dir\"")]),
        Err("Expected literal path in attribute, received: c\"dir\"".to_string())
    );
    assert_eq!(
        parse_attribute(&vec![lit("b\"dir\"")]),
        Err("Expected literal path in attribute, received: b\"dir\"".to_string())
    );
    assert_eq!(parse_attribute(&vec![lit("r\"dir\"")]), Ok((false, "dir".to_string())));
}

#[test]
fn standard_harness_fragments() {
    let h = fn_fixture::harness();
    assert_eq!(h.tag, "#[test]");
    assert_eq!(h.bytes_loader, "include_bytes");
    assert_eq!(h.text_loader, "include_str");
    assert_eq!(h.input_bounds, " + std::panic::RefUnwindSafe + std::panic::UnwindSafe");
    assert!(h.normal_body.contains("catch_unwind"));
    assert!(!h.plaintext_body.contains("catch_unwind"));
}
