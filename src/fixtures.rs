use vstd::prelude::*;
use vstd::string::StringExecFns;

use crate::entry::{DirEntryInfo, ReadResult};
use crate::order::{sort_dir, sorted_seq};
use crate::outside::{ident_ok, is_identifier};
use crate::text::{concat2, concat3, str_eq, with_err, with_err_text};

verus! {

/// File name of a test input holding a Rust expression.
pub const INPUT_RS: &'static str = "input.rs";

/// File name of a test input holding text.
pub const INPUT_TXT: &'static str = "input.txt";

/// File name of a test input holding raw bytes.
pub const INPUT_BIN: &'static str = "input.bin";

/// How a test case hands its input file to the function under test.
#[derive(Clone, Copy, Debug, PartialEq, Eq, Structural)]
pub enum InputKind {
    /// `input.rs`: a Rust expression, compiled into the test.
    Source,
    /// `input.bin`: the file's bytes.
    Bytes,
    /// `input.txt`: the file's text.
    Text,
}

/// The two file names that every test case uses beside its input.
pub struct FixtureParams {
    /// Name of the recorded baseline, `<function>.txt`.
    pub expected_file_name: String,
    /// Name of the file written when there is no baseline, `<function>.actual.txt`.
    pub actual_file_name: String,
}

/// One piece of the generated test tree, listed in pre-order: a group is an
/// `Open`, its children, then a `Close`.
#[derive(Debug)]
pub enum Unit {
    /// A test case for a leaf directory.
    Case { name: String, kind: InputKind, input: String, expected: String, actual: String },
    /// A structural problem, which fails the build where it is emitted.
    Diagnostic(String),
    /// The start of a group named after its directory.
    Open(String),
    /// The end of the innermost open group.
    Close,
}

pub enum UnitView {
    Case { name: Seq<char>, kind: InputKind, input: Seq<char>, expected: Seq<char>, actual: Seq<char> },
    Diagnostic(Seq<char>),
    Open(Seq<char>),
    Close,
}

impl View for Unit {
    type V = UnitView;

    open spec fn view(&self) -> UnitView {
        match self {
            Unit::Case { name, kind, input, expected, actual } => UnitView::Case {
                name: name@,
                kind: *kind,
                input: input@,
                expected: expected@,
                actual: actual@,
            },
            Unit::Diagnostic(m) => UnitView::Diagnostic(m@),
            Unit::Open(n) => UnitView::Open(n@),
            Unit::Close => UnitView::Close,
        }
    }
}

pub open spec fn units_view(v: Seq<Unit>) -> Seq<UnitView> {
    v.map_values(|u: Unit| u@)
}

/// What a pass over one directory's sorted children finds.
pub struct Scan {
    /// Messages of the children that could not be read.
    pub errors: Seq<Seq<char>>,
    /// The subdirectories, in listing order.
    pub dirs: Seq<DirEntryInfo>,
    pub source: bool,
    pub bytes: bool,
    pub text: bool,
}

pub open spec fn child_error(canon: Seq<char>, e: Seq<char>) -> Seq<char> {
    with_err("Failed to get DirEntry in "@, canon, e)
}

pub open spec fn file_type_error(shown: Seq<char>, e: Seq<char>) -> Seq<char> {
    with_err("Bad file type of "@, shown, e)
}

pub open spec fn unresolvable_name() -> Seq<char> {
    "Unresolvable file name"@
}

/// The pass over sorted children `s` of the directory at `canon`.
pub open spec fn scan(s: Seq<ReadResult>, canon: Seq<char>) -> Scan
    decreases s.len(),
{
    if s.len() == 0 {
        Scan { errors: seq![], dirs: seq![], source: false, bytes: false, text: false }
    } else {
        let sc = scan(s.drop_last(), canon);
        match s.last() {
            Err(e) => Scan { errors: sc.errors.push(child_error(canon, e@)), ..sc },
            Ok(f) => match f.is_dir {
                Err(e) => Scan { errors: sc.errors.push(file_type_error(f.shown@, e@)), ..sc },
                Ok(true) => Scan { dirs: sc.dirs.push(f), ..sc },
                Ok(false) => match f.name {
                    None => Scan { errors: sc.errors.push(unresolvable_name()), ..sc },
                    Some(n) => if n@ == INPUT_RS@ {
                        Scan { source: true, ..sc }
                    } else if n@ == INPUT_BIN@ {
                        Scan { bytes: true, ..sc }
                    } else if n@ == INPUT_TXT@ {
                        Scan { text: true, ..sc }
                    } else {
                        sc
                    },
                },
            },
        }
    }
}

pub open spec fn artifact_count(sc: Scan) -> int {
    (if sc.source { 1int } else { 0 }) + (if sc.bytes { 1int } else { 0 }) + (if sc.text { 1int } else { 0 })
}

/// A leaf: exactly one recognized input, no subdirectory, nothing unreadable.
pub open spec fn is_leaf(sc: Scan) -> bool {
    sc.errors.len() == 0 && sc.dirs.len() == 0 && artifact_count(sc) == 1
}

/// A group: subdirectories only, all readable.
pub open spec fn is_group(sc: Scan) -> bool {
    sc.errors.len() == 0 && sc.dirs.len() > 0 && artifact_count(sc) == 0
}

pub open spec fn leaf_kind(sc: Scan) -> InputKind {
    if sc.source {
        InputKind::Source
    } else if sc.bytes {
        InputKind::Bytes
    } else {
        InputKind::Text
    }
}

pub open spec fn kind_file(k: InputKind) -> Seq<char> {
    match k {
        InputKind::Source => INPUT_RS@,
        InputKind::Bytes => INPUT_BIN@,
        InputKind::Text => INPUT_TXT@,
    }
}

/// A file beside the directory's other files.
pub open spec fn join(dir: Seq<char>, file: Seq<char>) -> Seq<char> {
    dir + "/"@ + file
}

/// The messages in order, each on a line of its own.
pub open spec fn lines(errors: Seq<Seq<char>>) -> Seq<char>
    decreases errors.len(),
{
    if errors.len() == 0 {
        seq![]
    } else {
        lines(errors.drop_last()) + "\n"@ + errors.last()
    }
}

pub open spec fn invalid_message(canon: Seq<char>, errors: Seq<Seq<char>>) -> Seq<char> {
    "Expected sub-directories or exactly one of input.rs, input.bin, or input.txt in "@ + canon
        + lines(errors)
}

pub open spec fn canonicalize_error(shown: Seq<char>, e: Seq<char>) -> Seq<char> {
    with_err("Failed to canonicalize fixtures: "@, shown, e)
}

pub open spec fn not_utf8_error(shown: Seq<char>) -> Seq<char> {
    "Failed to convert filename to utf8 of "@ + shown
}

pub open spec fn not_ident_error(canon: Seq<char>) -> Seq<char> {
    "Failed to convert filename of "@ + canon + " into rust identifier"@
}

pub open spec fn unreadable_error(canon: Seq<char>, e: Seq<char>) -> Seq<char> {
    with_err("Failed to read fixture directory "@, canon, e)
}

/// Where `d` stands in `kids`, if it is one of its entries.
pub open spec fn position_of(kids: Seq<ReadResult>, d: DirEntryInfo) -> int {
    choose|k: int| 0 <= k < kids.len() && kids[k] == Ok::<DirEntryInfo, String>(d)
}

/// The generated units of one fixture directory.
pub open spec fn fixture_units(e: DirEntryInfo, exp: Seq<char>, act: Seq<char>) -> Seq<UnitView>
    decreases e, 0int,
{
    match e.canonical {
        Err(x) => seq![UnitView::Diagnostic(canonicalize_error(e.shown@, x@))],
        Ok(canon) => match e.name {
            None => seq![UnitView::Diagnostic(not_utf8_error(e.shown@))],
            Some(n) => if !ident_ok(n@) {
                seq![UnitView::Diagnostic(not_ident_error(canon@))]
            } else {
                match e.listing {
                    Err(x) => seq![UnitView::Diagnostic(unreadable_error(canon@, x@))],
                    Ok(v) => {
                        let sc = scan(sorted_seq(v@), canon@);
                        if is_leaf(sc) {
                            seq![UnitView::Case {
                                name: n@,
                                kind: leaf_kind(sc),
                                input: join(canon@, kind_file(leaf_kind(sc))),
                                expected: join(canon@, exp),
                                actual: join(canon@, act),
                            }]
                        } else if is_group(sc) {
                            seq![UnitView::Open(n@)] + dirs_units(v@, sc.dirs, sc.dirs.len() as int, exp, act)
                                + seq![UnitView::Close]
                        } else {
                            seq![UnitView::Diagnostic(invalid_message(canon@, sc.errors))]
                        }
                    },
                }
            }
        },
    }
}

/// The generated units of the first `i` of `dirs`, each of which is an entry
/// of `kids`.
pub open spec fn dirs_units(kids: Seq<ReadResult>, dirs: Seq<DirEntryInfo>, i: int, exp: Seq<char>, act: Seq<char>) -> Seq<UnitView>
    decreases kids, i,
{
    if i <= 0 || i > dirs.len() {
        seq![]
    } else {
        let before = dirs_units(kids, dirs, i - 1, exp, act);
        let k = position_of(kids, dirs[i - 1]);
        if 0 <= k < kids.len() {
            match kids[k] {
                Ok(d) => before + fixture_units(d, exp, act),
                Err(_) => before,
            }
        } else {
            before
        }
    }
}

pub open spec fn strings_view(v: Seq<String>) -> Seq<Seq<char>> {
    v.map_values(|s: String| s@)
}

proof fn lemma_scan_dirs_from(s: Seq<ReadResult>, canon: Seq<char>)
    ensures
        forall|j: int| 0 <= j < scan(s, canon).dirs.len() ==> s.contains(Ok::<DirEntryInfo, String>(#[trigger] scan(s, canon).dirs[j])),
    decreases s.len(),
{
    if s.len() > 0 {
        let t = s.drop_last();
        lemma_scan_dirs_from(t, canon);
        let sc = scan(s, canon);
        assert forall|j: int| 0 <= j < sc.dirs.len() implies s.contains(Ok::<DirEntryInfo, String>(#[trigger] sc.dirs[j])) by {
            if j < scan(t, canon).dirs.len() {
                assert(sc.dirs[j] == scan(t, canon).dirs[j]);
                let x = Ok::<DirEntryInfo, String>(sc.dirs[j]);
                let k = choose|k: int| 0 <= k < t.len() && t[k] == x;
                assert(s[k] == x);
            } else {
                assert(s[s.len() - 1] == Ok::<DirEntryInfo, String>(sc.dirs[j]));
            }
        }
    }
}

/// Reads the sorted children of the directory at `canon` once, in order.
fn scan_children(children: Vec<ReadResult>, canon: &String) -> (r: (Vec<String>, Vec<DirEntryInfo>, bool, bool, bool))
    ensures
        strings_view(r.0@) == scan(children@, canon@).errors,
        r.1@ == scan(children@, canon@).dirs,
        r.2 == scan(children@, canon@).source,
        r.3 == scan(children@, canon@).bytes,
        r.4 == scan(children@, canon@).text,
{
    let ghost all = children@;
    let mut rest = children;
    let mut errors: Vec<String> = Vec::new();
    let mut dirs: Vec<DirEntryInfo> = Vec::new();
    let mut source = false;
    let mut bytes = false;
    let mut text = false;
    let ghost n = all.len();
    assert(all.take(0) =~= Seq::<ReadResult>::empty());
    assert(all.skip(0) =~= all);
    assert(strings_view(errors@) =~= seq![]);
    while rest.len() > 0
        invariant
            n == all.len(),
            rest@.len() <= n,
            rest@ == all.skip(n - rest@.len()),
            strings_view(errors@) == scan(all.take(n - rest@.len()), canon@).errors,
            dirs@ == scan(all.take(n - rest@.len()), canon@).dirs,
            source == scan(all.take(n - rest@.len()), canon@).source,
            bytes == scan(all.take(n - rest@.len()), canon@).bytes,
            text == scan(all.take(n - rest@.len()), canon@).text,
        decreases rest@.len(),
    {
        let ghost before = rest@;
        let x = rest.remove(0);
        let ghost k = n - before.len();
        assert(before[0] == all[k]);
        assert(all.take(k + 1).drop_last() =~= all.take(k));
        assert(all.take(k + 1).last() == x);
        assert(rest@ =~= all.skip(k + 1));
        match x {
            Err(e) => {
                let m = with_err_text("Failed to get DirEntry in ", canon.as_str(), e.as_str());
                errors.push(m);
            },
            Ok(f) => match &f.is_dir {
                Err(e) => {
                    let m = with_err_text("Bad file type of ", f.shown.as_str(), e.as_str());
                    errors.push(m);
                },
                Ok(true) => {
                    dirs.push(f);
                },
                Ok(false) => match &f.name {
                    None => {
                        errors.push(String::from_str("Unresolvable file name"));
                    },
                    Some(name) => {
                        if str_eq(name.as_str(), INPUT_RS) {
                            source = true;
                        } else if str_eq(name.as_str(), INPUT_BIN) {
                            bytes = true;
                        } else if str_eq(name.as_str(), INPUT_TXT) {
                            text = true;
                        }
                    },
                },
            },
        }
        assert(strings_view(errors@) =~= scan(all.take(k + 1), canon@).errors);
    }
    assert(all.take(n as int) =~= all);
    (errors, dirs, source, bytes, text)
}

/// The message of a directory that is neither a leaf nor a group.
pub(crate) fn invalid_text(canon: &String, errors: &Vec<String>) -> (r: String)
    ensures
        r@ == invalid_message(canon@, strings_view(errors@)),
{
    let mut s = concat2("Expected sub-directories or exactly one of input.rs, input.bin, or input.txt in ", canon.as_str());
    let mut i: usize = 0;
    while i < errors.len()
        invariant
            i <= errors@.len(),
            s@ == "Expected sub-directories or exactly one of input.rs, input.bin, or input.txt in "@ + canon@
                + lines(strings_view(errors@).take(i as int)),
        decreases errors@.len() - i,
    {
        assert(strings_view(errors@).take(i + 1).drop_last() =~= strings_view(errors@).take(i as int));
        s.append("\n");
        s.append(errors[i].as_str());
        i = i + 1;
    }
    assert(strings_view(errors@).take(i as int) =~= strings_view(errors@));
    s
}

fn file_name_of(k: InputKind) -> (r: &'static str)
    ensures
        r@ == kind_file(k),
{
    match k {
        InputKind::Source => INPUT_RS,
        InputKind::Bytes => INPUT_BIN,
        InputKind::Text => INPUT_TXT,
    }
}

/// Builds the units of one fixture directory: a test case for a leaf, a
/// group of the subdirectories' units for a group, and otherwise one
/// diagnostic that names the directory.
pub fn build_fixture(e: DirEntryInfo, params: &FixtureParams) -> (r: Vec<Unit>)
    ensures
        units_view(r@) == fixture_units(e, params.expected_file_name@, params.actual_file_name@),
    decreases e,
{
    let ghost e0 = e;
    let ghost exp = params.expected_file_name@;
    let ghost act = params.actual_file_name@;
    let DirEntryInfo { name, shown, is_dir: _, canonical, listing } = e;
    let canon = match canonical {
        Err(x) => {
            let m = with_err_text("Failed to canonicalize fixtures: ", shown.as_str(), x.as_str());
            let r = vec![Unit::Diagnostic(m)];
            assert(units_view(r@) =~= fixture_units(e0, exp, act));
            return r;
        },
        Ok(c) => c,
    };
    let n = match name {
        None => {
            let m = concat2("Failed to convert filename to utf8 of ", shown.as_str());
            let r = vec![Unit::Diagnostic(m)];
            assert(units_view(r@) =~= fixture_units(e0, exp, act));
            return r;
        },
        Some(n) => n,
    };
    if !is_identifier(n.as_str()) {
        let m = concat3("Failed to convert filename of ", canon.as_str(), " into rust identifier");
        let r = vec![Unit::Diagnostic(m)];
        assert(units_view(r@) =~= fixture_units(e0, exp, act));
        return r;
    }
    let v = match listing {
        Err(x) => {
            let m = with_err_text("Failed to read fixture directory ", canon.as_str(), x.as_str());
            let r = vec![Unit::Diagnostic(m)];
            assert(units_view(r@) =~= fixture_units(e0, exp, act));
            return r;
        },
        Ok(v) => v,
    };
    let ghost kids = v@;
    let sorted = sort_dir(v);
    let ghost sorted_view = sorted@;
    let (errors, dirs, source, bytes, text) = scan_children(sorted, &canon);
    let ghost sc = scan(sorted_seq(kids), canon@);
    if errors.len() == 0 && dirs.len() == 0 && ((source && !bytes && !text) || (!source && bytes && !text) || (!source && !bytes && text)) {
        let kind = if source {
            InputKind::Source
        } else if bytes {
            InputKind::Bytes
        } else {
            InputKind::Text
        };
        let input = concat3(canon.as_str(), "/", file_name_of(kind));
        let expected = concat3(canon.as_str(), "/", params.expected_file_name.as_str());
        let actual = concat3(canon.as_str(), "/", params.actual_file_name.as_str());
        let r = vec![Unit::Case { name: n, kind, input, expected, actual }];
        assert(units_view(r@) =~= fixture_units(e0, exp, act));
        r
    } else if errors.len() == 0 && dirs.len() > 0 && !source && !bytes && !text {
        proof {
            lemma_scan_dirs_from(sorted_view, canon@);
            vstd::seq_lib::to_multiset_contains(sorted_view, Ok::<DirEntryInfo, String>(sc.dirs[0]));
        }
        let mut out: Vec<Unit> = vec![Unit::Open(n)];
        let mut rest = dirs;
        let ghost m = sc.dirs.len();
        let ghost opened = units_view(out@);
        assert(sc.dirs.skip(0) =~= sc.dirs);
        assert(units_view(out@) =~= opened + dirs_units(kids, sc.dirs, 0, exp, act));
        #[verifier::loop_isolation(false)]
        while rest.len() > 0
            invariant
                m == sc.dirs.len(),
                rest@.len() <= m,
                rest@ == sc.dirs.skip(m - rest@.len()),
                units_view(out@) == opened + dirs_units(kids, sc.dirs, m - rest@.len(), exp, act),
                forall|j: int| 0 <= j < sc.dirs.len() ==> sorted_view.contains(Ok::<DirEntryInfo, String>(#[trigger] sc.dirs[j])),
                sorted_view.to_multiset() == kids.to_multiset(),
                e0.listing is Ok,
                e0.listing->Ok_0@ == kids,
            decreases rest@.len(),
        {
            let ghost j = m - rest@.len();
            let ghost before = rest@;
            let d = rest.remove(0);
            assert(d == sc.dirs[j]) by {
                assert(before[0] == sc.dirs[j]);
            }
            assert(rest@ =~= sc.dirs.skip(j + 1));
            let ghost x = Ok::<DirEntryInfo, String>(d);
            proof {
                vstd::seq_lib::to_multiset_contains(sorted_view, x);
                vstd::seq_lib::to_multiset_contains(kids, x);
                assert(kids.contains(x));
            }
            let ghost k = position_of(kids, d);
            assert(0 <= k < kids.len() && kids[k] == x);
            assert(decreases_to!(e0 => d)) by {
                assert(decreases_to!(e0 => e0.listing));
                assert(decreases_to!(e0.listing => e0.listing->Ok_0));
                assert(decreases_to!(e0.listing->Ok_0 => e0.listing->Ok_0@));
                assert(decreases_to!(kids => kids[k]));
                assert(decreases_to!(kids[k] => kids[k]->Ok_0));
            }
            let mut part = build_fixture(d, params);
            let ghost prev = out@;
            let ghost part_view = part@;
            out.append(&mut part);
            assert(units_view(out@) =~= units_view(prev) + units_view(part_view));
        }
        let ghost full = units_view(out@);
        out.push(Unit::Close);
        assert(units_view(out@) =~= full + seq![UnitView::Close]);
        out
    } else {
        let m = invalid_text(&canon, &errors);
        let r = vec![Unit::Diagnostic(m)];
        assert(units_view(r@) =~= fixture_units(e0, exp, act));
        r
    }
}

pub open spec fn root_error(root: Seq<char>, e: Seq<char>) -> Seq<char> {
    with_err("Failed to read in "@, root, e)
}

/// The units of the sorted entries `s` of the root directory `root`.
pub open spec fn root_units(s: Seq<ReadResult>, root: Seq<char>, exp: Seq<char>, act: Seq<char>) -> Seq<UnitView>
    decreases s.len(),
{
    if s.len() == 0 {
        seq![]
    } else {
        root_units(s.drop_last(), root, exp, act) + match s.last() {
            Err(e) => seq![UnitView::Diagnostic(root_error(root, e@))],
            Ok(d) => fixture_units(d, exp, act),
        }
    }
}

/// Builds the units of every entry of the root directory `root`, in listing
/// order; an entry that cannot be used yields a diagnostic and the others
/// are built all the same.
pub fn nested_fixtures(items: Vec<ReadResult>, root: &String, params: &FixtureParams) -> (r: Vec<Unit>)
    ensures
        units_view(r@) == root_units(sorted_seq(items@), root@, params.expected_file_name@, params.actual_file_name@),
{
    let sorted = sort_dir(items);
    let ghost all = sorted@;
    let ghost n = all.len();
    let ghost exp = params.expected_file_name@;
    let ghost act = params.actual_file_name@;
    let mut rest = sorted;
    let mut out: Vec<Unit> = Vec::new();
    assert(all.take(0) =~= Seq::<ReadResult>::empty());
    assert(all.skip(0) =~= all);
    assert(units_view(out@) =~= seq![]);
    while rest.len() > 0
        invariant
            n == all.len(),
            rest@.len() <= n,
            rest@ == all.skip(n - rest@.len()),
            units_view(out@) == root_units(all.take(n - rest@.len()), root@, exp, act),
            exp == params.expected_file_name@,
            act == params.actual_file_name@,
        decreases rest@.len(),
    {
        let ghost before = rest@;
        let x = rest.remove(0);
        let ghost k = n - before.len();
        assert(before[0] == all[k]);
        assert(all.take(k + 1).drop_last() =~= all.take(k));
        assert(all.take(k + 1).last() == x);
        assert(rest@ =~= all.skip(k + 1));
        let ghost prev = out@;
        let mut part = match x {
            Err(e) => vec![Unit::Diagnostic(with_err_text("Failed to read in ", root.as_str(), e.as_str()))],
            Ok(d) => build_fixture(d, params),
        };
        let ghost part_view = part@;
        out.append(&mut part);
        assert(units_view(out@) =~= units_view(prev) + units_view(part_view));
    }
    assert(all.take(n as int) =~= all);
    out
}

/// The units of the whole tree under a root whose entries are `items`: an
/// empty root is itself a directory of neither shape and yields one
/// diagnostic that names it.
pub open spec fn tree_units(items: Seq<ReadResult>, root: Seq<char>, exp: Seq<char>, act: Seq<char>) -> Seq<UnitView> {
    if items.len() == 0 {
        seq![UnitView::Diagnostic(invalid_message(root, seq![]))]
    } else {
        root_units(sorted_seq(items), root, exp, act)
    }
}

/// Builds the units of the whole tree under the root `root`.
pub fn fixture_tree(items: Vec<ReadResult>, root: &String, params: &FixtureParams) -> (r: Vec<Unit>)
    ensures
        units_view(r@) == tree_units(items@, root@, params.expected_file_name@, params.actual_file_name@),
{
    if items.len() == 0 {
        let none: Vec<String> = Vec::new();
        let m = invalid_text(root, &none);
        assert(strings_view(none@) =~= seq![]);
        let r = vec![Unit::Diagnostic(m)];
        assert(units_view(r@) =~= tree_units(items@, root@, params.expected_file_name@, params.actual_file_name@));
        r
    } else {
        nested_fixtures(items, root, params)
    }
}

} // verus!
