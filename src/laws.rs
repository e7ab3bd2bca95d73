use vstd::prelude::*;

use crate::entry::{DirEntryInfo, ReadResult};
use crate::fixtures::{
    dirs_units, fixture_units, invalid_message, root_units, scan, InputKind, UnitView, INPUT_BIN,
    INPUT_RS, INPUT_TXT,
};
use crate::order::sorted_seq;
use crate::outside::ident_ok;

verus! {

/// A child that could not be read, or whose type or name could not be
/// made out.
pub open spec fn child_unreadable(c: ReadResult) -> bool {
    match c {
        Err(_) => true,
        Ok(f) => f.is_dir is Err || (f.is_dir == Ok::<bool, String>(false) && f.name is None),
    }
}

/// A child that is a subdirectory.
pub open spec fn child_is_dir(c: ReadResult) -> bool {
    match c {
        Ok(f) => f.is_dir == Ok::<bool, String>(true),
        Err(_) => false,
    }
}

/// The kind of input a child is, where it is a file with a reserved name.
pub open spec fn child_input(c: ReadResult) -> Option<InputKind> {
    match c {
        Ok(f) => if f.is_dir == Ok::<bool, String>(false) {
            match f.name {
                Some(n) => if n@ == INPUT_RS@ {
                    Some(InputKind::Source)
                } else if n@ == INPUT_BIN@ {
                    Some(InputKind::Bytes)
                } else if n@ == INPUT_TXT@ {
                    Some(InputKind::Text)
                } else {
                    None
                },
                None => None,
            }
        } else {
            None
        },
        Err(_) => None,
    }
}

pub open spec fn no_unreadable(s: Seq<ReadResult>) -> bool {
    forall|c: ReadResult| s.contains(c) ==> !child_unreadable(c)
}

pub open spec fn no_dirs(s: Seq<ReadResult>) -> bool {
    forall|c: ReadResult| s.contains(c) ==> !child_is_dir(c)
}

pub open spec fn has_input(s: Seq<ReadResult>, k: InputKind) -> bool {
    exists|c: ReadResult| s.contains(c) && child_input(c) == Some(k)
}

pub open spec fn input_kinds(s: Seq<ReadResult>) -> int {
    (if has_input(s, InputKind::Source) { 1int } else { 0 }) + (if has_input(s, InputKind::Bytes) { 1int } else { 0 })
        + (if has_input(s, InputKind::Text) { 1int } else { 0 })
}

/// The children of a leaf: one kind of recognized input, no subdirectory,
/// nothing unreadable.
pub open spec fn leaf_shaped(s: Seq<ReadResult>) -> bool {
    no_unreadable(s) && no_dirs(s) && input_kinds(s) == 1
}

/// The children of a group: at least one subdirectory, no recognized input,
/// nothing unreadable.
pub open spec fn group_shaped(s: Seq<ReadResult>) -> bool {
    no_unreadable(s) && !no_dirs(s) && input_kinds(s) == 0
}

proof fn lemma_contains_last(s: Seq<ReadResult>, c: ReadResult)
    requires
        s.len() > 0,
    ensures
        s.contains(c) <==> (s.drop_last().contains(c) || c == s.last()),
{
    if s.contains(c) {
        let i = choose|i: int| 0 <= i < s.len() && s[i] == c;
        if i < s.len() - 1 {
            assert(s.drop_last()[i] == c);
        }
    }
    if s.drop_last().contains(c) {
        let i = choose|i: int| 0 <= i < s.len() - 1 && s.drop_last()[i] == c;
        assert(s[i] == c);
    }
    if c == s.last() {
        assert(s[s.len() - 1] == c);
    }
}

/// What a pass over children finds, said of the children themselves.
proof fn lemma_scan_finds(s: Seq<ReadResult>, canon: Seq<char>)
    ensures
        (scan(s, canon).errors.len() == 0) == no_unreadable(s),
        (scan(s, canon).dirs.len() == 0) == no_dirs(s),
        scan(s, canon).source == has_input(s, InputKind::Source),
        scan(s, canon).bytes == has_input(s, InputKind::Bytes),
        scan(s, canon).text == has_input(s, InputKind::Text),
        forall|d: DirEntryInfo| #[trigger] scan(s, canon).dirs.contains(d) <==> (s.contains(Ok::<DirEntryInfo, String>(d)) && d.is_dir == Ok::<bool, String>(true)),
    decreases s.len(),
{
    if s.len() == 0 {
        assert(no_unreadable(s));
        assert(no_dirs(s));
        assert(forall|d: DirEntryInfo| !#[trigger] scan(s, canon).dirs.contains(d));
    } else {
        let t = s.drop_last();
        let x = s.last();
        lemma_scan_finds(t, canon);
        assert forall|c: ReadResult| s.contains(c) <==> (t.contains(c) || c == x) by {
            lemma_contains_last(s, c);
        }
        let sc = scan(s, canon);
        let st = scan(t, canon);
        assert(sc.errors.len() == st.errors.len() + if child_unreadable(x) { 1int } else { 0 });
        assert(sc.dirs.len() == st.dirs.len() + if child_is_dir(x) { 1int } else { 0 });
        assert(no_unreadable(s) == (no_unreadable(t) && !child_unreadable(x)));
        assert(no_dirs(s) == (no_dirs(t) && !child_is_dir(x)));
        if !no_unreadable(t) {
            let c = choose|c: ReadResult| t.contains(c) && child_unreadable(c);
            assert(s.contains(c));
        }
        if !no_dirs(t) {
            let c = choose|c: ReadResult| t.contains(c) && child_is_dir(c);
            assert(s.contains(c));
        }
        assert forall|k: InputKind| has_input(t, k) implies has_input(s, k) by {
            if has_input(t, k) {
                let c = choose|c: ReadResult| t.contains(c) && child_input(c) == Some(k);
                assert(s.contains(c));
            }
        }
        assert forall|k: InputKind| has_input(s, k) implies (has_input(t, k) || child_input(x) == Some(k)) by {
            if has_input(s, k) {
                let c = choose|c: ReadResult| s.contains(c) && child_input(c) == Some(k);
                if c != x {
                    assert(t.contains(c));
                }
            }
        }
        assert(s.contains(x));
        assert forall|d: DirEntryInfo| #[trigger] sc.dirs.contains(d) <==> (s.contains(Ok::<DirEntryInfo, String>(d)) && d.is_dir == Ok::<bool, String>(true)) by {
            if x is Ok && x->Ok_0.is_dir == Ok::<bool, String>(true) {
                assert(sc.dirs == st.dirs.push(x->Ok_0));
                lemma_contains_push(st.dirs, x->Ok_0, d);
            } else {
                assert(sc.dirs == st.dirs);
            }
        }
    }
}

proof fn lemma_contains_push(s: Seq<DirEntryInfo>, x: DirEntryInfo, d: DirEntryInfo)
    ensures
        s.push(x).contains(d) <==> (s.contains(d) || d == x),
{
    if s.push(x).contains(d) {
        let i = choose|i: int| 0 <= i < s.len() + 1 && s.push(x)[i] == d;
        if i < s.len() {
            assert(s[i] == d);
        }
    }
    if s.contains(d) {
        let i = choose|i: int| 0 <= i < s.len() && s[i] == d;
        assert(s.push(x)[i] == d);
    }
    if d == x {
        assert(s.push(x)[s.len() as int] == d);
    }
}

/// Sorting keeps the elements.
proof fn lemma_sorted_same_elements(s: Seq<ReadResult>)
    ensures
        forall|c: ReadResult| #[trigger] sorted_seq(s).contains(c) <==> s.contains(c),
    decreases s.len(),
{
    if s.len() > 0 {
        let t = s.drop_last();
        let x = s.last();
        lemma_sorted_same_elements(t);
        let u = sorted_seq(t);
        let p = crate::order::prefix_le(u, x) as int;
        lemma_prefix_le_bound(u, x);
        assert forall|c: ReadResult| #[trigger] sorted_seq(s).contains(c) <==> s.contains(c) by {
            lemma_contains_last(s, c);
            let w = u.insert(p, x);
            assert(sorted_seq(s) == w);
            if w.contains(c) {
                let i = choose|i: int| 0 <= i < w.len() && w[i] == c;
                if i < p {
                    assert(u[i] == c);
                    assert(u.contains(c));
                } else if i > p {
                    assert(u[i - 1] == c);
                    assert(u.contains(c));
                }
            }
            if u.contains(c) {
                let i = choose|i: int| 0 <= i < u.len() && u[i] == c;
                if i < p {
                    assert(w[i] == c);
                } else {
                    assert(w[i + 1] == c);
                }
            }
            if c == x {
                assert(w[p] == c);
            }
        }
    }
}

proof fn lemma_prefix_le_bound(s: Seq<ReadResult>, x: ReadResult)
    ensures
        crate::order::prefix_le(s, x) <= s.len(),
    decreases s.len(),
{
    if s.len() > 0 {
        lemma_prefix_le_bound(s.drop_first(), x);
    }
}

/// A fixture directory whose children hold exactly one kind of recognized
/// input, no subdirectory and nothing unreadable yields exactly one test
/// case, named after the directory.
pub proof fn lemma_leaf_yields_one_case(e: DirEntryInfo, exp: Seq<char>, act: Seq<char>)
    requires
        e.canonical is Ok,
        e.name matches Some(n) && ident_ok(n@),
        e.listing matches Ok(v) && leaf_shaped(v@),
    ensures
        fixture_units(e, exp, act).len() == 1,
        fixture_units(e, exp, act)[0] matches UnitView::Case { name, .. } && name == e.name->Some_0@,
{
    let v = e.listing->Ok_0@;
    let canon = e.canonical->Ok_0@;
    lemma_sorted_same_elements(v);
    lemma_scan_finds(sorted_seq(v), canon);
    assert(no_unreadable(sorted_seq(v)) == no_unreadable(v));
    assert(no_dirs(sorted_seq(v)) == no_dirs(v));
    assert(forall|k: InputKind| has_input(sorted_seq(v), k) == has_input(v, k));
}

/// A fixture directory whose children are subdirectories only, at least one
/// and all readable, yields a group named after it whose members are the
/// units of exactly its subdirectories, each built the same way.
pub proof fn lemma_group_yields_nested_group(e: DirEntryInfo, exp: Seq<char>, act: Seq<char>)
    requires
        e.canonical is Ok,
        e.name matches Some(n) && ident_ok(n@),
        e.listing matches Ok(v) && group_shaped(v@),
    ensures
        ({
            let v = e.listing->Ok_0@;
            let dirs = scan(sorted_seq(v), e.canonical->Ok_0@).dirs;
            &&& fixture_units(e, exp, act) == seq![UnitView::Open(e.name->Some_0@)] + dirs_units(v, dirs, dirs.len() as int, exp, act)
                + seq![UnitView::Close]
            &&& forall|d: DirEntryInfo| #[trigger] dirs.contains(d) <==> (v.contains(Ok::<DirEntryInfo, String>(d)) && d.is_dir == Ok::<bool, String>(true))
        }),
{
    let v = e.listing->Ok_0@;
    let canon = e.canonical->Ok_0@;
    lemma_sorted_same_elements(v);
    lemma_scan_finds(sorted_seq(v), canon);
    assert(no_unreadable(sorted_seq(v)) == no_unreadable(v));
    assert(no_dirs(sorted_seq(v)) == no_dirs(v));
    assert(forall|k: InputKind| has_input(sorted_seq(v), k) == has_input(v, k));
}

/// A fixture directory whose children fit neither shape yields exactly one
/// diagnostic, which names it.
pub proof fn lemma_invalid_yields_one_diagnostic(e: DirEntryInfo, exp: Seq<char>, act: Seq<char>)
    requires
        e.canonical is Ok,
        e.name matches Some(n) && ident_ok(n@),
        e.listing matches Ok(v) && !leaf_shaped(v@) && !group_shaped(v@),
    ensures
        fixture_units(e, exp, act) == seq![
            UnitView::Diagnostic(
                invalid_message(e.canonical->Ok_0@, scan(sorted_seq(e.listing->Ok_0@), e.canonical->Ok_0@).errors),
            ),
        ],
{
    let v = e.listing->Ok_0@;
    let canon = e.canonical->Ok_0@;
    lemma_sorted_same_elements(v);
    lemma_scan_finds(sorted_seq(v), canon);
    assert(no_unreadable(sorted_seq(v)) == no_unreadable(v));
    assert(no_dirs(sorted_seq(v)) == no_dirs(v));
    assert(forall|k: InputKind| has_input(sorted_seq(v), k) == has_input(v, k));
}

/// Every fixture directory yields at least one unit, whatever its contents.
pub proof fn lemma_fixture_yields_units(e: DirEntryInfo, exp: Seq<char>, act: Seq<char>)
    ensures
        fixture_units(e, exp, act).len() >= 1,
{
}

/// The units of a list of root entries are those of its parts, one after
/// the other: no entry changes what another yields.
pub proof fn lemma_siblings_independent(a: Seq<ReadResult>, b: Seq<ReadResult>, root: Seq<char>, exp: Seq<char>, act: Seq<char>)
    ensures
        root_units(a + b, root, exp, act) == root_units(a, root, exp, act) + root_units(b, root, exp, act),
    decreases b.len(),
{
    if b.len() == 0 {
        assert(a + b =~= a);
        assert(root_units(b, root, exp, act) =~= seq![]);
        assert(root_units(a, root, exp, act) + seq![] =~= root_units(a, root, exp, act));
    } else {
        lemma_siblings_independent(a, b.drop_last(), root, exp, act);
        assert((a + b).drop_last() =~= a + b.drop_last());
        assert((a + b).last() == b.last());
        let tail = match b.last() {
            Err(e) => seq![UnitView::Diagnostic(crate::fixtures::root_error(root, e@))],
            Ok(d) => fixture_units(d, exp, act),
        };
        assert(root_units(a + b, root, exp, act) == root_units(a + b.drop_last(), root, exp, act) + tail);
        assert(root_units(b, root, exp, act) == root_units(b.drop_last(), root, exp, act) + tail);
        assert(root_units(a, root, exp, act) + root_units(b.drop_last(), root, exp, act) + tail =~= root_units(a, root, exp, act)
            + (root_units(b.drop_last(), root, exp, act) + tail));
    }
}

/// Each root entry yields its units in its own place: there are as many
/// blocks of units as entries, each at least one unit long.
pub proof fn lemma_root_units_one_block_each(s: Seq<ReadResult>, root: Seq<char>, exp: Seq<char>, act: Seq<char>)
    ensures
        root_units(s, root, exp, act).len() >= s.len(),
    decreases s.len(),
{
    if s.len() > 0 {
        lemma_root_units_one_block_each(s.drop_last(), root, exp, act);
        if let Ok(d) = s.last() {
            lemma_fixture_yields_units(d, exp, act);
        }
    }
}

} // verus!
