use vstd::prelude::*;
use vstd::string::StringExecFns;

use crate::fixtures::{units_view, InputKind, Unit, UnitView};
use crate::outside::{str_literal_value, string_literal};

verus! {

/// Fragments of the generated code that name the host's test attribute,
/// its embedding macros and its runtime library.
pub struct Harness {
    /// The attribute that marks a generated function as a test.
    pub tag: String,
    /// The macro that compiles an `input.rs` into the test.
    pub source_loader: String,
    /// The macro that embeds the bytes of an `input.bin`.
    pub bytes_loader: String,
    /// The macro that embeds the text of an `input.txt`.
    pub text_loader: String,
    /// The bounds, after `Fn(..)`, of the closure that supplies the input.
    pub input_bounds: String,
    /// The body of the driver function in the default mode: it runs the
    /// function under test while catching panics, renders the outcome in its
    /// debug form and compares it with the baseline.
    pub normal_body: String,
    /// The body of the driver function in plaintext mode: it renders the
    /// result with its display form, without catching panics.
    pub plaintext_body: String,
}

/// `super::` written `n` times.
pub open spec fn supers(n: nat) -> Seq<char>
    decreases n,
{
    if n == 0 {
        seq![]
    } else {
        supers((n - 1) as nat) + "super::"@
    }
}

/// How many groups are open after the units `s`.
pub open spec fn depth(s: Seq<UnitView>) -> nat
    decreases s.len(),
{
    if s.len() == 0 {
        0
    } else {
        let d = depth(s.drop_last());
        match s.last() {
            UnitView::Open(_) => d + 1,
            UnitView::Close => if d > 0 { (d - 1) as nat } else { 0 },
            _ => d,
        }
    }
}

pub open spec fn loader(p: Harness, k: InputKind) -> Seq<char> {
    match k {
        InputKind::Source => p.source_loader@,
        InputKind::Bytes => p.bytes_loader@,
        InputKind::Text => p.text_loader@,
    }
}

/// Literal texts standing in a unit's code: for a case those of its input,
/// baseline and actual paths, for a diagnostic that of its message.
pub type Lits = (Seq<char>, Seq<char>, Seq<char>);

/// `l` holds string literals whose values are what the unit `u` names.
pub open spec fn lits_fit(u: UnitView, l: Lits) -> bool {
    match u {
        UnitView::Case { name: _, kind: _, input, expected, actual } => str_literal_value(l.0) == Some(input)
            && str_literal_value(l.1) == Some(expected) && str_literal_value(l.2) == Some(actual),
        UnitView::Diagnostic(m) => str_literal_value(l.0) == Some(m),
        _ => true,
    }
}

/// The test function of one case, inside `d` open groups: it hands the
/// input, the baseline's path and the actual file's path (as the literals
/// `l`) to the function under test, reached through one `super::` per
/// enclosing module.
pub open spec fn case_code(p: Harness, b: Seq<char>, d: nat, name: Seq<char>, kind: InputKind, l: Lits) -> Seq<char> {
    p.tag@ + " fn "@ + name + "() { "@ + supers(d + 1) + b + "(( |"@ + name
        + ": &mut std::option::Option<_>| { "@ + name + ".replace("@ + loader(p, kind) + "!("@ + l.0
        + ")); }, "@ + l.1 + ", "@ + l.2 + ", )) } "@
}

pub open spec fn unit_code(p: Harness, b: Seq<char>, d: nat, u: UnitView, l: Lits) -> Seq<char> {
    match u {
        UnitView::Case { name, kind, input: _, expected: _, actual: _ } => case_code(p, b, d, name, kind, l),
        UnitView::Diagnostic(_) => "::core::compile_error! { "@ + l.0 + " } "@,
        UnitView::Open(n) => "mod "@ + n + " { "@,
        UnitView::Close => "} "@,
    }
}

/// The code of the units `s`, one after another, with the literal texts
/// `ls` (one entry per unit).
pub open spec fn render_with(p: Harness, b: Seq<char>, s: Seq<UnitView>, ls: Seq<Lits>) -> Seq<char>
    decreases s.len(),
{
    if s.len() == 0 || ls.len() != s.len() {
        Seq::<char>::empty()
    } else {
        render_with(p, b, s.drop_last(), ls.drop_last()) + unit_code(p, b, depth(s.drop_last()), s.last(), ls.last())
    }
}

/// Each unit's literals have the values the unit names.
pub open spec fn all_fit(s: Seq<UnitView>, ls: Seq<Lits>) -> bool {
    ls.len() == s.len() && forall|i: int| 0 <= i < s.len() ==> lits_fit(#[trigger] s[i], ls[i])
}

/// `code` is the code of the units `s`, one after another, each with string
/// literals of the right values.
pub open spec fn renders(p: Harness, b: Seq<char>, s: Seq<UnitView>, code: Seq<char>) -> bool {
    exists|ls: Seq<Lits>| all_fit(s, ls) && #[trigger] render_with(p, b, s, ls) == code
}

fn append_supers(s: &mut String, n: usize)
    ensures
        final(s)@ == old(s)@ + supers(n as nat),
{
    let mut i: usize = 0;
    while i < n
        invariant
            i <= n,
            s@ == old(s)@ + supers(i as nat),
        decreases n - i,
    {
        s.append("super::");
        i = i + 1;
    }
}

fn case_text(p: &Harness, b: &String, d: usize, name: &String, kind: InputKind, input: &String, expected: &String, actual: &String) -> (r: (String, Ghost<Lits>))
    requires
        d < usize::MAX,
    ensures
        r.0@ == case_code(*p, b@, d as nat, name@, kind, r.1@),
        str_literal_value(r.1@.0) == Some(input@),
        str_literal_value(r.1@.1) == Some(expected@),
        str_literal_value(r.1@.2) == Some(actual@),
{
    let mut s = String::from_str(p.tag.as_str());
    s.append(" fn ");
    s.append(name.as_str());
    s.append("() { ");
    append_supers(&mut s, d + 1);
    s.append(b.as_str());
    s.append("(( |");
    s.append(name.as_str());
    s.append(": &mut std::option::Option<_>| { ");
    s.append(name.as_str());
    s.append(".replace(");
    match kind {
        InputKind::Source => s.append(p.source_loader.as_str()),
        InputKind::Bytes => s.append(p.bytes_loader.as_str()),
        InputKind::Text => s.append(p.text_loader.as_str()),
    }
    s.append("!(");
    let l0 = string_literal(input.as_str());
    s.append(l0.as_str());
    s.append(")); }, ");
    let l1 = string_literal(expected.as_str());
    s.append(l1.as_str());
    s.append(", ");
    let l2 = string_literal(actual.as_str());
    s.append(l2.as_str());
    s.append(", )) } ");
    (s, Ghost((l0@, l1@, l2@)))
}

/// The generated code of a sequence of units: test functions, build errors,
/// and a module for each group.
pub fn render_units(p: &Harness, b: &String, units: &Vec<Unit>) -> (r: String)
    ensures
        renders(*p, b@, units_view(units@), r@),
{
    let ghost all = units_view(units@);
    let mut s = String::new();
    let mut d: usize = 0;
    let mut i: usize = 0;
    let ghost mut ls: Seq<Lits> = Seq::empty();
    assert(all.take(0) =~= Seq::<UnitView>::empty());
    while i < units.len()
        invariant
            i <= units@.len(),
            all == units_view(units@),
            all_fit(all.take(i as int), ls),
            render_with(*p, b@, all.take(i as int), ls) == s@,
            d as nat == depth(all.take(i as int)),
            d <= i,
        decreases units@.len() - i,
    {
        assert(all.take(i + 1).drop_last() =~= all.take(i as int));
        assert(all.take(i + 1).last() == units@[i as int]@);
        let ghost before = s@;
        let ghost mut l: Lits = (Seq::empty(), Seq::empty(), Seq::empty());
        match &units[i] {
            Unit::Case { name, kind, input, expected, actual } => {
                let (c, lits) = case_text(p, b, d, name, *kind, input, expected, actual);
                proof {
                    l = lits@;
                }
                s.append(c.as_str());
            },
            Unit::Diagnostic(m) => {
                let lit = string_literal(m.as_str());
                proof {
                    l = (lit@, Seq::empty(), Seq::empty());
                }
                s.append("::core::compile_error! { ");
                s.append(lit.as_str());
                s.append(" } ");
            },
            Unit::Open(n) => {
                s.append("mod ");
                s.append(n.as_str());
                s.append(" { ");
                d = d + 1;
            },
            Unit::Close => {
                s.append("} ");
                if d > 0 {
                    d = d - 1;
                }
            },
        }
        assert(lits_fit(all.take(i + 1).last(), l));
        assert(s@ == before + unit_code(*p, b@, depth(all.take(i as int)), all.take(i + 1).last(), l));
        proof {
            let t = all.take(i + 1);
            let ls2 = ls.push(l);
            assert(ls2.drop_last() =~= ls);
            assert(t.drop_last() =~= all.take(i as int));
            assert forall|k: int| 0 <= k < t.len() implies lits_fit(#[trigger] t[k], ls2[k]) by {
                if k < i {
                    assert(t[k] == all.take(i as int)[k]);
                }
            }
            ls = ls2;
        }
        i = i + 1;
    }
    assert(all.take(i as int) =~= all);
    assert(render_with(*p, b@, all, ls) == s@);
    s
}

/// The attribute that marks a generated function as a test.
pub const TEST_TAG: &'static str = "#[test]";

/// The macro that compiles an `input.rs` into a test.
pub const SOURCE_LOADER: &'static str = "include";

/// The macro that embeds the bytes of an `input.bin`.
pub const BYTES_LOADER: &'static str = "include_bytes";

/// The macro that embeds the text of an `input.txt`.
pub const TEXT_LOADER: &'static str = "include_str";

/// The bounds of the closure that supplies a test case's input: it must be
/// safe to carry across a caught panic.
pub const INPUT_BOUNDS: &'static str = " + std::panic::RefUnwindSafe + std::panic::UnwindSafe";

/// The body of the driver in the default mode. `<String> Panic` payloads come
/// from formatted panics (including `unwrap`/`expect`), `&str` ones from plain
/// `panic!("...")`; both are reported as text.
pub const NORMAL_BODY: &'static str = r#"
    let result = format!(
        "{:#?}\n",
        std::panic::catch_unwind(
            move || {
                let mut temp = std::option::Option::None;
                provider(&mut temp);
                to_call(temp.unwrap())
            }
        ).map_err(|err| err
            .downcast::<String>()
            .or_else(|err|
                if let Some(string) = err.downcast_ref::<&str>() {
                    std::result::Result::Ok(std::boxed::Box::new(string.to_string()))
                } else {
                    std::result::Result::Err(("<!String> Panic", err))
                }
            )
            .map(|ok| ("<String> Panic", ok))
        )
    );
    if std::path::Path::new(expected_file).is_file() {
        let expected = std::fs::read_to_string(expected_file)
            .unwrap_or_else(|err|
                panic!("Reading expected from {}: {:?}", expected_file, err)
            );
        assert_eq!(result, expected)
    } else {
        std::fs::write(actual_file, result.as_bytes())
            .unwrap_or_else(|err|
                panic!("Writing actual to {}: {:?}", actual_file, err)
            );
        panic!("No expected value set: {}", actual_file)
    }
"#;

/// The body of the driver in plaintext mode: panics are not caught.
pub const PLAINTEXT_BODY: &'static str = r#"
    let mut temp = std::option::Option::None;
    provider(&mut temp);
    let result = format!("{}", to_call(temp.unwrap()));
    if std::path::Path::new(expected_file).is_file() {
        let expected = std::fs::read_to_string(expected_file)
            .unwrap_or_else(|err|
                panic!("Reading expected from {}: {:?}", expected_file, err)
            );
        assert_eq!(result, expected)
    } else {
        std::fs::write(actual_file, result.as_bytes())
            .unwrap_or_else(|err|
                panic!("Writing actual to {}: {:?}", actual_file, err)
            );
        panic!("No expected value set: {}", actual_file)
    }
"#;

/// The fragments of generated code for the standard test harness.
pub fn harness() -> (h: Harness)
    ensures
        h.tag@ == TEST_TAG@,
        h.source_loader@ == SOURCE_LOADER@,
        h.bytes_loader@ == BYTES_LOADER@,
        h.text_loader@ == TEXT_LOADER@,
        h.input_bounds@ == INPUT_BOUNDS@,
        h.normal_body@ == NORMAL_BODY@,
        h.plaintext_body@ == PLAINTEXT_BODY@,
{
    Harness {
        tag: String::from_str(TEST_TAG),
        source_loader: String::from_str(SOURCE_LOADER),
        bytes_loader: String::from_str(BYTES_LOADER),
        text_loader: String::from_str(TEXT_LOADER),
        input_bounds: String::from_str(INPUT_BOUNDS),
        normal_body: String::from_str(NORMAL_BODY),
        plaintext_body: String::from_str(PLAINTEXT_BODY),
    }
}

} // verus!
