use vstd::prelude::*;
use vstd::string::StringExecFns;

use crate::text::str_eq;

verus! {

/// What a test case does once its payload is rendered, given what the
/// baseline file holds.
///
/// The generated tests make this decision in their own process, through the
/// driver bodies `NORMAL_BODY` and `PLAINTEXT_BODY`; they do not call this
/// library. The items below state that decision so that its laws can be
/// proved; the code generator does not run them.
pub enum GoldenAction {
    /// The payload equals the baseline: the test passes.
    Pass,
    /// The payload differs from the baseline: the test fails showing both.
    Mismatch { expected: String, actual: String },
    /// There is no baseline: the payload is written to the actual file and
    /// the test fails.
    WriteActual(String),
}

pub enum GoldenActionView {
    Pass,
    Mismatch { expected: Seq<char>, actual: Seq<char> },
    WriteActual(Seq<char>),
}

impl View for GoldenAction {
    type V = GoldenActionView;

    open spec fn view(&self) -> GoldenActionView {
        match self {
            GoldenAction::Pass => GoldenActionView::Pass,
            GoldenAction::Mismatch { expected, actual } => GoldenActionView::Mismatch { expected: expected@, actual: actual@ },
            GoldenAction::WriteActual(s) => GoldenActionView::WriteActual(s@),
        }
    }
}

/// The golden-file comparison: exact equality with the baseline, or the
/// payload written out where there is none.
pub open spec fn golden_action(rendered: Seq<char>, baseline: Option<Seq<char>>) -> GoldenActionView {
    match baseline {
        None => GoldenActionView::WriteActual(rendered),
        Some(b) => if b == rendered {
            GoldenActionView::Pass
        } else {
            GoldenActionView::Mismatch { expected: b, actual: rendered }
        },
    }
}

/// The two files of a test case: the baseline and the actual output.
pub struct GoldenFiles {
    pub expected: Option<Seq<char>>,
    pub actual: Option<Seq<char>>,
}

/// The files after a run that rendered `rendered`: only the actual file is
/// ever written.
pub open spec fn after_run(f: GoldenFiles, rendered: Seq<char>) -> GoldenFiles {
    match golden_action(rendered, f.expected) {
        GoldenActionView::WriteActual(s) => GoldenFiles { actual: Some(s), ..f },
        _ => f,
    }
}

pub open spec fn passes(a: GoldenActionView) -> bool {
    a is Pass
}

/// Decides the outcome of one comparison, as the generated driver bodies
/// do (a model of their decision: generated tests do not call it).
pub fn golden_step(rendered: &String, baseline: Option<String>) -> (r: GoldenAction)
    ensures
        r@ == golden_action(rendered@, match baseline {
            Some(b) => Some(b@),
            None => None,
        }),
{
    match baseline {
        None => GoldenAction::WriteActual(String::from_str(rendered.as_str())),
        Some(b) => if str_eq(b.as_str(), rendered.as_str()) {
            GoldenAction::Pass
        } else {
            GoldenAction::Mismatch { expected: b, actual: String::from_str(rendered.as_str()) }
        },
    }
}

/// Running a test case twice with the same payload against the same files
/// gives the same outcome both times, and leaves the same actual file.
pub proof fn lemma_golden_idempotent(f: GoldenFiles, rendered: Seq<char>)
    ensures
        after_run(f, rendered).expected == f.expected,
        golden_action(rendered, after_run(f, rendered).expected) == golden_action(rendered, f.expected),
        after_run(after_run(f, rendered), rendered) == after_run(f, rendered),
{
}

/// Without a baseline the test fails and the actual file holds exactly the
/// payload; once that file is promoted to the baseline, the test passes.
pub proof fn lemma_missing_baseline_then_promoted(f: GoldenFiles, rendered: Seq<char>)
    requires
        f.expected is None,
    ensures
        !passes(golden_action(rendered, f.expected)),
        after_run(f, rendered).actual == Some(rendered),
        passes(golden_action(rendered, after_run(f, rendered).actual)),
{
}

/// How a run of the function under test ended.
pub enum Outcome {
    /// It returned normally.
    Returned,
    /// It panicked with a message, formatted or literal.
    PanicMessage,
    /// It panicked with a payload that holds no text.
    PanicOpaque,
}

pub open spec fn outcome_tag_of(o: Outcome) -> Option<Seq<char>> {
    match o {
        Outcome::Returned => None,
        Outcome::PanicMessage => Some("<String> Panic"@),
        Outcome::PanicOpaque => Some("<!String> Panic"@),
    }
}

/// The tag under which an outcome is rendered for comparison: none for a
/// returned value, which is rendered as it is. `NORMAL_BODY` writes these
/// same tags; generated tests do not call this function.
pub fn outcome_tag(o: &Outcome) -> (r: Option<&'static str>)
    ensures
        match r {
            Some(t) => outcome_tag_of(*o) == Some(t@),
            None => outcome_tag_of(*o) is None,
        },
{
    match o {
        Outcome::Returned => None,
        Outcome::PanicMessage => Some("<String> Panic"),
        Outcome::PanicOpaque => Some("<!String> Panic"),
    }
}

} // verus!
