use fn_fixture::{golden_step, outcome_tag, GoldenAction, Outcome};

fn is_pass(a: &GoldenAction) -> bool {
    matches!(a, GoldenAction::Pass)
}

#[test]
fn missing_baseline_writes_the_payload_then_passes_once_promoted() {
    let rendered = "42\n".to_string();
    let written = match golden_step(&rendered, None) {
        GoldenAction::WriteActual(s) => s,
        _ => panic!("expected the actual file to be written"),
    };
    assert_eq!(written, "42\n");
    assert!(is_pass(&golden_step(&rendered, Some(written))));
}

#[test]
fn comparison_is_exact() {
    let rendered = "42\n".to_string();
    match golden_step(&rendered, Some("42".to_string())) {
        GoldenAction::Mismatch { expected, actual } => {
            assert_eq!(expected, "42");
            assert_eq!(actual, "42\n");
        },
        _ => panic!("expected a mismatch"),
    }
}

#[test]
fn same_run_twice_gives_the_same_outcome() {
    let rendered = "Ok(\n    7,\n)\n".to_string();
    for baseline in [None, Some("x".to_string()), Some(rendered.clone())] {
        let first = golden_step(&rendered, baseline.clone());
        let second = golden_step(&rendered, baseline);
        match (first, second) {
            (GoldenAction::Pass, GoldenAction::Pass) => {},
            (GoldenAction::WriteActual(a), GoldenAction::WriteActual(b)) => assert_eq!(a, b),
            (GoldenAction::Mismatch { expected: e1, actual: a1 }, GoldenAction::Mismatch { expected: e2, actual: a2 }) => {
                assert_eq!(e1, e2);
                assert_eq!(a1, a2);
            },
            _ => panic!("outcomes differ"),
        }
    }
}

#[test]
fn outcomes_are_tagged_three_ways() {
    assert_eq!(outcome_tag(&Outcome::Returned), None);
    assert_eq!(outcome_tag(&Outcome::PanicMessage), Some("<String> Panic"));
    assert_eq!(outcome_tag(&Outcome::PanicOpaque), Some("<!String> Panic"));
}
