use scrap_core::domain::classification::{Actionability, Severity};
use scrap_core::domain::smell::{Smell, SmellCategory};
use scrap_core::domain::threshold::ThresholdMode;
use scrap_core::domain::types::Span;

const ALL: [SmellCategory; 5] = [
    SmellCategory::ZeroAssertion,
    SmellCategory::TautologicalAssertion,
    SmellCategory::NoOpIo,
    SmellCategory::SurfaceOnlyIo,
    SmellCategory::LargeExample,
];

#[test]
fn smell_category_wire_strings_are_snake_case() {
    let wires = ["zero_assertion", "tautological_assertion", "no_op_io", "surface_only_io", "large_example"];
    for (cat, wire) in ALL.iter().zip(wires) {
        assert_eq!(cat.as_wire_str(), wire);
    }
}

#[test]
fn smell_new_picks_default_message_for_category() {
    let s = Smell::new(SmellCategory::ZeroAssertion, Severity::High, Actionability::AutoRefactor, 10, None);
    assert_eq!(s.ai_actionability_message, Smell::default_message(SmellCategory::ZeroAssertion));
    assert_eq!(s.penalty, 10);
}

#[test]
fn smell_with_message_uses_supplied_text() {
    let s = Smell::with_message(
        SmellCategory::LargeExample,
        Severity::Moderate,
        Actionability::ManualSplit,
        4,
        None,
        "Split this 47-line test into three focused examples.",
    );
    assert_eq!(s.ai_actionability_message, "Split this 47-line test into three focused examples.");
    assert_eq!(s.category, SmellCategory::LargeExample);
    assert_eq!(s.penalty, 4);
}

#[test]
fn default_message_is_nonempty_for_every_category() {
    for cat in ALL {
        assert!(!Smell::default_message(cat).is_empty());
    }
}

#[test]
fn smell_new_carries_none_span() {
    let s = Smell::new(SmellCategory::ZeroAssertion, Severity::High, Actionability::AutoRefactor, 10, None);
    assert!(s.span.is_none());
}

#[test]
fn smell_new_carries_supplied_span() {
    let span = Span::new(7, 9, 1, 1);
    let s = Smell::new(SmellCategory::TautologicalAssertion, Severity::High, Actionability::AutoRefactor, 10, Some(span));
    assert_eq!(s.span, Some(span));
}

#[test]
fn smell_with_message_carries_supplied_span() {
    let span = Span::new(42, 51, 1, 1);
    let s = Smell::with_message(
        SmellCategory::LargeExample,
        Severity::Moderate,
        Actionability::ManualSplit,
        4,
        Some(span),
        "Split this 47-line test into three focused examples.",
    );
    assert_eq!(s.span, Some(span));
    assert_eq!(s.ai_actionability_message, "Split this 47-line test into three focused examples.");
}

#[test]
fn default_messages_are_the_documented_suggestions() {
    assert_eq!(Smell::default_message(SmellCategory::ZeroAssertion), "Add assertions for the function's observable effects.");
    assert_eq!(Smell::default_message(SmellCategory::LargeExample), "Split this example into focused tests or extract setup helpers.");
}

#[test]
fn severity_wire_strings_are_lower_case() {
    assert_eq!(Severity::Low.as_wire_str(), "low");
    assert_eq!(Severity::Moderate.as_wire_str(), "moderate");
    assert_eq!(Severity::High.as_wire_str(), "high");
}

#[test]
fn default_is_default_mode() {
    assert_eq!(ThresholdMode::default(), ThresholdMode::Default);
}

#[test]
fn threshold_mode_wire_strings() {
    assert_eq!(ThresholdMode::Strict.as_wire_str(), "strict");
    assert_eq!(ThresholdMode::Default.as_wire_str(), "default");
    assert_eq!(ThresholdMode::Lenient.as_wire_str(), "lenient");
}

#[test]
fn ordering_strict_default_lenient() {
    assert!(ThresholdMode::Strict < ThresholdMode::Default);
    assert!(ThresholdMode::Default < ThresholdMode::Lenient);
}
