use did_you_actually_do_that::verdict::{aggregate_verdicts, worst_verdict};
use did_you_actually_do_that::Verdict;

#[test]
fn test_verdict_trustworthiness() {
    assert!(Verdict::Confirmed.is_trustworthy());
    assert!(!Verdict::Refuted.is_trustworthy());
    assert!(!Verdict::Inconclusive.is_trustworthy());
    assert!(!Verdict::Unverifiable.is_trustworthy());
}

#[test]
fn aggregate_of_nothing_is_unverifiable() {
    assert_eq!(aggregate_verdicts(&vec![]), Verdict::Unverifiable);
}

#[test]
fn aggregate_all_confirmed_is_confirmed() {
    assert_eq!(aggregate_verdicts(&vec![Verdict::Confirmed]), Verdict::Confirmed);
    assert_eq!(
        aggregate_verdicts(&vec![Verdict::Confirmed, Verdict::Confirmed, Verdict::Confirmed]),
        Verdict::Confirmed
    );
}

#[test]
fn aggregate_one_refuted_vetoes() {
    assert_eq!(
        aggregate_verdicts(&vec![Verdict::Confirmed, Verdict::Refuted, Verdict::Confirmed]),
        Verdict::Refuted
    );
    assert_eq!(
        aggregate_verdicts(&vec![Verdict::Unverifiable, Verdict::Unverifiable, Verdict::Refuted]),
        Verdict::Refuted
    );
    assert_eq!(
        aggregate_verdicts(&vec![Verdict::Refuted, Verdict::Inconclusive]),
        Verdict::Refuted
    );
    assert_eq!(aggregate_verdicts(&vec![Verdict::Refuted]), Verdict::Refuted);
}

#[test]
fn aggregate_all_unverifiable_is_unverifiable() {
    assert_eq!(
        aggregate_verdicts(&vec![Verdict::Unverifiable, Verdict::Unverifiable]),
        Verdict::Unverifiable
    );
}

#[test]
fn aggregate_mixture_is_inconclusive() {
    assert_eq!(
        aggregate_verdicts(&vec![Verdict::Confirmed, Verdict::Unverifiable]),
        Verdict::Inconclusive
    );
    assert_eq!(
        aggregate_verdicts(&vec![Verdict::Inconclusive, Verdict::Inconclusive]),
        Verdict::Inconclusive
    );
    assert_eq!(
        aggregate_verdicts(&vec![Verdict::Confirmed, Verdict::Inconclusive]),
        Verdict::Inconclusive
    );
}

#[test]
fn aggregate_does_not_depend_on_order() {
    let orders = [
        vec![Verdict::Confirmed, Verdict::Unverifiable, Verdict::Refuted],
        vec![Verdict::Confirmed, Verdict::Refuted, Verdict::Unverifiable],
        vec![Verdict::Unverifiable, Verdict::Confirmed, Verdict::Refuted],
        vec![Verdict::Unverifiable, Verdict::Refuted, Verdict::Confirmed],
        vec![Verdict::Refuted, Verdict::Confirmed, Verdict::Unverifiable],
        vec![Verdict::Refuted, Verdict::Unverifiable, Verdict::Confirmed],
    ];
    for order in orders.iter() {
        assert_eq!(aggregate_verdicts(order), Verdict::Refuted);
    }
    assert_eq!(
        aggregate_verdicts(&vec![Verdict::Unverifiable, Verdict::Confirmed]),
        aggregate_verdicts(&vec![Verdict::Confirmed, Verdict::Unverifiable])
    );
}

#[test]
fn worse_prefers_refuted_then_inconclusive_then_unverifiable() {
    assert_eq!(Verdict::Confirmed.worse(Verdict::Confirmed), Verdict::Confirmed);
    assert_eq!(Verdict::Confirmed.worse(Verdict::Unverifiable), Verdict::Unverifiable);
    assert_eq!(Verdict::Unverifiable.worse(Verdict::Confirmed), Verdict::Unverifiable);
    assert_eq!(Verdict::Unverifiable.worse(Verdict::Inconclusive), Verdict::Inconclusive);
    assert_eq!(Verdict::Inconclusive.worse(Verdict::Unverifiable), Verdict::Inconclusive);
    assert_eq!(Verdict::Inconclusive.worse(Verdict::Refuted), Verdict::Refuted);
    assert_eq!(Verdict::Refuted.worse(Verdict::Confirmed), Verdict::Refuted);
}

#[test]
fn worst_verdict_of_a_run() {
    assert_eq!(worst_verdict(&vec![]), Verdict::Confirmed);
    assert_eq!(
        worst_verdict(&vec![Verdict::Confirmed, Verdict::Unverifiable, Verdict::Confirmed]),
        Verdict::Unverifiable
    );
    assert_eq!(
        worst_verdict(&vec![Verdict::Inconclusive, Verdict::Refuted, Verdict::Unverifiable]),
        Verdict::Refuted
    );
}

#[test]
fn exit_codes() {
    assert_eq!(Verdict::Confirmed.exit_code(), 0);
    assert_eq!(Verdict::Refuted.exit_code(), 1);
    assert_eq!(Verdict::Inconclusive.exit_code(), 2);
    assert_eq!(Verdict::Unverifiable.exit_code(), 2);
}

#[test]
fn names_and_symbols() {
    assert_eq!(Verdict::Confirmed.name(), "Confirmed");
    assert_eq!(Verdict::Refuted.name(), "Refuted");
    assert_eq!(Verdict::Inconclusive.name(), "Inconclusive");
    assert_eq!(Verdict::Unverifiable.name(), "Unverifiable");
    assert_eq!(Verdict::Confirmed.symbol(), "✓");
    assert_eq!(Verdict::Refuted.symbol(), "✗");
    assert_eq!(Verdict::Inconclusive.symbol(), "?");
    assert_eq!(Verdict::Unverifiable.symbol(), "⊘");
}
