use cloverleaf::handler::accepted_reply;
use cloverleaf::handler::failure_reply;
use cloverleaf::handler::rejected_reply;
use cloverleaf::handler::Outcome;
use cloverleaf::registry::is_known;
use cloverleaf::store::Experiment;
use cloverleaf::store::MemStore;
use cloverleaf::store::ResultRow;
use cloverleaf::store::StoreError;

fn exp(experiment_id: &str, scheme: &str) -> Experiment {
    Experiment { experiment_id: experiment_id.to_owned(), scheme: scheme.to_owned() }
}

#[test]
fn is_known_finds_exact_match() {
    let rows = vec![exp("alpha", "s1"), exp("beta", "s2")];
    assert!(is_known(&rows, "alpha"));
    assert!(is_known(&rows, "beta"));
    assert!(!is_known(&rows, "gamma"));
    assert!(!is_known(&rows, "alph"));
    assert!(!is_known(&rows, "alphaa"));
    assert!(!is_known(&rows, ""));
}

#[test]
fn is_known_ignores_the_scheme_column() {
    let rows = vec![exp("alpha", "beta")];
    assert!(is_known(&rows, "alpha"));
    assert!(!is_known(&rows, "beta"));
}

#[test]
fn is_known_on_empty_registry() {
    let rows: Vec<Experiment> = Vec::new();
    assert!(!is_known(&rows, "alpha"));
    assert!(!is_known(&rows, ""));
}

#[test]
fn is_known_does_not_normalize_whitespace() {
    let rows = vec![exp("alpha", "s1")];
    assert!(!is_known(&rows, " alpha"));
    assert!(!is_known(&rows, "alpha "));
    assert!(!is_known(&rows, "alpha\n"));
}

#[test]
fn reply_builders_render_the_outcome_table() {
    let accepted = accepted_reply("exp1");
    assert_eq!(accepted.outcome, Outcome::Accepted);
    assert_eq!(accepted.message, "Result posted for exp1 experiment.\n");
    assert_eq!(accepted.status(), 200);

    let rejected = rejected_reply("exp1");
    assert_eq!(rejected.outcome, Outcome::Rejected);
    assert_eq!(rejected.message, "'exp1' is an invalid experiment identifier.\n");
    assert_eq!(rejected.status(), 404);

    let failure = failure_reply(&StoreError::Decode("bad row".to_owned()));
    assert_eq!(failure.outcome, Outcome::Failure);
    assert_eq!(failure.message, "bad row");
    assert_eq!(failure.status(), 500);
}

#[test]
fn store_error_description_per_variant() {
    assert_eq!(StoreError::Connectivity("no route".to_owned()).description(), "no route");
    assert_eq!(StoreError::Query("syntax".to_owned()).description(), "syntax");
    assert_eq!(StoreError::Decode("not text".to_owned()).description(), "not text");
}

#[test]
fn append_result_keeps_order_and_registry() {
    let mut store = MemStore::new();
    store.experiments.push(exp("exp1", "schemeA"));
    store.append_result(ResultRow {
        experiment_id: "exp1".to_owned(),
        result: "first".to_owned(),
    });
    store.append_result(ResultRow {
        experiment_id: "exp1".to_owned(),
        result: "second".to_owned(),
    });
    assert_eq!(store.experiments.len(), 1);
    assert_eq!(store.results.len(), 2);
    assert_eq!(store.results[0].result, "first");
    assert_eq!(store.results[1].result, "second");
}
