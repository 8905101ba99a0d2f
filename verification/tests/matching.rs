use epic_issue::matcher::{evaluate, has_label};
use epic_issue::models::{Issue, Label, Operator};

fn labels(names: &[&str]) -> Vec<Label> {
    let mut all = Vec::new();
    for (at, name) in names.iter().enumerate() {
        all.push(Label::new(at as u64, name.to_string()));
    }
    all
}

fn requested(names: &[&str]) -> Vec<String> {
    names.iter().map(|name| name.to_string()).collect()
}

#[test]
fn or_fails_when_no_requested_label_is_present() {
    let issue = labels(&["bug"]);
    assert!(!evaluate(Operator::Or, &requested(&["epic", "feature"]), &issue));
}

#[test]
fn not_holds_when_no_requested_label_is_present() {
    let issue = labels(&["bug"]);
    assert!(evaluate(Operator::Not, &requested(&["epic", "feature"]), &issue));
}

#[test]
fn and_holds_for_no_requested_labels_whatever_the_issue_has() {
    assert!(evaluate(Operator::And, &requested(&[]), &labels(&["bug"])));
    assert!(evaluate(Operator::And, &requested(&[]), &labels(&[])));
    assert!(evaluate(Operator::And, &requested(&[]), &labels(&["epic", "feature", "bug"])));
}

#[test]
fn nothing_requested_gives_true_false_true() {
    for issue in [labels(&[]), labels(&["bug"]), labels(&["a", "b", "c"])] {
        assert!(evaluate(Operator::And, &requested(&[]), &issue));
        assert!(!evaluate(Operator::Or, &requested(&[]), &issue));
        assert!(evaluate(Operator::Not, &requested(&[]), &issue));
    }
}

#[test]
fn and_asks_for_every_requested_label() {
    let issue = labels(&["bug", "epic", "feature"]);
    assert!(evaluate(Operator::And, &requested(&["epic", "feature"]), &issue));
    assert!(evaluate(Operator::And, &requested(&["feature", "epic"]), &issue));
    assert!(!evaluate(Operator::And, &requested(&["epic", "story"]), &issue));
    assert!(!evaluate(Operator::And, &requested(&["epic"]), &labels(&[])));
}

#[test]
fn and_does_not_ask_that_every_label_is_requested() {
    let issue = labels(&["bug", "epic"]);
    assert!(evaluate(Operator::And, &requested(&["epic"]), &issue));
}

#[test]
fn or_asks_for_one_requested_label() {
    let issue = labels(&["bug", "epic"]);
    assert!(evaluate(Operator::Or, &requested(&["story", "epic"]), &issue));
    assert!(evaluate(Operator::Or, &requested(&["bug"]), &issue));
    assert!(!evaluate(Operator::Or, &requested(&["story"]), &issue));
    assert!(!evaluate(Operator::Or, &requested(&["story"]), &labels(&[])));
}

#[test]
fn not_asks_that_no_requested_label_is_present() {
    let issue = labels(&["bug", "epic"]);
    assert!(!evaluate(Operator::Not, &requested(&["story", "epic"]), &issue));
    assert!(evaluate(Operator::Not, &requested(&["story", "feature"]), &issue));
    assert!(evaluate(Operator::Not, &requested(&["story"]), &labels(&[])));
}

#[test]
fn names_are_compared_as_they_stand() {
    let issue = labels(&["Epic", " bug"]);
    assert!(!evaluate(Operator::Or, &requested(&["epic"]), &issue));
    assert!(!evaluate(Operator::Or, &requested(&["bug"]), &issue));
    assert!(!evaluate(Operator::Or, &requested(&["Ep"]), &issue));
    assert!(evaluate(Operator::Or, &requested(&["Epic"]), &issue));
    assert!(evaluate(Operator::Or, &requested(&[" bug"]), &issue));
}

#[test]
fn repeats_and_order_change_nothing() {
    let issue = labels(&["epic", "bug", "epic"]);
    for operator in [Operator::And, Operator::Or, Operator::Not] {
        let once = evaluate(operator, &requested(&["epic", "bug"]), &issue);
        let twice = evaluate(operator, &requested(&["bug", "epic", "bug", "epic"]), &issue);
        assert_eq!(once, twice);
    }
}

#[test]
fn or_and_not_are_opposites() {
    let issues = [labels(&[]), labels(&["bug"]), labels(&["epic", "bug"])];
    let lists = [requested(&[]), requested(&["epic"]), requested(&["story", "bug"])];
    for issue in &issues {
        for list in &lists {
            assert_ne!(
                evaluate(Operator::Or, list, issue),
                evaluate(Operator::Not, list, issue)
            );
        }
    }
}

#[test]
fn has_label_finds_a_name_anywhere() {
    let issue = labels(&["a", "b", "c"]);
    assert!(has_label(&issue, &"a".to_string()));
    assert!(has_label(&issue, &"c".to_string()));
    assert!(!has_label(&issue, &"d".to_string()));
    assert!(!has_label(&[], &"a".to_string()));
}

#[test]
fn label_is_named_by_its_whole_name() {
    let label = Label::new(7, "epic".to_string());
    assert!(label.is_named(&"epic".to_string()));
    assert!(!label.is_named(&"epi".to_string()));
    assert!(!label.is_named(&"EPIC".to_string()));
    assert_eq!(label.name(), "epic");
    assert_eq!(label.id(), 7);
}

#[test]
fn issue_is_epic_by_its_labels() {
    let issue = Issue::new(1, labels(&["bug"]), 19);
    assert!(!issue.is_epic(Operator::Or, &requested(&["epic", "feature"])));
    assert!(issue.is_epic(Operator::Not, &requested(&["epic", "feature"])));
    assert!(issue.is_epic(Operator::And, &requested(&[])));
    assert!(issue.is_epic(Operator::Or, &requested(&["bug", "feature"])));
}
