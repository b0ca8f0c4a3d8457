use chat_delivery::records::{
    MySelf, New, NewSelfassessable, NewSubmissionSelfAssessable, Role, Selfassessable,
};

fn column(n: usize) -> Vec<String> {
    (0..n).map(|i| format!("a{}", i)).collect()
}

fn test_of(rows: usize) -> NewSelfassessable {
    NewSelfassessable {
        questions: column(rows),
        correct: column(rows),
        incorrect1: column(rows),
        incorrect2: None,
        incorrect3: None,
        incorrect4: None,
    }
}

#[test]
fn myself_new_keeps_id_and_role() {
    let me = MySelf::new(12, Role::teacher);
    assert_eq!(me.id, 12);
    assert_eq!(me.role, Role::teacher);
}

#[test]
fn new_trait_makes_the_same_identity() {
    let me: MySelf = New::new(3, Role::admin);
    assert_eq!(me, MySelf::new(3, Role::admin));
}

#[test]
fn validate_accepts_a_rectangular_test() {
    assert!(test_of(0).validate());
    assert!(test_of(3).validate());
    let mut full = test_of(2);
    full.incorrect2 = Some(column(2));
    full.incorrect3 = Some(column(2));
    full.incorrect4 = Some(column(2));
    assert!(full.validate());
}

#[test]
fn validate_rejects_a_short_column() {
    let mut t = test_of(3);
    t.incorrect1 = column(2);
    assert!(!t.validate());
    let mut t = test_of(3);
    t.questions = column(4);
    assert!(!t.validate());
    let mut t = test_of(3);
    t.incorrect2 = Some(column(1));
    assert!(!t.validate());
    let mut t = test_of(3);
    t.incorrect3 = Some(column(0));
    assert!(!t.validate());
    let mut t = test_of(3);
    t.incorrect4 = Some(column(5));
    assert!(!t.validate());
}

fn task(correct: &str, wrong: &[&str]) -> Selfassessable {
    Selfassessable {
        correct: correct.to_string(),
        incorrect1: wrong[0].to_string(),
        incorrect2: wrong.get(1).map(|s| s.to_string()),
        incorrect3: wrong.get(2).map(|s| s.to_string()),
        incorrect4: wrong.get(3).map(|s| s.to_string()),
    }
}

fn submission(answers: &[&str]) -> NewSubmissionSelfAssessable {
    NewSubmissionSelfAssessable {
        assessment_id: 1,
        answers: answers.iter().map(|s| s.to_string()).collect(),
    }
}

#[test]
fn index_of_tells_the_answers_apart() {
    let t = task("4", &["3", "5", "22", "four"]);
    assert_eq!(t.index_of("4"), 1);
    assert_eq!(t.index_of("3"), 2);
    assert_eq!(t.index_of("5"), 3);
    assert_eq!(t.index_of("22"), 4);
    assert_eq!(t.index_of("four"), 5);
    assert_eq!(t.index_of("44"), 0);
    assert_eq!(t.index_of(""), 0);
    let short = task("yes", &["no"]);
    assert_eq!(short.index_of("no"), 2);
    assert_eq!(short.index_of("maybe"), 0);
    let twice = task("a", &["a", "a"]);
    assert_eq!(twice.index_of("a"), 1);
}

#[test]
fn get_answers_joins_the_indices() {
    let tasks = vec![
        task("4", &["3", "5"]),
        task("Paris", &["Rome", "Oslo", "Lima"]),
        task("yes", &["no"]),
    ];
    assert_eq!(submission(&["4", "Lima", "perhaps"]).get_answers(&tasks), "1,4,0");
    assert_eq!(submission(&["5"]).get_answers(&tasks), "3");
    assert_eq!(submission(&[]).get_answers(&tasks), "");
    assert_eq!(submission(&["3", "Paris", "no", "extra"]).get_answers(&tasks), "2,1,2");
    assert_eq!(submission(&["4", "Paris"]).get_answers(&Vec::new()), "");
}
