use chat_delivery::store::ParticipantSet;

#[test]
fn from_rows_keeps_the_first_of_each() {
    let set = ParticipantSet::from_rows(vec![3, 1, 3, 2, 1, 3]);
    assert_eq!(set.to_vec(), vec![3, 1, 2]);
    assert_eq!(set.len(), 3);
    assert_eq!(set.get(0), 3);
    assert_eq!(set.get(2), 2);
}

#[test]
fn from_rows_without_repetitions_is_unchanged() {
    let set = ParticipantSet::from_rows(vec![5, 4, 9]);
    assert_eq!(set.to_vec(), vec![5, 4, 9]);
    assert_eq!(ParticipantSet::from_rows(vec![]).to_vec(), Vec::<u64>::new());
    assert_eq!(ParticipantSet::new().len(), 0);
}

#[test]
fn contains_finds_participants() {
    let set = ParticipantSet::from_rows(vec![5, 4, 9]);
    assert!(set.contains(5));
    assert!(set.contains(9));
    assert!(!set.contains(6));
    assert!(!ParticipantSet::new().contains(0));
}

#[test]
fn clone_keeps_the_participants() {
    let set = ParticipantSet::from_rows(vec![5, 4, 9, 4]);
    assert_eq!(set.clone().to_vec(), vec![5, 4, 9]);
    assert_eq!(set.clone(), set);
}
