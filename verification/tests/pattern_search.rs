use fsdr_blocks::packet::pattern_search::PatternSearch;

#[test]
fn empty_states_are_all_inactive() {
    let states = PatternSearch::<u8>::empty_active_states(3);
    assert_eq!(states.len(), 3);
    assert!(states.iter().all(|s| !*s));
    assert_eq!(PatternSearch::<u8>::empty_active_states(0).len(), 0);
}

#[test]
fn finds_pattern_then_dumps_what_follows() {
    let mut block = PatternSearch::<u8>::build(3, vec![0xaa, 0x55]);
    let input = [1u8, 2, 0xaa, 0x55, 10, 11, 12, 13, 14];
    let mut output = [0u8; 16];

    // The search stops right behind the pattern and writes nothing.
    let report = block.work(&input, &mut output, false);
    assert_eq!(report.consumed, 4);
    assert_eq!(report.produced, 0);
    assert!(!report.finished);
    assert_eq!(output, [0u8; 16]);

    // The next call copies the three items that follow.
    let report = block.work(&input[4..], &mut output, false);
    assert_eq!(report.consumed, 3);
    assert_eq!(report.produced, 3);
    assert_eq!(&output[..3], &[10, 11, 12]);
    assert_eq!(&output[3..], &[0u8; 13]);

    // Then it searches again.
    let report = block.work(&input[7..], &mut output, true);
    assert_eq!(report.consumed, 2);
    assert_eq!(report.produced, 0);
    assert!(report.finished);
}

#[test]
fn pattern_split_over_two_batches_is_found() {
    let mut block = PatternSearch::<u8>::build(1, vec![1, 2, 3]);
    let mut output = [0u8; 4];
    let report = block.work(&[9, 1, 2], &mut output, false);
    assert_eq!((report.consumed, report.produced), (3, 0));
    let report = block.work(&[3, 7, 8], &mut output, false);
    assert_eq!((report.consumed, report.produced), (1, 0));
    let report = block.work(&[7, 8], &mut output, false);
    assert_eq!((report.consumed, report.produced), (1, 1));
    assert_eq!(output[0], 7);
}

#[test]
fn overlapping_candidates_are_all_followed() {
    // The pattern starts anew inside a failed attempt.
    let mut block = PatternSearch::<u8>::build(1, vec![1, 1, 2]);
    let mut output = [0u8; 4];
    let report = block.work(&[1, 1, 1, 2, 5], &mut output, false);
    assert_eq!(report.consumed, 4);
    let report = block.work(&[5], &mut output, false);
    assert_eq!((report.consumed, report.produced), (1, 1));
    assert_eq!(output[0], 5);
}

#[test]
fn search_without_a_match_takes_everything() {
    let mut block = PatternSearch::<u8>::build(2, vec![0xff]);
    let mut output = [7u8; 2];
    let report = block.work(&[1, 2, 3, 4], &mut output, true);
    assert_eq!(report.consumed, 4);
    assert_eq!(report.produced, 0);
    assert!(report.finished);
    assert_eq!(output, [7, 7]);
}

#[test]
fn dump_is_limited_by_the_output() {
    let mut block = PatternSearch::<u8>::build(5, vec![1]);
    let mut none = [0u8; 0];
    assert_eq!(block.work(&[1], &mut none, false).consumed, 1);

    let mut small = [0u8; 2];
    let report = block.work(&[10, 11, 12, 13, 14, 15], &mut small, false);
    assert_eq!((report.consumed, report.produced), (2, 2));
    assert_eq!(small, [10, 11]);

    // Three are still owed.
    let mut large = [0u8; 8];
    let report = block.work(&[12, 13, 14, 15], &mut large, false);
    assert_eq!((report.consumed, report.produced), (3, 3));
    assert_eq!(&large[..4], &[12, 13, 14, 0]);

    // Back to searching: nothing is written.
    let report = block.work(&[15], &mut large, false);
    assert_eq!((report.consumed, report.produced), (1, 0));
}

#[test]
fn dump_is_limited_by_the_input() {
    let mut block = PatternSearch::<u8>::build(4, vec![1]);
    let mut output = [0u8; 8];
    block.work(&[1], &mut output, false);
    let report = block.work(&[20, 21], &mut output, true);
    assert_eq!((report.consumed, report.produced), (2, 2));
    assert!(report.finished);
    let report = block.work(&[22, 23, 24], &mut output, false);
    assert_eq!((report.consumed, report.produced), (2, 2));
    assert!(!report.finished);
    assert_eq!(&output[..2], &[22, 23]);
}

#[test]
fn dump_of_nothing_goes_straight_back_to_searching() {
    let mut block = PatternSearch::<u8>::build(0, vec![1, 2]);
    let mut output = [0u8; 4];
    assert_eq!(block.work(&[1, 2, 1, 2], &mut output, false).consumed, 2);
    // Nothing is owed: this call only changes state.
    let report = block.work(&[1, 2], &mut output, false);
    assert_eq!((report.consumed, report.produced), (0, 0));
    let report = block.work(&[1, 2], &mut output, false);
    assert_eq!((report.consumed, report.produced), (2, 0));
}

#[test]
fn empty_input_changes_nothing() {
    let mut block = PatternSearch::<u8>::build(1, vec![1, 2]);
    let mut output = [0u8; 1];
    block.work(&[1], &mut output, false);
    let report = block.work(&[], &mut output, false);
    assert_eq!((report.consumed, report.produced, report.finished), (0, 0, false));
    let report = block.work(&[], &mut output, true);
    assert!(report.finished);
    // The partial match is still there.
    assert_eq!(block.work(&[2, 9], &mut output, false).consumed, 1);
}
