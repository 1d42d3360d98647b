use osu_twitchbot::scan::{find_pattern, parse_pattern};

#[test]
fn finds_lowest_offset() {
    let data = [1u8, 2, 3, 2, 3, 4];
    assert_eq!(find_pattern(&data, &[2, 3], &[true, true]), Some(1));
}

#[test]
fn wildcard_positions_are_not_compared() {
    let data = [9u8, 7, 5, 1, 0, 3];
    assert_eq!(find_pattern(&data, &[7, 0, 1], &[true, false, true]), Some(1));
    assert_eq!(find_pattern(&data, &[1, 0xFF, 3], &[true, false, true]), Some(3));
}

#[test]
fn pattern_longer_than_buffer_is_not_found() {
    assert_eq!(find_pattern(&[1u8, 2], &[1, 2, 3], &[true, true, true]), None);
}

#[test]
fn absent_pattern_is_not_found() {
    assert_eq!(find_pattern(&[1u8, 2, 3, 4], &[2, 4], &[true, true]), None);
}

#[test]
fn mask_of_other_length_is_not_found() {
    assert_eq!(find_pattern(&[1u8, 2, 3], &[1, 2], &[true]), None);
}

#[test]
fn empty_pattern_matches_at_the_start() {
    assert_eq!(find_pattern(&[1u8, 2, 3], &[], &[]), Some(0));
    assert_eq!(find_pattern(&[], &[], &[]), Some(0));
}

#[test]
fn all_wildcards_match_at_the_start() {
    assert_eq!(find_pattern(&[5u8, 6, 7], &[0, 0], &[false, false]), Some(0));
}

#[test]
fn match_at_the_very_end_is_found() {
    assert_eq!(find_pattern(&[5u8, 6, 7], &[6, 7], &[true, true]), Some(1));
}

#[test]
fn signature_text_is_read_token_by_token() {
    let (pattern, mask) = parse_pattern("A1 ?? ff  0B\tzz");
    assert_eq!(pattern, vec![0xA1, 0, 0xFF, 0x0B, 0]);
    assert_eq!(mask, vec![true, false, true, true, true]);
}

#[test]
fn signature_tokens_follow_the_number_syntax() {
    let (pattern, mask) = parse_pattern("+F 100 0000ff -1 ? ???");
    assert_eq!(pattern, vec![0x0F, 0, 0xFF, 0, 0, 0]);
    assert_eq!(mask, vec![true, true, true, true, true, true]);
}

#[test]
fn empty_signature_has_no_tokens() {
    let (pattern, mask) = parse_pattern("   ");
    assert!(pattern.is_empty());
    assert!(mask.is_empty());
}
