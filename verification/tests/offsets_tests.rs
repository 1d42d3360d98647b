use osu_twitchbot::offsets::{
    get_latest_version, parse_version_numbers, select_version, version_before,
};

fn keys(list: &[&str]) -> Vec<String> {
    list.iter().map(|s| s.to_string()).collect()
}

#[test]
fn absent_version_falls_back_to_the_highest() {
    let table = keys(&["2024.1001.0", "2024.1101.0"]);
    let chosen = select_version(&table, &Some("2024.1201.0".to_string())).unwrap();
    assert_eq!(table[chosen], "2024.1101.0");
    let swapped = keys(&["2024.1101.0", "2024.1001.0"]);
    let again = select_version(&swapped, &Some("2024.1201.0".to_string())).unwrap();
    assert_eq!(swapped[again], "2024.1101.0");
}

#[test]
fn present_version_is_taken() {
    let table = keys(&["2024.1001.0", "2024.1101.0", "2025.101.0"]);
    assert_eq!(select_version(&table, &Some("2024.1001.0".to_string())), Some(0));
    assert_eq!(select_version(&table, &Some("2024.1101.0".to_string())), Some(1));
}

#[test]
fn unknown_version_takes_the_latest() {
    let table = keys(&["2024.1001.0", "2025.101.0", "2024.1101.0"]);
    assert_eq!(select_version(&table, &None), Some(1));
    assert_eq!(get_latest_version(&table), Some(1));
}

#[test]
fn empty_table_selects_nothing() {
    assert_eq!(select_version(&vec![], &None), None);
    assert_eq!(select_version(&vec![], &Some("1.0".to_string())), None);
    assert_eq!(get_latest_version(&vec![]), None);
}

#[test]
fn versions_compare_as_numbers() {
    assert_eq!(get_latest_version(&keys(&["2024.999.0", "2024.1000.0"])), Some(1));
    assert_eq!(get_latest_version(&keys(&["10.0", "9.9"])), Some(0));
    assert_eq!(get_latest_version(&keys(&["1.2", "1.2.0"])), Some(1));
    assert_eq!(get_latest_version(&keys(&["1.2.0", "1.2"])), Some(0));
}

#[test]
fn of_equal_versions_the_last_is_the_latest() {
    assert_eq!(get_latest_version(&keys(&["1.0", "01.0", "1.00"])), Some(2));
    assert_eq!(get_latest_version(&keys(&["x", "y"])), Some(1));
}

#[test]
fn version_numbers_skip_what_is_no_number() {
    assert_eq!(parse_version_numbers("2024.1101.0"), vec![2024, 1101, 0]);
    assert_eq!(parse_version_numbers("2024.1101.0-lazer"), vec![2024, 1101]);
    assert_eq!(parse_version_numbers("a.+7..4294967295.4294967296.-1"), vec![7, 4294967295]);
    assert_eq!(parse_version_numbers(""), Vec::<u32>::new());
    assert_eq!(parse_version_numbers("007"), vec![7]);
}

#[test]
fn number_lists_compare_from_the_left() {
    assert!(version_before(&vec![1, 2], &vec![1, 3]));
    assert!(!version_before(&vec![1, 3], &vec![1, 2]));
    assert!(version_before(&vec![1], &vec![1, 0]));
    assert!(!version_before(&vec![1, 0], &vec![1]));
    assert!(!version_before(&vec![1, 2], &vec![1, 2]));
    assert!(version_before(&vec![], &vec![0]));
    assert!(!version_before(&vec![], &vec![]));
    assert!(version_before(&vec![2, 9, 9], &vec![3]));
}
