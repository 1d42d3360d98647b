use osu_twitchbot::beatmap::BeatmapStatus;
use osu_twitchbot::mods::{
    arrange, comes_first, display_uppercased, mods_to_bitflag, order_mods, order_uppercased,
    parse_stable_mods, rank_of, same_mods, split_acronyms, text_first, GameplayMods, ModInfo,
};
use osu_twitchbot::stable::mods_of_mask;

fn named(acronym: &str) -> ModInfo {
    ModInfo { acronym: acronym.to_string(), settings: None }
}

fn names_of(mods: &[ModInfo]) -> Vec<String> {
    mods.iter().map(|m| m.acronym.clone()).collect()
}

#[test]
fn hidden_comes_before_double_time() {
    assert_eq!(order_mods("DTHD"), "HDDT");
    assert_eq!(order_mods("HDDT"), "HDDT");
}

#[test]
fn display_order_follows_the_places() {
    assert_eq!(order_mods("APRXNFPFSDDCHTNCDTHRFLHDEZ"), "EZHDFLHRDTNCHTDCSDPFNFRXAP");
}

#[test]
fn recognised_acronyms_are_ordered_whatever_the_input_order() {
    assert_eq!(order_mods("HRHDDT"), "HDHRDT");
    assert_eq!(order_mods("DTHRHD"), "HDHRDT");
    assert_eq!(order_mods("HDDTHR"), "HDHRDT");
}

#[test]
fn input_is_taken_to_upper_case() {
    assert_eq!(order_mods("hddt"), "HDDT");
    assert_eq!(order_mods("dtHd"), "HDDT");
    assert_eq!(order_uppercased("hddt"), "dthd");
}

#[test]
fn what_has_no_place_comes_last() {
    assert_eq!(order_mods("SOHD"), "HDSO");
    assert_eq!(order_mods("TDSO"), "SOTD");
    assert_eq!(order_mods("SOTD"), "SOTD");
    assert_eq!(order_mods("TDHDSO"), "HDSOTD");
    assert_eq!(order_mods("SOTDHD"), "HDSOTD");
    assert_eq!(order_mods(""), "");
}

#[test]
fn an_acronym_is_shown_as_often_as_it_came() {
    assert_eq!(order_mods("HDHD"), "HDHD");
    assert_eq!(order_mods("DTHDDT"), "HDDTDT");
    assert_eq!(order_mods("SOHDSO"), "HDSOSO");
}

#[test]
fn letters_of_two_acronyms_make_no_third() {
    assert_eq!(order_mods("SDTD"), "SDTD");
    assert_eq!(order_mods("TDSD"), "SDTD");
    assert_eq!(order_mods("TDCL"), "CLTD");
    assert_eq!(order_mods("CLTD"), "CLTD");
    assert_eq!(order_mods("THDT"), "DTTH");
}

#[test]
fn a_single_letter_at_the_end_is_an_acronym_of_its_own() {
    assert_eq!(order_mods("HDX"), "HDX");
    assert_eq!(order_mods("XHD"), "DXH");
    assert_eq!(order_mods("X"), "X");
}

#[test]
fn every_order_of_the_same_acronyms_is_shown_alike() {
    let names = ["TD", "SD", "HD", "SO"];
    let mut seen: Vec<String> = Vec::new();
    for a in 0..4 {
        for b in 0..4 {
            for c in 0..4 {
                for d in 0..4 {
                    let picks = [a, b, c, d];
                    if (0..4).all(|k| picks.contains(&k)) {
                        let text: String = picks.iter().map(|k| names[*k]).collect();
                        seen.push(order_mods(&text));
                    }
                }
            }
        }
    }
    assert_eq!(seen.len(), 24);
    assert!(seen.iter().all(|shown| shown == "HDSDSOTD"));
}

#[test]
fn acronyms_are_arranged_by_rank_and_then_by_text() {
    let cs = |s: &str| s.chars().collect::<Vec<char>>();
    assert_eq!(rank_of(&cs("EZ")), 0);
    assert_eq!(rank_of(&cs("SD")), 8);
    assert_eq!(rank_of(&cs("AP")), 12);
    assert_eq!(rank_of(&cs("TD")), 13);
    assert_eq!(rank_of(&cs("")), 13);
    assert!(text_first(&cs("CL"), &cs("TD")));
    assert!(!text_first(&cs("TD"), &cs("CL")));
    assert!(text_first(&cs("T"), &cs("TD")));
    assert!(!text_first(&cs("TD"), &cs("T")));
    assert!(text_first(&cs("TD"), &cs("TD")));
    assert!(comes_first(&cs("AP"), &cs("AA")));
    assert!(!comes_first(&cs("AA"), &cs("AP")));
    assert!(comes_first(&cs("AA"), &cs("AB")));
    let sorted = arrange(&vec![cs("10K"), cs("TD"), cs("AP"), cs("EZ"), cs("TD")]);
    assert_eq!(sorted, vec![cs("EZ"), cs("AP"), cs("10K"), cs("TD"), cs("TD")]);
    assert_eq!(split_acronyms(&cs("HDDTX")), vec![cs("HD"), cs("DT"), cs("X")]);
    assert!(split_acronyms(&cs("")).is_empty());
    assert_eq!(display_uppercased(&vec![cs("TD"), cs("SD")]), "SDTD");
    assert_eq!(display_uppercased(&vec![]), "NoMod");
}

#[test]
fn sudden_death_with_touch_device_is_shown_as_such() {
    let mods = parse_stable_mods(32 | 4);
    assert_eq!(names_of(&mods), vec!["SD", "TD"]);
    assert_eq!(mods_of_mask(32 | 4).mods_string, "SDTD");
    let listed = GameplayMods::from_mods(vec![named("TD"), named("SD")]);
    assert_eq!(listed.mods_string, "SDTD");
    let turned = GameplayMods::from_mods(vec![named("sd"), named("td")]);
    assert_eq!(turned.mods_string, "SDTD");
    let long = GameplayMods::from_mods(vec![named("10K"), named("HD")]);
    assert_eq!(long.mods_string, "HD10K");
    let upper = GameplayMods::from_uppercased(vec![named("TD"), named("SD")]);
    assert_eq!(upper.mods_string, "SDTD");
    assert_eq!(names_of(&upper.mods), vec!["TD", "SD"]);
}

#[test]
fn double_time_and_hidden_bits_give_hd_dt() {
    let mods = parse_stable_mods(64 | 8);
    assert_eq!(names_of(&mods), vec!["DT", "HD"]);
    assert_eq!(mods_of_mask(64 | 8).mods_string, "HDDT");
}

#[test]
fn nightcore_hides_double_time() {
    let mods = parse_stable_mods(512 | 64);
    assert_eq!(names_of(&mods), vec!["NC"]);
    let alone = parse_stable_mods(512);
    assert_eq!(names_of(&alone), vec!["NC"]);
    let plain = parse_stable_mods(64);
    assert_eq!(names_of(&plain), vec!["DT"]);
}

#[test]
fn perfect_hides_sudden_death() {
    let mods = parse_stable_mods(16384 | 32);
    assert_eq!(names_of(&mods), vec!["PF"]);
    let plain = parse_stable_mods(32);
    assert_eq!(names_of(&plain), vec!["SD"]);
}

#[test]
fn every_bit_has_its_acronym_in_table_order() {
    let all = 2 | 1 | 256 | 16 | 32 | 16384 | 64 | 512 | 8 | 1024 | 128 | 8192 | 4096 | 4;
    let mods = parse_stable_mods(all);
    assert_eq!(
        names_of(&mods),
        vec!["EZ", "NF", "HT", "HR", "PF", "NC", "HD", "FL", "RX", "AP", "SO", "TD"]
    );
    assert!(mods.iter().all(|m| m.settings.is_none()));
}

#[test]
fn no_bit_gives_no_modifier() {
    assert!(parse_stable_mods(0).is_empty());
    assert!(parse_stable_mods(2048).is_empty());
    let none = mods_of_mask(0);
    assert!(none.mods.is_empty());
    assert_eq!(none.mods_string, "NoMod");
}

#[test]
fn modifiers_from_a_list_keep_the_list() {
    let made = GameplayMods::from_mods(vec![named("dt"), named("HD")]);
    assert_eq!(names_of(&made.mods), vec!["dt", "HD"]);
    assert_eq!(made.mods_string, "HDDT");
    let empty = GameplayMods::from_mods(vec![]);
    assert_eq!(empty.mods_string, "NoMod");
    assert_eq!(GameplayMods::none(), empty);
}

#[test]
fn modifiers_compare_by_list_settings_and_display() {
    let a = GameplayMods::from_mods(vec![named("HD"), named("DT")]);
    let b = GameplayMods::from_mods(vec![named("HD"), named("DT")]);
    let c = GameplayMods::from_mods(vec![named("DT"), named("HD")]);
    let d = GameplayMods::from_mods(vec![
        named("HD"),
        ModInfo { acronym: "DT".to_string(), settings: Some("{\"speed_change\":1.2}".to_string()) },
    ]);
    assert!(a.same_as(&b));
    assert!(!a.same_as(&c));
    assert!(!a.same_as(&d));
    assert!(a.same_as(&a.duplicate()));
    assert!(same_mods(&Some(a.duplicate()), &Some(b)));
    assert!(!same_mods(&Some(a), &None));
    assert!(same_mods(&None, &None));
    assert!(named("HD").same_as(&named("HD").duplicate()));
    assert!(!named("HD").same_as(&named("hd")));
}

#[test]
fn calculator_mask_joins_the_bits() {
    assert_eq!(mods_to_bitflag(&None), 0);
    assert_eq!(mods_to_bitflag(&Some(GameplayMods::none())), 0);
    let played = GameplayMods::from_mods(vec![named("HD"), named("NC"), named("XX")]);
    assert_eq!(mods_to_bitflag(&Some(played)), 8 | 64 | 512);
    let perfect = GameplayMods::from_mods(vec![named("PF"), named("NF"), named("SO")]);
    assert_eq!(mods_to_bitflag(&Some(perfect)), 32 | 16384 | 1 | 4096);
    let rest = GameplayMods::from_mods(vec![
        named("EZ"),
        named("TD"),
        named("HR"),
        named("SD"),
        named("DT"),
        named("RX"),
        named("HT"),
        named("FL"),
        named("AP"),
    ]);
    assert_eq!(mods_to_bitflag(&Some(rest)), 2 | 4 | 16 | 32 | 64 | 128 | 256 | 1024 | 8192);
    let lower = GameplayMods::from_mods(vec![named("hd")]);
    assert_eq!(mods_to_bitflag(&Some(lower)), 0);
}

#[test]
fn stable_code_four_is_ranked() {
    assert_eq!(BeatmapStatus::from_stable_code(4), BeatmapStatus::Ranked);
}

#[test]
fn stable_codes_map_by_their_table() {
    let expected = [
        (0, BeatmapStatus::Unknown),
        (1, BeatmapStatus::NotSubmitted),
        (2, BeatmapStatus::StablePending),
        (3, BeatmapStatus::Unknown),
        (4, BeatmapStatus::Ranked),
        (5, BeatmapStatus::Approved),
        (6, BeatmapStatus::Qualified),
        (7, BeatmapStatus::Loved),
        (8, BeatmapStatus::Unknown),
        (-1, BeatmapStatus::Unknown),
        (-3, BeatmapStatus::Unknown),
        (i32::MAX, BeatmapStatus::Unknown),
    ];
    for (code, status) in expected {
        assert_eq!(BeatmapStatus::from_stable_code(code), status);
    }
}

#[test]
fn lazer_codes_map_by_their_table() {
    let expected = [
        (-4, BeatmapStatus::NotSubmitted),
        (-3, BeatmapStatus::Unknown),
        (-2, BeatmapStatus::Graveyard),
        (-1, BeatmapStatus::Wip),
        (0, BeatmapStatus::Pending),
        (1, BeatmapStatus::Ranked),
        (2, BeatmapStatus::Approved),
        (3, BeatmapStatus::Qualified),
        (4, BeatmapStatus::Loved),
        (5, BeatmapStatus::Unknown),
        (i32::MIN, BeatmapStatus::Unknown),
    ];
    for (code, status) in expected {
        assert_eq!(BeatmapStatus::from_lazer_code(code), status);
    }
}

#[test]
fn statuses_have_their_words() {
    assert_eq!(BeatmapStatus::Unknown.to_text(), "Unknown");
    assert_eq!(BeatmapStatus::NotSubmitted.to_text(), "Local/Not Submitted");
    assert_eq!(BeatmapStatus::Wip.to_text(), "WIP");
    assert_eq!(BeatmapStatus::Pending.to_text(), "Pending");
    assert_eq!(BeatmapStatus::Ranked.to_text(), "Ranked");
    assert_eq!(BeatmapStatus::Approved.to_text(), "Approved");
    assert_eq!(BeatmapStatus::Qualified.to_text(), "Qualified");
    assert_eq!(BeatmapStatus::Loved.to_text(), "Loved");
    assert_eq!(BeatmapStatus::Graveyard.to_text(), "Graveyard");
    assert_eq!(BeatmapStatus::StablePending.to_text(), "Pending/Graveyard");
}

#[test]
fn default_values_are_empty() {
    assert_eq!(ModInfo::default(), ModInfo { acronym: String::new(), settings: None });
    assert_eq!(GameplayMods::default(), GameplayMods { mods: vec![], mods_string: String::new() });
}
