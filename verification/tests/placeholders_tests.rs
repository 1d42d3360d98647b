use osu_twitchbot::beatmap::{BeatmapData, BeatmapStatus};
use osu_twitchbot::mods::{GameplayMods, ModInfo};
use osu_twitchbot::placeholders::{Placeholders, PpTexts};
use osu_twitchbot::preferences::{np_format_default, pp_format_default};

fn beatmap(id: i32) -> BeatmapData {
    BeatmapData {
        id,
        artist: "xi".to_string(),
        title: "FREEDOM DiVE".to_string(),
        difficulty_name: "FOUR DIMENSIONS".to_string(),
        creator: "Nakagawa-Kanon".to_string(),
        status: BeatmapStatus::Ranked,
        mods: Some(GameplayMods::from_mods(vec![
            ModInfo { acronym: "DT".to_string(), settings: None },
            ModInfo { acronym: "HD".to_string(), settings: None },
        ])),
        osu_file_path: None,
        songs_folder: None,
    }
}

fn five() -> PpTexts {
    PpTexts {
        pp_95: "301".to_string(),
        pp_97: "342".to_string(),
        pp_98: "371".to_string(),
        pp_99: "410".to_string(),
        pp_100: "467".to_string(),
    }
}

#[test]
fn sample_fills_the_default_format() {
    assert_eq!(
        Placeholders::sample().apply_np(&np_format_default()),
        "Artist - Title [Difficulty] (Creator) +NoMod | Ranked https://osu.ppy.sh/b/123456"
    );
}

#[test]
fn sample_pp_fills_the_default_format() {
    assert_eq!(
        Placeholders::sample_pp().apply_pp(&pp_format_default()),
        "95%: 350pp | 97%: 400pp | 98%: 450pp | 99%: 500pp | 100%: 550pp +NoMod"
    );
}

#[test]
fn values_come_from_the_snapshot() {
    let values = Placeholders::from_beatmap(&beatmap(129891));
    assert_eq!(values.id, Some("129891".to_string()));
    assert_eq!(values.artist, Some("xi".to_string()));
    assert_eq!(values.title, Some("FREEDOM DiVE".to_string()));
    assert_eq!(values.diff, Some("FOUR DIMENSIONS".to_string()));
    assert_eq!(values.creator, Some("Nakagawa-Kanon".to_string()));
    assert_eq!(values.status, Some("Ranked".to_string()));
    assert_eq!(values.link, Some("https://osu.ppy.sh/b/129891".to_string()));
    assert_eq!(values.mods, Some("+HDDT".to_string()));
    assert_eq!(values.pp_95, None);
    assert_eq!(values.pp_100, None);
}

#[test]
fn unsubmitted_beatmap_has_no_link() {
    let local = Placeholders::from_beatmap(&beatmap(0));
    assert_eq!(local.id, Some("0".to_string()));
    assert_eq!(local.link, Some(String::new()));
    let negative = Placeholders::from_beatmap(&beatmap(-7));
    assert_eq!(negative.id, Some("-7".to_string()));
    assert_eq!(negative.link, Some(String::new()));
    let lowest = Placeholders::from_beatmap(&beatmap(i32::MIN));
    assert_eq!(lowest.id, Some("-2147483648".to_string()));
    let highest = Placeholders::from_beatmap(&beatmap(i32::MAX));
    assert_eq!(highest.link, Some("https://osu.ppy.sh/b/2147483647".to_string()));
}

#[test]
fn snapshot_without_modifier_data_shows_none() {
    let mut bare = beatmap(1);
    bare.mods = None;
    assert_eq!(Placeholders::from_beatmap(&bare).mods, Some(String::new()));
    assert_eq!(
        Placeholders::from_beatmap(&bare).apply_np("{title} {mods} | {status}"),
        "FREEDOM DiVE | Ranked"
    );
}

#[test]
fn white_space_is_tidied() {
    assert_eq!(
        Placeholders::from_beatmap(&beatmap(0)).apply_np("  {artist}\t-\n{title}   {link} "),
        "xi - FREEDOM DiVE"
    );
}

#[test]
fn every_occurrence_is_replaced() {
    assert_eq!(
        Placeholders::from_beatmap(&beatmap(3)).apply_np("{id}{id} {id}"),
        "33 3"
    );
}

#[test]
fn absent_values_leave_their_placeholder() {
    assert_eq!(
        Placeholders::from_beatmap(&beatmap(3)).apply_pp("{pp_95} {mods} {title}"),
        "{pp_95} +HDDT {title}"
    );
    assert_eq!(Placeholders::default().apply_np("{id} {unknown}"), "{id} {unknown}");
}

#[test]
fn values_are_filled_in_order() {
    let mut values = Placeholders::default();
    values.id = Some("{artist}".to_string());
    values.artist = Some("A".to_string());
    values.mods = Some("{id}".to_string());
    assert_eq!(values.apply_np("{id} {mods}"), "A {id}");
}

#[test]
fn performance_values_are_added() {
    let values = Placeholders::from_beatmap(&beatmap(3)).with_pp(&five());
    assert_eq!(values.pp_95, Some("301".to_string()));
    assert_eq!(values.pp_97, Some("342".to_string()));
    assert_eq!(values.pp_98, Some("371".to_string()));
    assert_eq!(values.pp_99, Some("410".to_string()));
    assert_eq!(values.pp_100, Some("467".to_string()));
    assert_eq!(values.title, Some("FREEDOM DiVE".to_string()));
    assert_eq!(
        values.apply_pp(&pp_format_default()),
        "95%: 301pp | 97%: 342pp | 98%: 371pp | 99%: 410pp | 100%: 467pp +HDDT"
    );
}

#[test]
fn samples_hold_their_made_up_values() {
    let sample = Placeholders::sample();
    assert_eq!(sample.id, Some("123456".to_string()));
    assert_eq!(sample.link, Some("https://osu.ppy.sh/b/123456".to_string()));
    assert_eq!(sample.pp_95, None);
    let pp = Placeholders::sample_pp();
    assert_eq!(pp.id, None);
    assert_eq!(pp.mods, Some("+NoMod".to_string()));
    assert_eq!(pp.pp_98, Some("450".to_string()));
}
