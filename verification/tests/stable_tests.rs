use osu_twitchbot::beatmap::{BeatmapData, BeatmapStatus};
use osu_twitchbot::errors::MemoryError;
use osu_twitchbot::memory::{MemoryRegion, ProcessMemory};
use osu_twitchbot::offsets::{
    RulesetOffsets, StableBase, StableBeatmap, StableOffsets, StablePatterns, StatusOffsets,
};
use osu_twitchbot::stable::{join_path, read_live32, StableReader, PLAYING};

const ROOM: usize = 0x40000;
const ANCHOR: usize = ROOM + 0x100;
const RULES: usize = ROOM + 0x200;
const MAP: usize = ROOM + 0x1000;

struct Room {
    data: Vec<u8>,
}

impl Room {
    fn new() -> Room {
        Room { data: vec![0; 0x4000] }
    }

    fn put(&mut self, addr: usize, bytes: &[u8]) {
        let at = addr - ROOM;
        self.data[at..at + bytes.len()].copy_from_slice(bytes);
    }

    fn put_ptr(&mut self, addr: usize, value: usize) {
        self.put(addr, &(value as u32).to_le_bytes());
    }

    fn put_u32(&mut self, addr: usize, value: u32) {
        self.put(addr, &value.to_le_bytes());
    }

    fn put_i32(&mut self, addr: usize, value: i32) {
        self.put(addr, &value.to_le_bytes());
    }

    fn put_text(&mut self, slot: usize, object: usize, text: &str) {
        self.put_ptr(slot, object);
        let units: Vec<u16> = text.encode_utf16().collect();
        self.put_i32(object + 0x4, units.len() as i32);
        for (i, unit) in units.iter().enumerate() {
            self.put(object + 0x8 + 2 * i, &unit.to_le_bytes());
        }
    }

    fn memory(self) -> ProcessMemory {
        ProcessMemory::new(9, vec![MemoryRegion { start: ROOM, data: self.data }]).unwrap()
    }
}

fn table() -> StableOffsets {
    StableOffsets {
        patterns: StablePatterns {
            base: "F8 01 74 04 83 65".to_string(),
            ruleset: "7D 15 A1 ?? ?? ?? ?? 85 C0".to_string(),
        },
        base: StableBase { beatmap_ptr: -0xC },
        beatmap: StableBeatmap {
            artist: 0x18,
            title: 0x24,
            creator: 0x7C,
            difficulty: 0xAC,
            map_id: 0xC8,
            ranked_status: 0x12C,
            folder: 0x78,
            file: 0x90,
        },
        ruleset: RulesetOffsets {
            ptr_offset: 0xB,
            ptr_deref_offset: 0x4,
            play_container: 0x68,
            mods_base: 0x38,
            mods_ptr: 0x1C,
            mods_xor1: 0x8,
            mods_xor2: 0xC,
        },
        status: StatusOffsets { base_offset: -0x3C },
    }
}

fn with_signatures(room: &mut Room) {
    room.put(ANCHOR, &[0xF8, 0x01, 0x74, 0x04, 0x83, 0x65]);
    room.put(RULES, &[0x7D, 0x15, 0xA1, 1, 2, 3, 4, 0x85, 0xC0]);
}

fn with_map(room: &mut Room) {
    room.put_ptr(ANCHOR - 0xC, ROOM + 0x800);
    room.put_ptr(ROOM + 0x800, MAP);
    room.put_i32(MAP + 0xC8, 1811527);
    room.put_i32(MAP + 0x12C, 4);
    room.put_text(MAP + 0x18, ROOM + 0x2000, "Camellia");
    room.put_text(MAP + 0x24, ROOM + 0x2100, "GHOST");
    room.put_text(MAP + 0x7C, ROOM + 0x2200, "Kroytz");
    room.put_text(MAP + 0xAC, ROOM + 0x2300, "Extra");
    room.put_text(MAP + 0x78, ROOM + 0x2400, "711642 Camellia - GHOST");
    room.put_text(MAP + 0x90, ROOM + 0x2500, "Camellia - GHOST (Kroytz) [Extra].osu");
}

fn with_status(room: &mut Room, status: u32) {
    room.put_ptr(ANCHOR - 0x3C, ROOM + 0x900);
    room.put_u32(ROOM + 0x900, status);
}

fn with_mask(room: &mut Room, a: u32, b: u32) {
    room.put_ptr(RULES + 0xB, ROOM + 0xA00);
    room.put_ptr(ROOM + 0xA00 + 0x4, ROOM + 0xB00);
    room.put_ptr(ROOM + 0xB00 + 0x68, ROOM + 0xC00);
    room.put_ptr(ROOM + 0xC00 + 0x38, ROOM + 0xD00);
    room.put_ptr(ROOM + 0xD00 + 0x1C, ROOM + 0xE00);
    room.put_u32(ROOM + 0xE00 + 0x8, a);
    room.put_u32(ROOM + 0xE00 + 0xC, b);
}

fn reader() -> StableReader {
    StableReader::from_parts(table(), ANCHOR, RULES)
}

fn failed_sentence() -> String {
    "Failed to read memory: address range is not readable".to_string()
}

#[test]
fn both_anchors_are_found() {
    let mut room = Room::new();
    with_signatures(&mut room);
    let found = StableReader::new(&room.memory(), table()).unwrap();
    assert_eq!(found.base_addr(), ANCHOR);
    assert_eq!(found.ruleset_addr(), RULES);
}

#[test]
fn either_missing_signature_ends_the_search() {
    let mut no_ruleset = Room::new();
    no_ruleset.put(ANCHOR, &[0xF8, 0x01, 0x74, 0x04, 0x83, 0x65]);
    assert_eq!(
        StableReader::new(&no_ruleset.memory(), table()).unwrap_err(),
        MemoryError::PatternNotFound
    );
    let mut no_base = Room::new();
    no_base.put(RULES, &[0x7D, 0x15, 0xA1, 1, 2, 3, 4, 0x85, 0xC0]);
    assert_eq!(
        StableReader::new(&no_base.memory(), table()).unwrap_err(),
        MemoryError::PatternNotFound
    );
}

#[test]
fn stable_beatmap_fields_are_read() {
    let mut room = Room::new();
    with_map(&mut room);
    let data = reader().read_beatmap(&room.memory()).unwrap();
    assert_eq!(
        data,
        BeatmapData {
            id: 1811527,
            artist: "Camellia".to_string(),
            title: "GHOST".to_string(),
            difficulty_name: "Extra".to_string(),
            creator: "Kroytz".to_string(),
            status: BeatmapStatus::Ranked,
            mods: None,
            osu_file_path: Some(
                "711642 Camellia - GHOST/Camellia - GHOST (Kroytz) [Extra].osu".to_string()
            ),
            songs_folder: None,
        }
    );
}

#[test]
fn stable_client_without_beatmap_gives_the_unknown_snapshot() {
    assert_eq!(reader().read_beatmap(&Room::new().memory()).unwrap(), BeatmapData::unknown());
    let mut room = Room::new();
    room.put_ptr(ANCHOR - 0xC, ROOM + 0x800);
    assert_eq!(reader().read_beatmap(&room.memory()).unwrap(), BeatmapData::unknown());
}

#[test]
fn stable_links_that_cannot_be_read_are_errors() {
    let unset = StableReader::from_parts(table(), 0, RULES);
    assert_eq!(
        unset.read_beatmap(&Room::new().memory()).unwrap_err(),
        MemoryError::ReadFailed("Base address not set.".to_string())
    );
    let far = StableReader::from_parts(table(), 0x7000_0000, RULES);
    assert_eq!(
        far.read_beatmap(&Room::new().memory()).unwrap_err(),
        MemoryError::ReadFailed(format!("Failed to read beatmap pointer: {}", failed_sentence()))
    );
    let low = StableReader::from_parts(table(), 4, RULES);
    assert_eq!(
        low.read_beatmap(&Room::new().memory()).unwrap_err(),
        MemoryError::ReadFailed(format!("Failed to read beatmap pointer: {}", failed_sentence()))
    );
    let mut room = Room::new();
    room.put_ptr(ANCHOR - 0xC, 0x7000_0000);
    assert_eq!(
        reader().read_beatmap(&room.memory()).unwrap_err(),
        MemoryError::ReadFailed(format!("Failed to read beatmap: {}", failed_sentence()))
    );
}

#[test]
fn stable_fields_that_cannot_be_read_take_their_fallback() {
    let mut room = Room::new();
    room.put_ptr(ANCHOR - 0xC, ROOM + 0x800);
    room.put_ptr(ROOM + 0x800, ROOM + 0x3FF0);
    let data = reader().read_beatmap(&room.memory()).unwrap();
    assert_eq!(data.id, 0);
    assert_eq!(data.status, BeatmapStatus::Unknown);
    assert_eq!(data.artist, "?");
    assert_eq!(data.title, "?");
    assert_eq!(data.creator, "?");
    assert_eq!(data.difficulty_name, "?");
    assert_eq!(data.osu_file_path, None);
}

#[test]
fn file_path_needs_folder_and_file() {
    let mut room = Room::new();
    with_map(&mut room);
    room.put_ptr(MAP + 0x90, 0);
    assert_eq!(reader().read_beatmap(&room.memory()).unwrap().osu_file_path, None);
    let mut other = Room::new();
    with_map(&mut other);
    other.put_i32(ROOM + 0x2400 + 0x4, 0);
    assert_eq!(reader().read_beatmap(&other.memory()).unwrap().osu_file_path, None);
}

#[test]
fn paths_are_joined_with_one_separator() {
    assert_eq!(join_path("Songs", "a.osu"), "Songs/a.osu");
    assert_eq!(join_path("Songs/", "a.osu"), "Songs/a.osu");
    assert_eq!(join_path("Songs\\", "a.osu"), "Songs\\/a.osu");
    assert_eq!(join_path("", "a.osu"), "a.osu");
    assert_eq!(join_path("Songs", ""), "Songs/");
    assert_eq!(join_path("", ""), "");
    assert_eq!(join_path("a/b", "c/d.osu"), "a/b/c/d.osu");
}

#[test]
fn a_file_name_that_begins_at_the_root_stands_alone() {
    assert_eq!(join_path("Songs", "/a.osu"), "/a.osu");
    assert_eq!(join_path("Songs/", "/"), "/");
    assert_eq!(join_path("", "/a.osu"), "/a.osu");
}

#[test]
fn joined_paths_are_those_of_the_standard_library() {
    let folders = ["", "Songs", "Songs/", "Songs\\", "/", "a/b", "a//", "C:\\osu\\Songs"];
    let files = ["", "a.osu", "/a.osu", "x/a.osu", "\\a.osu", "/", "a b.osu"];
    for folder in folders {
        for file in files {
            let joined = std::path::Path::new(folder).join(file);
            assert_eq!(join_path(folder, file), joined.to_string_lossy());
        }
    }
}

#[test]
fn status_is_read_behind_its_pointer() {
    let mut room = Room::new();
    with_status(&mut room, 5);
    assert_eq!(reader().read_status(&room.memory()), Some(5));
    assert_eq!(reader().read_status(&Room::new().memory()), None);
    let mut dangling = Room::new();
    dangling.put_ptr(ANCHOR - 0x3C, 0x7000_0000);
    assert_eq!(reader().read_status(&dangling.memory()), None);
    assert_eq!(PLAYING, 2);
}

#[test]
fn modifiers_are_read_only_while_playing() {
    let mut playing = Room::new();
    with_status(&mut playing, 2);
    with_mask(&mut playing, 0x1234_5678, 0x1234_5678 ^ (64 | 8));
    let memory = playing.memory();
    assert_eq!(reader().read_mods_mask(&memory), Some(64 | 8));
    let mods = reader().read_mods(&memory).unwrap();
    assert_eq!(mods.mods_string, "HDDT");
    assert_eq!(mods.mods.len(), 2);
    let mut menu = Room::new();
    with_status(&mut menu, 5);
    with_mask(&mut menu, 0, 64);
    assert_eq!(reader().read_mods(&menu.memory()), None);
    let mut unknown = Room::new();
    with_mask(&mut unknown, 0, 64);
    assert_eq!(reader().read_mods(&unknown.memory()), None);
}

#[test]
fn play_without_modifiers_is_no_mod() {
    let mut room = Room::new();
    with_status(&mut room, 2);
    with_mask(&mut room, 0xABCD, 0xABCD);
    let mods = reader().read_mods(&room.memory()).unwrap();
    assert!(mods.mods.is_empty());
    assert_eq!(mods.mods_string, "NoMod");
}

#[test]
fn broken_chain_to_the_mask_gives_no_modifier_data() {
    let mut room = Room::new();
    with_status(&mut room, 2);
    with_mask(&mut room, 1, 2);
    room.put_ptr(ROOM + 0xC00 + 0x38, 0);
    assert_eq!(reader().read_mods_mask(&room.memory_again()), None);
    assert_eq!(reader().read_mods(&room.memory()), None);
}

impl Room {
    fn memory_again(&self) -> ProcessMemory {
        ProcessMemory::new(9, vec![MemoryRegion { start: ROOM, data: self.data.clone() }]).unwrap()
    }
}

#[test]
fn snapshot_while_playing_carries_the_modifiers() {
    let mut room = Room::new();
    with_map(&mut room);
    with_status(&mut room, 2);
    with_mask(&mut room, 0, 512 | 64 | 16);
    let data = reader().read_beatmap(&room.memory()).unwrap();
    let mods = data.mods.unwrap();
    assert_eq!(mods.mods_string, "HRNC");
    assert_eq!(mods.mods[0].acronym, "HR");
    assert_eq!(mods.mods[1].acronym, "NC");
}

#[test]
fn live_pointers_are_neither_null_nor_unreadable() {
    let mut room = Room::new();
    room.put_ptr(ROOM + 0x10, 0x1234);
    let memory = room.memory();
    assert_eq!(read_live32(&memory, ROOM, 0x10), Some(0x1234));
    assert_eq!(read_live32(&memory, ROOM, 0x20), None);
    assert_eq!(read_live32(&memory, 0x7000_0000, 0), None);
}

#[test]
fn mask_may_be_stored_as_it_is() {
    let mut direct = table();
    direct.ruleset.mods_xor2 = 0;
    let mut room = Room::new();
    with_status(&mut room, 2);
    with_mask(&mut room, 64 | 8, 0xFFFF_FFFF);
    let plain = StableReader::from_parts(direct, ANCHOR, RULES);
    assert_eq!(plain.read_mods_mask(&room.memory_again()), Some(64 | 8));
    assert_eq!(plain.read_mods(&room.memory_again()).unwrap().mods_string, "HDDT");
    assert_eq!(reader().read_mods_mask(&room.memory()), Some((64 | 8) ^ 0xFFFF_FFFF));
}
