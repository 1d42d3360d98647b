//! Telling the game's clients among the processes of the machine.

use crate::beatmap::{duplicate_text, text_view};
use crate::session::{DetectedProcess, DetectedProcessView, OsuClient};
use crate::text::{
    chars_of, contains, contains_chars, ends_with, find_from, finishes_with, index_of,
    lemma_first_is_index, lowercase_of, occurs, push_range, string_of, to_lowercase,
};
use vstd::prelude::*;

verus! {

/// What is known of one process of the machine.
#[derive(Debug, Clone, PartialEq)]
pub struct ProcessInfo {
    pub pid: u32,
    /// The name of the process.
    pub name: String,
    /// The path of its executable, where it is known and is text.
    pub exe_path: Option<String>,
    /// What the file `sq.version` beside the executable holds, where it can
    /// be read.
    pub version_file: Option<String>,
    /// The folder `Songs` beside the executable, where it exists.
    pub songs_folder: Option<String>,
}

/// A `ProcessInfo` as mathematics.
pub struct ProcessInfoView {
    pub pid: u32,
    pub name: Seq<char>,
    pub exe_path: Option<Seq<char>>,
    pub version_file: Option<Seq<char>>,
    pub songs_folder: Option<Seq<char>>,
}

impl View for ProcessInfo {
    type V = ProcessInfoView;

    open spec fn view(&self) -> ProcessInfoView {
        ProcessInfoView {
            pid: self.pid,
            name: self.name@,
            exe_path: text_view(self.exe_path),
            version_file: text_view(self.version_file),
            songs_folder: text_view(self.songs_folder),
        }
    }
}

/// The views of a list of processes.
pub open spec fn info_views(list: Seq<ProcessInfo>) -> Seq<ProcessInfoView> {
    Seq::new(list.len(), |i: int| list[i]@)
}

/// The views of a list of detected clients.
pub open spec fn detected_views(list: Seq<DetectedProcess>) -> Seq<DetectedProcessView> {
    Seq::new(list.len(), |i: int| list[i]@)
}

/// `c` with a capital letter of the basic alphabet made small.
pub open spec fn ascii_lower(c: char) -> char {
    if 'A' <= c <= 'Z' {
        ((c as int) + 32) as char
    } else {
        c
    }
}

/// `s` with each capital letter of the basic alphabet made small.
pub open spec fn ascii_lowered(s: Seq<char>) -> Seq<char> {
    Seq::new(s.len(), |i: int| ascii_lower(s[i]))
}

/// Whether a process with this name is a client of the game: its name, in
/// small letters, contains `osu!`.
pub open spec fn is_osu_name(name: Seq<char>) -> bool {
    contains(ascii_lowered(name), "osu!"@)
}

/// Whether an executable with this path is the newer client: the path, in
/// lower case, contains `lazer`. A process without a known path is taken
/// for the older client.
pub open spec fn is_lazer_path(path: Option<Seq<char>>) -> bool {
    match path {
        Some(p) => contains(lowercase_of(p), "lazer"@),
        None => false,
    }
}

/// The version that a version file names: what stands between the first
/// `<version>` and the next `</version>`, without the ending `-lazer`.
pub open spec fn version_in(content: Seq<char>) -> Option<Seq<char>> {
    let open = "<version>"@;
    let close = "</version>"@;
    if !contains(content, open) {
        None
    } else {
        let start = index_of(content, open) + open.len();
        let rest = content.subrange(start, content.len() as int);
        if !contains(rest, close) {
            None
        } else {
            let inner = rest.subrange(0, index_of(rest, close));
            if finishes_with(inner, "-lazer"@) {
                Some(inner.subrange(0, inner.len() - "-lazer"@.len()))
            } else {
                Some(inner)
            }
        }
    }
}

/// The client that a process is taken for.
pub open spec fn detected_of(p: ProcessInfoView) -> DetectedProcessView {
    if is_lazer_path(p.exe_path) {
        DetectedProcessView {
            client: OsuClient::Lazer,
            pid: p.pid,
            version: match p.version_file {
                Some(content) => version_in(content),
                None => None,
            },
            songs_folder: None,
        }
    } else {
        DetectedProcessView {
            client: OsuClient::Stable,
            pid: p.pid,
            version: None,
            songs_folder: p.songs_folder,
        }
    }
}

/// Whether a client of kind `client` is among the first `n` processes.
pub open spec fn seen_before(list: Seq<ProcessInfoView>, n: int, client: OsuClient) -> bool {
    exists|j: int|
        0 <= j < n && j < list.len() && is_osu_name((#[trigger] list[j]).name) && detected_of(
            list[j],
        ).client == client
}

/// Whether process `i` is reported: it is a client of the game and the first
/// of its kind in the list.
pub open spec fn is_reported(list: Seq<ProcessInfoView>, i: int) -> bool {
    &&& is_osu_name(list[i].name)
    &&& !seen_before(list, i, detected_of(list[i]).client)
}

/// The clients reported among the first `n` processes, in the order of the
/// list.
pub open spec fn detected_among(list: Seq<ProcessInfoView>, n: int) -> Seq<DetectedProcessView>
    decreases n,
{
    if n <= 0 {
        Seq::empty()
    } else if is_reported(list, n - 1) {
        detected_among(list, n - 1).push(detected_of(list[n - 1]))
    } else {
        detected_among(list, n - 1)
    }
}

/// `s` with each capital letter of the basic alphabet made small.
pub fn to_ascii_lowercase(s: &Vec<char>) -> (lower: Vec<char>)
    ensures
        lower@ == ascii_lowered(s@),
{
    let mut lower: Vec<char> = Vec::new();
    let mut i: usize = 0;
    while i < s.len()
        invariant
            i <= s.len(),
            lower@.len() == i,
            forall|k: int| 0 <= k < i ==> lower@[k] == ascii_lower(s@[k]),
        decreases s.len() - i,
    {
        let c = s[i];
        let n: u32 = c as u32;
        if 65 <= n && n <= 90 {
            let small: u8 = (n + 32) as u8;
            lower.push(small as char);
        } else {
            lower.push(c);
        }
        i += 1;
    }
    assert(lower@ =~= ascii_lowered(s@));
    lower
}

/// Whether a process with this name is a client of the game.
pub fn is_osu_process(name: &str) -> (is_osu: bool)
    ensures
        is_osu == is_osu_name(name@),
{
    let lower = to_ascii_lowercase(&chars_of(name));
    contains_chars(&lower, &chars_of("osu!"))
}

/// Whether an executable with this path is the newer client.
pub fn is_lazer_executable(path: &Option<String>) -> (is_lazer: bool)
    ensures
        is_lazer == is_lazer_path(text_view(*path)),
{
    match path {
        Some(p) => {
            let lower = to_lowercase(p.as_str());
            contains_chars(&chars_of(lower.as_str()), &chars_of("lazer"))
        },
        None => false,
    }
}

/// Reads the version out of what a version file holds.
pub fn detect_lazer_version(content: &str) -> (version: Option<String>)
    ensures
        text_view(version) == version_in(content@),
{
    let text = chars_of(content);
    let open = chars_of("<version>");
    let close = chars_of("</version>");
    let suffix = chars_of("-lazer");
    let at = match find_from(&text, &open, 0) {
        Some(at) => at,
        None => {
            assert forall|k: int| !occurs(text@, open@, k) by {
                if occurs(text@, open@, k) {
                    assert(crate::text::contains_from(text@, open@, 0));
                }
            }
            return None;
        },
    };
    proof {
        lemma_first_is_index(text@, open@, 0, at as int);
        assert(occurs(text@, open@, at as int));
    }
    let total: usize = text.len();
    let start: usize = at + open.len();
    let mut rest: Vec<char> = Vec::new();
    push_range(&mut rest, &text, start, total);
    let end = match find_from(&rest, &close, 0) {
        Some(end) => end,
        None => {
            assert forall|k: int| !occurs(rest@, close@, k) by {
                if occurs(rest@, close@, k) {
                    assert(crate::text::contains_from(rest@, close@, 0));
                }
            }
            return None;
        },
    };
    proof {
        lemma_first_is_index(rest@, close@, 0, end as int);
        assert(occurs(rest@, close@, end as int));
    }
    let mut inner: Vec<char> = Vec::new();
    push_range(&mut inner, &rest, 0, end);
    if ends_with(&inner, &suffix) {
        let mut cut: Vec<char> = Vec::new();
        push_range(&mut cut, &inner, 0, inner.len() - suffix.len());
        Some(string_of(&cut))
    } else {
        Some(string_of(&inner))
    }
}

/// The client that a process is taken for.
pub fn describe_process(info: &ProcessInfo) -> (found: DetectedProcess)
    ensures
        found@ == detected_of(info@),
{
    if is_lazer_executable(&info.exe_path) {
        let version = match &info.version_file {
            Some(content) => detect_lazer_version(content.as_str()),
            None => None,
        };
        DetectedProcess { client: OsuClient::Lazer, pid: info.pid, version, songs_folder: None }
    } else {
        DetectedProcess {
            client: OsuClient::Stable,
            pid: info.pid,
            version: None,
            songs_folder: duplicate_text(&info.songs_folder),
        }
    }
}

/// Picks the game's clients out of the processes of the machine: of each
/// kind of client the first in the list, in the order of the list.
pub fn detect_osu_processes(processes: &Vec<ProcessInfo>) -> (found: Vec<DetectedProcess>)
    ensures
        detected_views(found@) == detected_among(info_views(processes@), processes.len() as int),
        found.len() <= 2,
{
    let ghost list = info_views(processes@);
    let mut found: Vec<DetectedProcess> = Vec::new();
    let mut seen_stable = false;
    let mut seen_lazer = false;
    let mut i: usize = 0;
    assert(detected_views(found@) =~= detected_among(list, 0));
    while i < processes.len()
        invariant
            i <= processes.len(),
            list == info_views(processes@),
            detected_views(found@) == detected_among(list, i as int),
            seen_stable == seen_before(list, i as int, OsuClient::Stable),
            seen_lazer == seen_before(list, i as int, OsuClient::Lazer),
            found.len() == (if seen_stable { 1int } else { 0int }) + (if seen_lazer { 1int } else { 0int }),
        decreases processes.len() - i,
    {
        let info = &processes[i];
        assert(list[i as int] == info@);
        let ghost before = detected_views(found@);
        let is_osu = is_osu_process(info.name.as_str());
        if is_osu {
            let process = describe_process(info);
            let seen = match process.client {
                OsuClient::Stable => seen_stable,
                OsuClient::Lazer => seen_lazer,
            };
            if !seen {
                match process.client {
                    OsuClient::Stable => {
                        seen_stable = true;
                    },
                    OsuClient::Lazer => {
                        seen_lazer = true;
                    },
                }
                found.push(process);
                assert(detected_views(found@) =~= before.push(detected_of(list[i as int])));
            }
        }
        proof {
            let kind = detected_of(list[i as int]).client;
            assert forall|client: OsuClient| seen_before(list, i + 1, client) == (seen_before(
                list,
                i as int,
                client,
            ) || (is_osu && kind == client)) by {
                if seen_before(list, i as int, client) {
                    let j = choose|j: int|
                        0 <= j < i && j < list.len() && is_osu_name((#[trigger] list[j]).name)
                            && detected_of(list[j]).client == client;
                    assert(0 <= j < i + 1);
                }
                if is_osu && kind == client {
                    assert(is_osu_name(list[i as int].name));
                }
                if seen_before(list, i + 1, client) {
                    let j = choose|j: int|
                        0 <= j < i + 1 && j < list.len() && is_osu_name((#[trigger] list[j]).name)
                            && detected_of(list[j]).client == client;
                    if j < i {
                        assert(seen_before(list, i as int, client));
                    }
                }
            }
        }
        i += 1;
    }
    found
}

} // verus!
