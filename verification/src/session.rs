//! The rules of a monitoring session: which client to attach to, when a
//! read is worth an event, which failures end the session, and how a
//! request for the current snapshot is answered. The caller performs the
//! waiting, the scanning and the reading, and hands each result to the
//! `Coordinator`, which says what to emit and what to do next.

use crate::beatmap::{
    duplicate_snapshot, duplicate_text, mods_view, snapshot_view, text_view, BeatmapData,
    BeatmapDataView,
};
use crate::errors::{error_text, MemoryError, MemoryErrorView};
use crate::mods::same_mods;
use crate::text::{chars_of, contains, contains_chars, decimal, push_decimal, push_text, string_of};
use vstd::prelude::*;
use vstd::string::*;

verus! {

/// The milliseconds between two reads of an attached client.
pub const DATA_POLLING_INTERVAL_MS: u64 = 100;

/// The milliseconds between two scans for a client, and between the end of
/// a session and the next scan.
pub const PROCESS_SCAN_INTERVAL_MS: u64 = 2000;

/// The two builds of the game.
#[derive(Debug, Clone, Copy, PartialEq, Eq, Structural)]
pub enum OsuClient {
    Stable,
    Lazer,
}

/// Where the monitor stands with the game.
#[derive(Debug, Clone, PartialEq)]
pub enum OsuStatus {
    Disconnected,
    Scanning,
    Initializing,
    /// Attached; the text names the client.
    Connected(String),
}

/// An `OsuStatus` as mathematics.
pub enum OsuStatusView {
    Disconnected,
    Scanning,
    Initializing,
    Connected(Seq<char>),
}

impl View for OsuStatus {
    type V = OsuStatusView;

    open spec fn view(&self) -> OsuStatusView {
        match self {
            OsuStatus::Disconnected => OsuStatusView::Disconnected,
            OsuStatus::Scanning => OsuStatusView::Scanning,
            OsuStatus::Initializing => OsuStatusView::Initializing,
            OsuStatus::Connected(name) => OsuStatusView::Connected(name@),
        }
    }
}

/// The words that a status is shown with.
pub open spec fn status_words(status: OsuStatusView) -> Seq<char> {
    match status {
        OsuStatusView::Disconnected => "Disconnected"@,
        OsuStatusView::Scanning => "Scanning..."@,
        OsuStatusView::Initializing => "Initializing..."@,
        OsuStatusView::Connected(name) => name,
    }
}

impl OsuStatus {
    /// The words that this status is shown with.
    pub fn to_text(&self) -> (text: String)
        ensures
            text@ == status_words(self@),
    {
        match self {
            OsuStatus::Disconnected => String::from_str("Disconnected"),
            OsuStatus::Scanning => String::from_str("Scanning..."),
            OsuStatus::Initializing => String::from_str("Initializing..."),
            OsuStatus::Connected(name) => name.clone(),
        }
    }

    /// A copy of this status.
    pub fn duplicate(&self) -> (copy: OsuStatus)
        ensures
            copy@ == self@,
    {
        match self {
            OsuStatus::Disconnected => OsuStatus::Disconnected,
            OsuStatus::Scanning => OsuStatus::Scanning,
            OsuStatus::Initializing => OsuStatus::Initializing,
            OsuStatus::Connected(name) => OsuStatus::Connected(name.clone()),
        }
    }
}

/// What a consumer may ask of the monitor.
#[derive(Debug, Clone, Copy, PartialEq, Eq, Structural)]
pub enum OsuCommand {
    /// Send the snapshot that is current.
    RequestBeatmapData,
}

/// What the monitor tells its consumers.
#[derive(Debug, Clone, PartialEq)]
pub enum MemoryEvent {
    StatusChanged(OsuStatus),
    /// The snapshot changed; `None` says that there is none any more.
    BeatmapChanged(Option<BeatmapData>),
    /// The answer to a request: the snapshot that is current.
    BeatmapDataResponse(Option<BeatmapData>),
}

/// A `MemoryEvent` as mathematics.
pub enum MemoryEventView {
    StatusChanged(OsuStatusView),
    BeatmapChanged(Option<BeatmapDataView>),
    BeatmapDataResponse(Option<BeatmapDataView>),
}

impl View for MemoryEvent {
    type V = MemoryEventView;

    open spec fn view(&self) -> MemoryEventView {
        match self {
            MemoryEvent::StatusChanged(status) => MemoryEventView::StatusChanged(status@),
            MemoryEvent::BeatmapChanged(snapshot) => MemoryEventView::BeatmapChanged(
                snapshot_view(*snapshot),
            ),
            MemoryEvent::BeatmapDataResponse(snapshot) => MemoryEventView::BeatmapDataResponse(
                snapshot_view(*snapshot),
            ),
        }
    }
}

impl MemoryEvent {
    /// A copy of this event.
    pub fn duplicate(&self) -> (copy: MemoryEvent)
        ensures
            copy@ == self@,
    {
        match self {
            MemoryEvent::StatusChanged(status) => MemoryEvent::StatusChanged(status.duplicate()),
            MemoryEvent::BeatmapChanged(snapshot) => MemoryEvent::BeatmapChanged(
                duplicate_snapshot(snapshot),
            ),
            MemoryEvent::BeatmapDataResponse(snapshot) => MemoryEvent::BeatmapDataResponse(
                duplicate_snapshot(snapshot),
            ),
        }
    }
}

/// A running client as a scan found it.
#[derive(Debug, Clone, PartialEq)]
pub struct DetectedProcess {
    pub client: OsuClient,
    pub pid: u32,
    /// The version of the newer client, where it could be told.
    pub version: Option<String>,
    /// The folder of songs of the older client, where it exists.
    pub songs_folder: Option<String>,
}

/// A `DetectedProcess` as mathematics.
pub struct DetectedProcessView {
    pub client: OsuClient,
    pub pid: u32,
    pub version: Option<Seq<char>>,
    pub songs_folder: Option<Seq<char>>,
}

impl View for DetectedProcess {
    type V = DetectedProcessView;

    open spec fn view(&self) -> DetectedProcessView {
        DetectedProcessView {
            client: self.client,
            pid: self.pid,
            version: text_view(self.version),
            songs_folder: text_view(self.songs_folder),
        }
    }
}

impl DetectedProcess {
    /// A copy of this description.
    pub fn duplicate(&self) -> (copy: DetectedProcess)
        ensures
            copy@ == self@,
    {
        DetectedProcess {
            client: self.client,
            pid: self.pid,
            version: duplicate_text(&self.version),
            songs_folder: duplicate_text(&self.songs_folder),
        }
    }
}

/// The text that names an attached client: `Lazer`, the version whose
/// offsets are in use and the process id, or `Stable` and the process id.
pub open spec fn connection_name(client: OsuClient, version: Seq<char>, pid: u32) -> Seq<char> {
    match client {
        OsuClient::Lazer => "Lazer "@ + version + " (pid "@ + decimal(pid as nat) + ")"@,
        OsuClient::Stable => "Stable (pid "@ + decimal(pid as nat) + ")"@,
    }
}

/// Whether the sentence of an error speaks of a state that passes: no
/// beatmap, not initialized, a null link, something invalid.
pub open spec fn is_transient_text(text: Seq<char>) -> bool {
    ||| contains(text, "no beatmap"@)
    ||| contains(text, "not initialized"@)
    ||| contains(text, "null"@)
    ||| contains(text, "invalid"@)
}

/// The error that a failed read is passed on as: a read failure whose text
/// is the sentence of the original error.
pub open spec fn passed_on(error: MemoryErrorView) -> MemoryErrorView {
    MemoryErrorView::ReadFailed(error_text(error))
}

/// Whether a failed read leaves the session alive.
pub open spec fn is_transient(error: MemoryErrorView) -> bool {
    is_transient_text(error_text(passed_on(error)))
}

/// The state of a coordinator as mathematics.
pub struct CoordinatorView {
    pub status: OsuStatusView,
    /// The snapshot that is current.
    pub current: Option<BeatmapDataView>,
    /// The id of the beatmap of the last snapshot that was emitted in this
    /// session.
    pub last_id: Option<int>,
    /// The client of the session, from attaching to its end.
    pub client: Option<OsuClient>,
    /// The folder of songs that the scan found for the session's client.
    pub songs_folder: Option<Seq<char>>,
}

/// What the coordinator asks for after a scan.
#[derive(Debug, Clone, PartialEq)]
pub enum ScanStep {
    /// Nothing to attach to: wait, then scan again.
    Wait,
    /// Attach to this client; the event tells consumers so.
    Attach(DetectedProcess, MemoryEvent),
}

/// What the coordinator asks for after a read.
#[derive(Debug, Clone, PartialEq)]
pub enum TickStep {
    /// Nothing to tell; read again at the next tick.
    Quiet,
    /// Send the event; read again at the next tick.
    Emit(MemoryEvent),
    /// End the session with this error.
    Fatal(MemoryError),
}

/// A `TickStep` as mathematics.
pub enum TickStepView {
    Quiet,
    Emit(MemoryEventView),
    Fatal(MemoryErrorView),
}

impl View for TickStep {
    type V = TickStepView;

    open spec fn view(&self) -> TickStepView {
        match self {
            TickStep::Quiet => TickStepView::Quiet,
            TickStep::Emit(event) => TickStepView::Emit(event@),
            TickStep::Fatal(error) => TickStepView::Fatal(error@),
        }
    }
}

/// The state before any scan.
pub open spec fn initial_state() -> CoordinatorView {
    CoordinatorView {
        status: OsuStatusView::Disconnected,
        current: None,
        last_id: None,
        client: None,
        songs_folder: None,
    }
}

/// The snapshot as the session takes it: for the older client with the
/// folder of songs that the scan found, for the newer client as it was
/// read.
pub open spec fn taken(s: CoordinatorView, b: BeatmapDataView) -> BeatmapDataView {
    if s.client == Some(OsuClient::Stable) {
        BeatmapDataView { songs_folder: s.songs_folder, ..b }
    } else {
        b
    }
}

/// Whether a snapshot differs from what the session last emitted: another
/// beatmap id than the last one emitted, or other modifiers than those of
/// the current snapshot, or no current snapshot.
pub open spec fn is_change(s: CoordinatorView, b: BeatmapDataView) -> bool {
    ||| s.last_id != Some(b.id)
    ||| match s.current {
        Some(c) => c.mods != b.mods,
        None => true,
    }
}

/// The state after a read that yielded the snapshot `b`.
pub open spec fn state_after_snapshot(s: CoordinatorView, b: BeatmapDataView) -> CoordinatorView {
    if s.status is Connected && is_change(s, taken(s, b)) {
        CoordinatorView { current: Some(taken(s, b)), last_id: Some(taken(s, b).id), ..s }
    } else {
        s
    }
}

/// What a read that yielded the snapshot `b` asks for.
pub open spec fn step_after_snapshot(s: CoordinatorView, b: BeatmapDataView) -> TickStepView {
    if s.status is Connected && is_change(s, taken(s, b)) {
        TickStepView::Emit(MemoryEventView::BeatmapChanged(Some(taken(s, b))))
    } else {
        TickStepView::Quiet
    }
}

/// The state after a read that failed with `e`.
pub open spec fn state_after_error(s: CoordinatorView, e: MemoryErrorView) -> CoordinatorView {
    if s.status is Connected && is_transient(e) && s.current is Some {
        CoordinatorView { current: None, last_id: None, ..s }
    } else {
        s
    }
}

/// What a read that failed with `e` asks for.
pub open spec fn step_after_error(s: CoordinatorView, e: MemoryErrorView) -> TickStepView {
    if !(s.status is Connected) {
        TickStepView::Quiet
    } else if is_transient(e) {
        if s.current is Some {
            TickStepView::Emit(MemoryEventView::BeatmapChanged(None))
        } else {
            TickStepView::Quiet
        }
    } else {
        TickStepView::Fatal(passed_on(e))
    }
}

/// Holds the state of the monitor between the steps that its caller takes.
#[derive(Debug, Clone, PartialEq)]
pub struct Coordinator {
    status: OsuStatus,
    current: Option<BeatmapData>,
    last_id: Option<i32>,
    client: Option<OsuClient>,
    songs_folder: Option<String>,
}

impl View for Coordinator {
    type V = CoordinatorView;

    closed spec fn view(&self) -> CoordinatorView {
        CoordinatorView {
            status: self.status@,
            current: snapshot_view(self.current),
            last_id: match self.last_id {
                Some(id) => Some(id as int),
                None => None,
            },
            client: self.client,
            songs_folder: text_view(self.songs_folder),
        }
    }
}

/// Whether the sentence of an error speaks of a state that passes.
pub fn is_transient_message(text: &str) -> (transient: bool)
    ensures
        transient == is_transient_text(text@),
{
    let chars = chars_of(text);
    contains_chars(&chars, &chars_of("no beatmap")) || contains_chars(
        &chars,
        &chars_of("not initialized"),
    ) || contains_chars(&chars, &chars_of("null")) || contains_chars(&chars, &chars_of("invalid"))
}

/// The text that names an attached client.
pub fn connection_text(client: OsuClient, version: &str, pid: u32) -> (name: String)
    ensures
        name@ == connection_name(client, version@, pid),
{
    let mut out: Vec<char> = Vec::new();
    match client {
        OsuClient::Lazer => {
            push_text(&mut out, "Lazer ");
            push_text(&mut out, version);
            push_text(&mut out, " (pid ");
            push_decimal(&mut out, pid as u64);
            push_text(&mut out, ")");
            assert(out@ =~= connection_name(client, version@, pid));
        },
        OsuClient::Stable => {
            push_text(&mut out, "Stable (pid ");
            push_decimal(&mut out, pid as u64);
            push_text(&mut out, ")");
            assert(out@ =~= connection_name(client, version@, pid));
        },
    }
    string_of(&out)
}

impl Coordinator {
    /// A coordinator before its first scan: disconnected, without a
    /// snapshot.
    pub fn new() -> (made: Coordinator)
        ensures
            made@ == initial_state(),
    {
        Coordinator {
            status: OsuStatus::Disconnected,
            current: None,
            last_id: None,
            client: None,
            songs_folder: None,
        }
    }

    /// The status of the monitor.
    pub fn status(&self) -> (status: OsuStatus)
        ensures
            status@ == self@.status,
    {
        self.status.duplicate()
    }

    /// The snapshot that is current.
    pub fn current(&self) -> (snapshot: Option<BeatmapData>)
        ensures
            snapshot_view(snapshot) == self@.current,
    {
        duplicate_snapshot(&self.current)
    }

    /// Begins to scan for a client. Where a session is in progress nothing
    /// changes and nothing is to be sent.
    pub fn start_scanning(&mut self) -> (event: Option<MemoryEvent>)
        ensures
            old(self)@.status is Initializing || old(self)@.status is Connected ==> event is None
                && final(self)@ == old(self)@,
            !(old(self)@.status is Initializing || old(self)@.status is Connected) ==> {
                &&& event is Some
                &&& event->0@ == MemoryEventView::StatusChanged(OsuStatusView::Scanning)
                &&& final(self)@ == CoordinatorView {
                    status: OsuStatusView::Scanning,
                    ..old(self)@
                }
            },
    {
        match self.status {
            OsuStatus::Initializing => None,
            OsuStatus::Connected(_) => None,
            _ => {
                self.status = OsuStatus::Scanning;
                Some(MemoryEvent::StatusChanged(OsuStatus::Scanning))
            },
        }
    }

    /// Takes the result of a scan. While scanning, the first client found
    /// is the one to attach to: the session begins, with no beatmap id
    /// emitted yet. With nothing found, or in any other state, nothing
    /// changes.
    pub fn on_scan(&mut self, found: &Vec<DetectedProcess>) -> (step: ScanStep)
        ensures
            old(self)@.status is Scanning && found.len() > 0 ==> {
                &&& step is Attach
                &&& step->Attach_0@ == found[0]@
                &&& step->Attach_1@ == MemoryEventView::StatusChanged(OsuStatusView::Initializing)
                &&& final(self)@ == CoordinatorView {
                    status: OsuStatusView::Initializing,
                    last_id: None,
                    client: Some(found[0].client),
                    songs_folder: found[0]@.songs_folder,
                    ..old(self)@
                }
            },
            !(old(self)@.status is Scanning && found.len() > 0) ==> step is Wait && final(self)@
                == old(self)@,
    {
        match self.status {
            OsuStatus::Scanning => {
                if found.len() == 0 {
                    return ScanStep::Wait;
                }
                let process = found[0].duplicate();
                self.status = OsuStatus::Initializing;
                self.last_id = None;
                self.client = Some(process.client);
                self.songs_folder = duplicate_text(&process.songs_folder);
                ScanStep::Attach(process, MemoryEvent::StatusChanged(OsuStatus::Initializing))
            },
            _ => ScanStep::Wait,
        }
    }

    /// Takes the news that the reader for the session's client stands.
    /// `name` is the text that names the client. In any state but
    /// initializing nothing changes.
    pub fn on_reader_ready(&mut self, name: &str) -> (event: Option<MemoryEvent>)
        ensures
            old(self)@.status is Initializing ==> {
                &&& event is Some
                &&& event->0@ == MemoryEventView::StatusChanged(OsuStatusView::Connected(name@))
                &&& final(self)@ == CoordinatorView {
                    status: OsuStatusView::Connected(name@),
                    ..old(self)@
                }
            },
            !(old(self)@.status is Initializing) ==> event is None && final(self)@ == old(self)@,
    {
        match self.status {
            OsuStatus::Initializing => {
                self.status = OsuStatus::Connected(String::from_str(name));
                Some(MemoryEvent::StatusChanged(OsuStatus::Connected(String::from_str(name))))
            },
            _ => None,
        }
    }

    /// Takes a snapshot that a read yielded. While connected, a snapshot
    /// with another beatmap id than the last one emitted, or with other
    /// modifiers than the current snapshot, becomes the current one and is
    /// to be sent; any other is dropped.
    pub fn on_snapshot(&mut self, snapshot: BeatmapData) -> (step: TickStep)
        ensures
            final(self)@ == state_after_snapshot(old(self)@, snapshot@),
            step@ == step_after_snapshot(old(self)@, snapshot@),
    {
        match self.status {
            OsuStatus::Connected(_) => {},
            _ => {
                return TickStep::Quiet;
            },
        }
        let mut beatmap = snapshot;
        match self.client {
            Some(OsuClient::Stable) => {
                beatmap.songs_folder = duplicate_text(&self.songs_folder);
            },
            _ => {},
        }
        assert(beatmap@ == taken(self@, snapshot@));
        let mods_changed = match &self.current {
            Some(c) => !same_mods(&c.mods, &beatmap.mods),
            None => true,
        };
        let id_changed = match self.last_id {
            Some(id) => id != beatmap.id,
            None => true,
        };
        if id_changed || mods_changed {
            self.last_id = Some(beatmap.id);
            self.current = Some(beatmap.duplicate());
            TickStep::Emit(MemoryEvent::BeatmapChanged(Some(beatmap)))
        } else {
            TickStep::Quiet
        }
    }

    /// Takes the error that a read failed with. While connected, an error
    /// whose sentence speaks of a passing state clears the current snapshot,
    /// which is to be told once; any other error ends the session.
    pub fn on_read_error(&mut self, error: &MemoryError) -> (step: TickStep)
        ensures
            final(self)@ == state_after_error(old(self)@, error@),
            step@ == step_after_error(old(self)@, error@),
    {
        match self.status {
            OsuStatus::Connected(_) => {},
            _ => {
                return TickStep::Quiet;
            },
        }
        let wrapped = MemoryError::ReadFailed(error.to_text());
        if is_transient_message(wrapped.to_text().as_str()) {
            if self.current.is_some() {
                self.current = None;
                self.last_id = None;
                TickStep::Emit(MemoryEvent::BeatmapChanged(None))
            } else {
                TickStep::Quiet
            }
        } else {
            TickStep::Fatal(wrapped)
        }
    }

    /// Takes the outcome of one read.
    pub fn on_tick(&mut self, outcome: Result<BeatmapData, MemoryError>) -> (step: TickStep)
        ensures
            match outcome {
                Ok(snapshot) => {
                    &&& final(self)@ == state_after_snapshot(old(self)@, snapshot@)
                    &&& step@ == step_after_snapshot(old(self)@, snapshot@)
                },
                Err(error) => {
                    &&& final(self)@ == state_after_error(old(self)@, error@)
                    &&& step@ == step_after_error(old(self)@, error@)
                },
            },
    {
        match outcome {
            Ok(snapshot) => self.on_snapshot(snapshot),
            Err(error) => self.on_read_error(&error),
        }
    }

    /// Answers a request for the current snapshot: with the snapshot that
    /// the last completed read left, in every state, without a read.
    pub fn on_command(&self, command: OsuCommand) -> (event: MemoryEvent)
        ensures
            event@ == MemoryEventView::BeatmapDataResponse(self@.current),
    {
        match command {
            OsuCommand::RequestBeatmapData => MemoryEvent::BeatmapDataResponse(
                duplicate_snapshot(&self.current),
            ),
        }
    }

    /// Ends the session, or the attempt to begin one: the snapshot is gone,
    /// which is to be told, then that the monitor is disconnected.
    pub fn end_session(&mut self) -> (events: (MemoryEvent, MemoryEvent))
        ensures
            events.0@ == MemoryEventView::BeatmapChanged(None),
            events.1@ == MemoryEventView::StatusChanged(OsuStatusView::Disconnected),
            final(self)@ == initial_state(),
    {
        self.status = OsuStatus::Disconnected;
        self.current = None;
        self.last_id = None;
        self.client = None;
        self.songs_folder = None;
        (MemoryEvent::BeatmapChanged(None), MemoryEvent::StatusChanged(OsuStatus::Disconnected))
    }
}

/// A snapshot that is read twice in a row is told at most once: after a
/// read that yielded it, a second read with the same snapshot changes
/// nothing and asks for nothing.
pub proof fn lemma_repeat_is_suppressed(s: CoordinatorView, b: BeatmapDataView)
    ensures
        step_after_snapshot(state_after_snapshot(s, b), b) == TickStepView::Quiet,
        state_after_snapshot(state_after_snapshot(s, b), b) == state_after_snapshot(s, b),
{
    let s1 = state_after_snapshot(s, b);
    assert(taken(s1, b) == taken(s, b));
}

/// In a session that has no snapshot yet, the first of two identical reads
/// is told and the second is not: one event for the two.
pub proof fn lemma_identical_snapshots_emit_once(s: CoordinatorView, b: BeatmapDataView)
    requires
        s.status is Connected,
        s.current is None,
    ensures
        step_after_snapshot(s, b) == TickStepView::Emit(
            MemoryEventView::BeatmapChanged(Some(taken(s, b))),
        ),
        step_after_snapshot(state_after_snapshot(s, b), b) == TickStepView::Quiet,
{
    lemma_repeat_is_suppressed(s, b);
}

/// Two snapshots in a row that differ in their modifiers are both told,
/// whatever else they share.
pub proof fn lemma_changed_mods_emit_twice(
    s: CoordinatorView,
    a: BeatmapDataView,
    b: BeatmapDataView,
)
    requires
        s.status is Connected,
        s.current is None,
        a.mods != b.mods,
    ensures
        step_after_snapshot(s, a) == TickStepView::Emit(
            MemoryEventView::BeatmapChanged(Some(taken(s, a))),
        ),
        step_after_snapshot(state_after_snapshot(s, a), b) == TickStepView::Emit(
            MemoryEventView::BeatmapChanged(Some(taken(s, b))),
        ),
{
    let s1 = state_after_snapshot(s, a);
    assert(taken(s1, b) == taken(s, b));
    assert(taken(s, a).mods == a.mods);
    assert(taken(s1, b).mods == b.mods);
}

/// What is told about a process that could not be opened: the sentence of
/// the error, and the advice to run with more privileges.
pub open spec fn open_failure_text(error: MemoryErrorView) -> Seq<char> {
    "Failed to open process: "@ + error_text(error)
        + ". Try running with admin/root privileges."@
}

/// What is told about a process that could not be opened.
pub fn describe_open_failure(error: &MemoryError) -> (text: String)
    ensures
        text@ == open_failure_text(error@),
{
    String::from_str("Failed to open process: ").concat(error.to_text().as_str()).concat(
        ". Try running with admin/root privileges.",
    )
}

impl Coordinator {
    /// The error with which a session ends whose reader could not be built:
    /// a read failure whose text is the sentence of the cause.
    pub fn on_reader_failed(&self, cause: &MemoryError) -> (error: MemoryError)
        ensures
            error@ == passed_on(cause@),
    {
        MemoryError::ReadFailed(cause.to_text())
    }
}

impl Default for OsuStatus {
    /// The status of a monitor that has not looked for the game yet.
    fn default() -> (status: OsuStatus)
        ensures
            status@ == OsuStatusView::Disconnected,
    {
        OsuStatus::Disconnected
    }
}

} // verus!
