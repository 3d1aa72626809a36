//! The status line: which sockets are asked for it and how often, and what it
//! says of the snapshot that a socket answers with.

use crate::json;
use crate::json::{json_of, Json, JsonNumber};
use crate::rpc::{request, rpc_request};
use crate::text::{decimal, decimal_spells_its_number, parse_number, push_decimal, spelled_number};
use serde_json::Value;
use vstd::prelude::*;

verus! {

/// How long to wait between two polls where nothing else is set.
pub const DEFAULT_POLL_INTERVAL_MS: u64 = 1000;

/// The shortest time between two polls that can be set.
pub const MIN_POLL_INTERVAL_MS: u64 = 250;

/// What the status line tells of a snapshot, each part where the snapshot has it.
#[derive(Debug, PartialEq, Eq)]
pub struct SnapshotFields {
    pub events_seq: Option<u64>,
    pub registered_nodes: Option<u64>,
    /// How many artifacts the snapshot says there are.
    pub artifact_count: Option<u64>,
    /// How many artifacts the snapshot lists.
    pub listed_artifacts: Option<u64>,
    /// The type of the last event that the snapshot lists.
    pub last_event: Option<String>,
}

/// What [`SnapshotFields`] are.
pub struct SnapshotState {
    pub events_seq: Option<u64>,
    pub registered_nodes: Option<u64>,
    pub artifact_count: Option<u64>,
    pub listed_artifacts: Option<u64>,
    pub last_event: Option<Seq<char>>,
}

impl View for SnapshotFields {
    type V = SnapshotState;

    open spec fn view(&self) -> SnapshotState {
        SnapshotState {
            events_seq: self.events_seq,
            registered_nodes: self.registered_nodes,
            artifact_count: self.artifact_count,
            listed_artifacts: self.listed_artifacts,
            last_event: match self.last_event {
                Some(name) => Some(name@),
                None => None,
            },
        }
    }
}

/// The integer in the member `key`.
pub open spec fn unsigned_member(value: Json, key: Seq<char>) -> Option<u64> {
    match value.member(key) {
        Some(member) => member.unsigned(),
        None => None,
    }
}

/// The integer in the member `key` of the snapshot's status.
pub open spec fn status_number(snapshot: Json, key: Seq<char>) -> Option<u64> {
    match snapshot.member("status"@) {
        Some(status) => unsigned_member(status, key),
        None => None,
    }
}

/// The items of the array in the member `key`.
pub open spec fn listed(value: Json, key: Seq<char>) -> Option<Seq<Json>> {
    match value.member(key) {
        Some(member) => member.items(),
        None => None,
    }
}

/// The type of the last event that the snapshot lists.
pub open spec fn last_event_type(snapshot: Json) -> Option<Seq<char>> {
    match listed(snapshot, "events"@) {
        Some(events) => if events.len() > 0 {
            match events.last().member("type"@) {
                Some(name) => name.text(),
                None => None,
            }
        } else {
            None
        },
        None => None,
    }
}

/// What the status line tells of this snapshot.
pub open spec fn fields_of(snapshot: Json) -> SnapshotState {
    SnapshotState {
        events_seq: status_number(snapshot, "events_seq"@),
        registered_nodes: status_number(snapshot, "registered_nodes"@),
        artifact_count: unsigned_member(snapshot, "artifact_count"@),
        listed_artifacts: match listed(snapshot, "artifacts"@) {
            Some(artifacts) => Some(artifacts.len() as u64),
            None => None,
        },
        last_event: last_event_type(snapshot),
    }
}

/// `value`, or 0 where there is none.
pub open spec fn or_zero(value: Option<u64>) -> nat {
    match value {
        Some(n) => n as nat,
        None => 0,
    }
}

/// The status line that tells these fields. Numbers that are missing count as 0;
/// the artifacts that are listed count where their number is not given; without a
/// last event all is idle.
pub open spec fn line_of(fields: SnapshotState) -> Seq<char> {
    "H2 seq="@ + decimal(or_zero(fields.events_seq)) + " nodes="@ + decimal(
        or_zero(fields.registered_nodes),
    ) + " artifacts="@ + decimal(
        or_zero(
            if fields.artifact_count is Some {
                fields.artifact_count
            } else {
                fields.listed_artifacts
            },
        ),
    ) + " last="@ + match fields.last_event {
        Some(name) => name,
        None => "idle"@,
    }
}

/// The status line for a snapshot.
pub open spec fn snapshot_line(snapshot: Json) -> Seq<char> {
    line_of(fields_of(snapshot))
}

/// Reads the integer in the member `key`.
fn read_unsigned(value: &Value, key: &str) -> (number: Option<u64>)
    ensures
        number == unsigned_member(json_of(*value), key@),
{
    match json::get(value, key) {
        Some(member) => json::as_u64(member),
        None => None,
    }
}

/// Reads the integer in the member `key` of the snapshot's status.
fn read_status_number(snapshot: &Value, key: &str) -> (number: Option<u64>)
    ensures
        number == status_number(json_of(*snapshot), key@),
{
    match json::get(snapshot, "status") {
        Some(status) => read_unsigned(status, key),
        None => None,
    }
}

/// Reads the items of the array in the member `key`.
fn read_list<'a>(value: &'a Value, key: &str) -> (items: Option<&'a Vec<Value>>)
    ensures
        match items {
            Some(values) => listed(json_of(*value), key@) == Some(
                values@.map_values(|item: Value| json_of(item)),
            ),
            None => listed(json_of(*value), key@) is None,
        },
{
    match json::get(value, key) {
        Some(member) => json::as_array(member),
        None => None,
    }
}

/// Reads the type of the last event that the snapshot lists.
fn read_last_event(snapshot: &Value) -> (name: Option<String>)
    ensures
        match name {
            Some(text) => last_event_type(json_of(*snapshot)) == Some(text@),
            None => last_event_type(json_of(*snapshot)) is None,
        },
{
    let events: &Vec<Value> = match read_list(snapshot, "events") {
        Some(events) => events,
        None => return None,
    };
    if events.len() == 0 {
        return None;
    }
    let last: &Value = &events[events.len() - 1];
    match json::get(last, "type") {
        Some(name) => match json::as_str(name) {
            Some(text) => Some(text.to_owned()),
            None => None,
        },
        None => None,
    }
}

/// Reads from a snapshot what the status line tells of it.
pub fn snapshot_fields(snapshot: &Value) -> (fields: SnapshotFields)
    ensures
        fields@ == fields_of(json_of(*snapshot)),
{
    let listed_artifacts: Option<u64> = match read_list(snapshot, "artifacts") {
        Some(artifacts) => Some(artifacts.len() as u64),
        None => None,
    };
    SnapshotFields {
        events_seq: read_status_number(snapshot, "events_seq"),
        registered_nodes: read_status_number(snapshot, "registered_nodes"),
        artifact_count: read_unsigned(snapshot, "artifact_count"),
        listed_artifacts,
        last_event: read_last_event(snapshot),
    }
}

/// The status line that tells these fields.
pub fn status_line(fields: &SnapshotFields) -> (line: String)
    ensures
        line@ == line_of(fields@),
{
    let artifacts: u64 = match fields.artifact_count {
        Some(count) => count,
        None => fields.listed_artifacts.unwrap_or(0),
    };
    let mut line: String = "H2 seq=".to_owned();
    push_decimal(&mut line, fields.events_seq.unwrap_or(0));
    line.append(" nodes=");
    push_decimal(&mut line, fields.registered_nodes.unwrap_or(0));
    line.append(" artifacts=");
    push_decimal(&mut line, artifacts);
    line.append(" last=");
    match &fields.last_event {
        Some(name) => line.append(name.as_str()),
        None => line.append("idle"),
    }
    line
}

/// The status line for a snapshot.
pub fn format_snapshot_status_line(snapshot: &Value) -> (line: String)
    ensures
        line@ == snapshot_line(json_of(*snapshot)),
{
    status_line(&snapshot_fields(snapshot))
}

/// The parameters with which a snapshot is asked for.
pub open spec fn snapshot_params() -> Json {
    Json::Object(
        Map::empty()
            .insert("from_seq"@, Json::Number(JsonNumber::Unsigned(0)))
            .insert("event_limit"@, Json::Number(JsonNumber::Unsigned(5)))
            .insert("artifact_limit"@, Json::Number(JsonNumber::Unsigned(3))),
    )
}

/// The request for a snapshot of at most 5 events and 3 artifacts.
pub fn snapshot_request() -> (value: Value)
    ensures
        json_of(value) == request("ui_snapshot"@, snapshot_params()),
{
    let mut params: serde_json::Map<String, Value> = json::no_members();
    json::insert(&mut params, "from_seq", json::number(0));
    json::insert(&mut params, "event_limit", json::number(5));
    json::insert(&mut params, "artifact_limit", json::number(3));
    rpc_request("ui_snapshot", json::object(params))
}

/// The path that a setting gives: none where it is unset or empty.
pub open spec fn set_path(setting: Option<Vec<u8>>) -> Seq<Seq<u8>> {
    match setting {
        Some(path) => if path@.len() > 0 {
            seq![path@]
        } else {
            Seq::empty()
        },
        None => Seq::empty(),
    }
}

/// What the paths of a sequence are.
pub open spec fn path_bytes(paths: Seq<Vec<u8>>) -> Seq<Seq<u8>> {
    paths.map_values(|path: Vec<u8>| path@)
}

/// The sockets to ask, by the bytes of their paths: the ui socket first, then the
/// node's, each where it is set and not empty.
pub fn status_socket_paths_from_values(
    ui_socket: Option<Vec<u8>>,
    node_socket: Option<Vec<u8>>,
) -> (paths: Vec<Vec<u8>>)
    ensures
        path_bytes(paths@) == set_path(ui_socket) + set_path(node_socket),
{
    let mut paths: Vec<Vec<u8>> = Vec::new();
    let ghost ui = ui_socket;
    if let Some(path) = ui_socket {
        if path.len() > 0 {
            paths.push(path);
        }
    }
    assert(path_bytes(paths@) =~= set_path(ui));
    let ghost node = node_socket;
    if let Some(path) = node_socket {
        if path.len() > 0 {
            paths.push(path);
        }
    }
    assert(path_bytes(paths@) =~= set_path(ui) + set_path(node));
    paths
}

/// The time between two polls that a setting gives.
pub open spec fn poll_interval(setting: Option<Seq<char>>) -> u64 {
    match setting {
        Some(text) => match spelled_number(text) {
            Some(ms) => if ms >= MIN_POLL_INTERVAL_MS {
                ms
            } else {
                DEFAULT_POLL_INTERVAL_MS
            },
            None => DEFAULT_POLL_INTERVAL_MS,
        },
        None => DEFAULT_POLL_INTERVAL_MS,
    }
}

/// The time between two polls, in milliseconds: the one that is set, or the
/// default where what is set is no number or too short.
pub fn poll_interval_ms(setting: Option<&str>) -> (ms: u64)
    ensures
        ms == poll_interval(
            match setting {
                Some(text) => Some(text@),
                None => None,
            },
        ),
{
    if let Some(text) = setting {
        if let Some(ms) = parse_number(text) {
            if ms >= MIN_POLL_INTERVAL_MS {
                return ms;
            }
        }
    }
    DEFAULT_POLL_INTERVAL_MS
}

/// Why a poll gives no status line.
#[derive(Debug, PartialEq, Eq)]
pub enum PollError<E> {
    /// There was no socket to ask.
    NoCandidates,
    /// No socket answered with a snapshot; this was the last error.
    Socket(E),
}

impl<E> PollError<E> {
    /// The text that reports this error, save the error of a socket, which reports
    /// itself.
    pub open spec fn report(self) -> Option<Seq<char>> {
        match self {
            PollError::NoCandidates => Some("no h2 socket candidates"@),
            PollError::Socket(_) => None,
        }
    }

    /// The text that reports this error, save the error of a socket, which reports
    /// itself.
    pub fn message(&self) -> (text: Option<String>)
        ensures
            match text {
                Some(t) => self.report() == Some(t@),
                None => self.report() is None,
            },
    {
        match self {
            PollError::NoCandidates => Some("no h2 socket candidates".to_owned()),
            PollError::Socket(_) => None,
        }
    }
}

/// Where a poll stands: which socket is to be asked, or how it ended.
#[derive(Debug)]
pub enum PollStep<E> {
    /// The socket of this index is to be asked for a snapshot.
    Ask(usize),
    /// A socket answered: this is the status line.
    Line(String),
    /// No socket answered with a snapshot.
    Failed(PollError<E>),
}

/// What a [`PollStep`] is.
pub enum PollState<E> {
    Ask(usize),
    Line(Seq<char>),
    Failed(PollError<E>),
}

impl<E> View for PollStep<E> {
    type V = PollState<E>;

    open spec fn view(&self) -> PollState<E> {
        match *self {
            PollStep::Ask(index) => PollState::Ask(index),
            PollStep::Line(line) => PollState::Line(line@),
            PollStep::Failed(error) => PollState::Failed(error),
        }
    }
}

/// What a socket answered.
pub open spec fn answer_of<E>(answer: Result<Value, E>) -> Result<Json, E> {
    match answer {
        Ok(snapshot) => Ok(json_of(snapshot)),
        Err(error) => Err(error),
    }
}

/// How a poll of `candidates` sockets starts.
pub open spec fn poll_begun<E>(candidates: usize) -> PollState<E> {
    if candidates == 0 {
        PollState::Failed(PollError::NoCandidates)
    } else {
        PollState::Ask(0)
    }
}

/// How a poll of `candidates` sockets goes on after socket `asked` answered.
pub open spec fn poll_advanced<E>(
    candidates: usize,
    asked: usize,
    answer: Result<Json, E>,
) -> PollState<E> {
    match answer {
        Ok(snapshot) => PollState::Line(snapshot_line(snapshot)),
        Err(error) => if asked + 1 < candidates {
            PollState::Ask((asked + 1) as usize)
        } else {
            PollState::Failed(PollError::Socket(error))
        },
    }
}

/// Starts a poll of `candidates` sockets.
pub fn begin_poll<E>(candidates: usize) -> (step: PollStep<E>)
    ensures
        step@ == poll_begun::<E>(candidates),
{
    if candidates == 0 {
        PollStep::Failed(PollError::NoCandidates)
    } else {
        PollStep::Ask(0)
    }
}

/// Goes on with a poll of `candidates` sockets, of which `asked` answered.
pub fn advance_poll<E>(candidates: usize, asked: usize, answer: Result<Value, E>) -> (step: PollStep<
    E,
>)
    ensures
        step@ == poll_advanced(candidates, asked, answer_of(answer)),
{
    match answer {
        Ok(snapshot) => PollStep::Line(format_snapshot_status_line(&snapshot)),
        Err(error) => if asked < candidates && candidates - asked > 1 {
            PollStep::Ask(asked + 1)
        } else {
            PollStep::Failed(PollError::Socket(error))
        },
    }
}

/// The status to show after a poll.
pub open spec fn shown_status<E>(polled: Result<Seq<char>, E>) -> Seq<char> {
    match polled {
        Ok(line) => line,
        Err(_) => "H2 disconnected"@,
    }
}

/// What a poll gave.
pub open spec fn polled_line<E>(polled: Result<String, E>) -> Result<Seq<char>, E> {
    match polled {
        Ok(line) => Ok(line@),
        Err(error) => Err(error),
    }
}

/// The status to show after a poll: its line, or that there is no connection.
pub fn status_after_poll<E>(polled: Result<String, E>) -> (status: String)
    ensures
        status@ == shown_status(polled_line(polled)),
{
    match polled {
        Ok(line) => line,
        Err(_) => "H2 disconnected".to_owned(),
    }
}

/// What the status bridge does next. It never ends: there is always a next action.
#[derive(Debug, PartialEq, Eq)]
pub enum BridgeAction {
    /// Poll the sockets.
    Poll,
    /// Show this status.
    Show(String),
    /// Wait for this many milliseconds.
    Wait(u64),
}

/// What came of an action of the status bridge.
#[derive(Debug)]
pub enum BridgeEvent<E> {
    /// The poll ended like this.
    Polled(Result<String, E>),
    /// The status is shown, and this is now set as the time between two polls.
    Shown(Option<String>),
    /// The wait is over.
    Waited,
}

/// What a [`BridgeAction`] is.
pub enum BridgeActionState {
    Poll,
    Show(Seq<char>),
    Wait(u64),
}

/// What a [`BridgeEvent`] is.
pub enum BridgeEventState<E> {
    Polled(Result<Seq<char>, E>),
    Shown(Option<Seq<char>>),
    Waited,
}

impl View for BridgeAction {
    type V = BridgeActionState;

    open spec fn view(&self) -> BridgeActionState {
        match *self {
            BridgeAction::Poll => BridgeActionState::Poll,
            BridgeAction::Show(status) => BridgeActionState::Show(status@),
            BridgeAction::Wait(ms) => BridgeActionState::Wait(ms),
        }
    }
}

impl<E> View for BridgeEvent<E> {
    type V = BridgeEventState<E>;

    open spec fn view(&self) -> BridgeEventState<E> {
        match *self {
            BridgeEvent::Polled(polled) => BridgeEventState::Polled(polled_line(polled)),
            BridgeEvent::Shown(setting) => BridgeEventState::Shown(
                match setting {
                    Some(text) => Some(text@),
                    None => None,
                },
            ),
            BridgeEvent::Waited => BridgeEventState::Waited,
        }
    }
}

/// What the status bridge does after an event: it shows what a poll gave, then
/// waits for as long as is set by then, then polls again.
pub open spec fn bridge_advanced<E>(event: BridgeEventState<E>) -> BridgeActionState {
    match event {
        BridgeEventState::Polled(polled) => BridgeActionState::Show(shown_status(polled)),
        BridgeEventState::Shown(setting) => BridgeActionState::Wait(poll_interval(setting)),
        BridgeEventState::Waited => BridgeActionState::Poll,
    }
}

/// The first action of the status bridge.
pub fn begin_bridge() -> (action: BridgeAction)
    ensures
        action@ == BridgeActionState::Poll,
{
    BridgeAction::Poll
}

/// The action of the status bridge after an event.
pub fn advance_bridge<E>(event: BridgeEvent<E>) -> (action: BridgeAction)
    ensures
        action@ == bridge_advanced(event@),
{
    match event {
        BridgeEvent::Polled(polled) => BridgeAction::Show(status_after_poll(polled)),
        BridgeEvent::Shown(setting) => match &setting {
            Some(text) => BridgeAction::Wait(poll_interval_ms(Some(text.as_str()))),
            None => BridgeAction::Wait(poll_interval_ms(None)),
        },
        BridgeEvent::Waited => BridgeAction::Poll,
    }
}

/// Whether an event is what can come of an action.
pub open spec fn can_answer<E>(action: BridgeActionState, event: BridgeEventState<E>) -> bool {
    match action {
        BridgeActionState::Poll => event is Polled,
        BridgeActionState::Show(_) => event is Shown,
        BridgeActionState::Wait(_) => event is Waited,
    }
}

/// The actions of the status bridge in the course of these events: one at the
/// start, and one after each event.
pub open spec fn bridge_actions<E>(events: Seq<BridgeEventState<E>>) -> Seq<BridgeActionState> {
    Seq::new(
        events.len() + 1,
        |k: int|
            if k == 0 {
                BridgeActionState::Poll
            } else {
                bridge_advanced(events[k - 1])
            },
    )
}

/// The status bridge goes round without end, also after polls that failed: each
/// poll is followed by one status, the one for what the poll gave, and that by one
/// wait, of the time that is set by then and no less than the shortest, before the
/// next poll. In an unbroken course of events the actions 0, 3, 6 and so on are
/// the polls.
pub proof fn the_bridge_goes_round<E>(events: Seq<BridgeEventState<E>>, k: int)
    requires
        0 <= k <= events.len(),
        forall|i: int|
            0 <= i < events.len() ==> can_answer(bridge_actions(events)[i], #[trigger] events[i]),
    ensures
        bridge_actions(events).len() == events.len() + 1,
        k % 3 == 0 ==> bridge_actions(events)[k] is Poll,
        k % 3 == 1 ==> (events[k - 1] matches BridgeEventState::Polled(polled)
            && bridge_actions(events)[k] == BridgeActionState::Show(shown_status(polled))),
        k % 3 == 2 ==> (events[k - 1] matches BridgeEventState::Shown(setting)
            && bridge_actions(events)[k] == BridgeActionState::Wait(poll_interval(setting))
            && poll_interval(setting) >= MIN_POLL_INTERVAL_MS),
    decreases k,
{
    if k > 0 {
        the_bridge_goes_round(events, k - 1);
        assert(can_answer(bridge_actions(events)[k - 1], events[k - 1]));
    }
}

/// How a poll ends from `step` on, where the sockets answer like this.
pub open spec fn poll_ended<E>(answers: Seq<Result<Json, E>>, step: PollState<E>) -> PollState<E>
    decreases
            match step {
                PollState::Ask(index) => answers.len() - index,
                _ => 0,
            },
{
    match step {
        PollState::Ask(index) => if index < answers.len() {
            poll_ended(answers, poll_advanced(answers.len() as usize, index, answers[index as int]))
        } else {
            step
        },
        _ => step,
    }
}

proof fn lemma_poll_from<E>(answers: Seq<Result<Json, E>>, from: usize, found: int)
    requires
        from <= found < answers.len() <= usize::MAX,
        forall|i: int| from <= i < found ==> #[trigger] answers[i] is Err,
        answers[found] is Ok || found == answers.len() - 1,
    ensures
        poll_ended(answers, PollState::Ask(from)) == (match answers[found] {
            Ok(snapshot) => PollState::Line(snapshot_line(snapshot)),
            Err(error) => PollState::Failed(PollError::Socket(error)),
        }),
    decreases found - from,
{
    reveal_with_fuel(poll_ended, 2);
    if from < found {
        assert(answers[from as int] is Err);
        lemma_poll_from(answers, (from + 1) as usize, found);
    }
}

/// A poll asks the sockets in their order until one answers with a snapshot,
/// whose status line it gives. Where none does it ends with the error of the last
/// socket, and where there was no socket to ask it says so.
pub proof fn polls_take_the_first_snapshot<E>(answers: Seq<Result<Json, E>>)
    requires
        answers.len() <= usize::MAX,
    ensures
        forall|found: int|
            0 <= found < answers.len() && #[trigger] answers[found] is Ok && (forall|i: int|
                0 <= i < found ==> #[trigger] answers[i] is Err) ==> poll_ended(
                answers,
                poll_begun(answers.len() as usize),
            ) == PollState::<E>::Line(snapshot_line(answers[found]->Ok_0)),
        answers.len() > 0 && (forall|i: int| 0 <= i < answers.len() ==> #[trigger] answers[i] is Err)
            ==> poll_ended(answers, poll_begun(answers.len() as usize)) == PollState::<E>::Failed(
            PollError::Socket(answers.last()->Err_0),
        ),
        answers.len() == 0 ==> poll_ended(answers, poll_begun(answers.len() as usize))
            == PollState::<E>::Failed(PollError::NoCandidates),
{
    assert forall|found: int|
        0 <= found < answers.len() && #[trigger] answers[found] is Ok && (forall|i: int|
            0 <= i < found ==> #[trigger] answers[i] is Err) implies poll_ended(
        answers,
        poll_begun(answers.len() as usize),
    ) == PollState::<E>::Line(snapshot_line(answers[found]->Ok_0)) by {
        lemma_poll_from(answers, 0, found);
    }
    if answers.len() > 0 && (forall|i: int| 0 <= i < answers.len() ==> #[trigger] answers[i] is Err) {
        assert(answers[answers.len() - 1] is Err);
        lemma_poll_from(answers, 0, answers.len() - 1);
    }
}

/// Polls are never closer than the shortest interval.
pub proof fn polls_keep_their_distance(setting: Option<Seq<char>>)
    ensures
        poll_interval(setting) >= MIN_POLL_INTERVAL_MS,
{
}

/// An interval that is set in decimal and not too short is kept.
pub proof fn intervals_can_be_set(ms: u64)
    requires
        ms >= MIN_POLL_INTERVAL_MS,
    ensures
        poll_interval(Some(decimal(ms as nat))) == ms,
{
    decimal_spells_its_number(ms);
}

/// There is a socket to ask exactly where one is set to a path that is not empty.
pub proof fn sockets_must_be_set(ui_socket: Option<Vec<u8>>, node_socket: Option<Vec<u8>>)
    ensures
        (set_path(ui_socket) + set_path(node_socket)).len() > 0 <==> (ui_socket matches Some(path)
            && path@.len() > 0) || (node_socket matches Some(path) && path@.len() > 0),
{
}

/// What is no object tells nothing: its status line is that of an idle node.
pub proof fn only_objects_tell_something(snapshot: Json)
    requires
        !(snapshot is Object),
    ensures
        snapshot_line(snapshot) == "H2 seq=0 nodes=0 artifacts=0 last=idle"@,
{
    reveal_strlit("H2 seq=0 nodes=0 artifacts=0 last=idle");
    reveal_strlit("H2 seq=");
    reveal_strlit(" nodes=");
    reveal_strlit(" artifacts=");
    reveal_strlit(" last=");
    reveal_strlit("idle");
    assert(decimal(0) =~= seq!['0']);
    assert(snapshot_line(snapshot) =~= "H2 seq=0 nodes=0 artifacts=0 last=idle"@);
}

/// What the status line tells of a snapshot is what the snapshot holds: the numbers
/// in its status, the number of artifacts that it gives or lists, and the type of
/// the last event; each only where it is there and of the right form.
pub proof fn fields_are_what_the_snapshot_holds(
    snapshot: Json,
    n: u64,
    artifacts: Seq<Json>,
    events: Seq<Json>,
    name: Seq<char>,
)
    ensures
        fields_of(snapshot).events_seq == Some(n) <==> (snapshot.member("status"@) matches Some(
            status,
        ) && status.member("events_seq"@) == Some(Json::Number(JsonNumber::Unsigned(n)))),
        fields_of(snapshot).registered_nodes == Some(n) <==> (snapshot.member("status"@) matches Some(
            status,
        ) && status.member("registered_nodes"@) == Some(Json::Number(JsonNumber::Unsigned(n)))),
        fields_of(snapshot).artifact_count == Some(n) <==> snapshot.member("artifact_count"@)
            == Some(Json::Number(JsonNumber::Unsigned(n))),
        snapshot.member("artifacts"@) == Some(Json::Array(artifacts)) && artifacts.len() == n
            ==> fields_of(snapshot).listed_artifacts == Some(n),
        !(snapshot.member("artifacts"@) matches Some(Json::Array(_))) ==> fields_of(
            snapshot,
        ).listed_artifacts is None,
        snapshot.member("events"@) == Some(Json::Array(events)) && events.len() > 0 ==> (fields_of(
            snapshot,
        ).last_event == Some(name) <==> events[events.len() - 1].member("type"@) == Some(
            Json::Text(name),
        )),
        snapshot.member("events"@) == Some(Json::Array(events)) && events.len() == 0 ==> fields_of(
            snapshot,
        ).last_event is None,
        !(snapshot.member("events"@) matches Some(Json::Array(_))) ==> fields_of(
            snapshot,
        ).last_event is None,
        snapshot_line(snapshot) == line_of(fields_of(snapshot)),
{
}

/// A status line tells its fields one after the other, in decimal, with the last
/// event whole at the end. What is missing counts as 0, or as idle; a number of
/// artifacts that is given outweighs the list of them.
pub proof fn status_lines_tell_their_fields(
    fields: SnapshotState,
    seq: nat,
    nodes: nat,
    artifacts: nat,
    last: Seq<char>,
)
    requires
        fields.events_seq matches Some(n) ==> n == seq,
        fields.events_seq is None ==> seq == 0,
        fields.registered_nodes matches Some(n) ==> n == nodes,
        fields.registered_nodes is None ==> nodes == 0,
        fields.artifact_count matches Some(n) ==> n == artifacts,
        fields.artifact_count is None ==> (fields.listed_artifacts matches Some(n) ==> n
            == artifacts),
        fields.artifact_count is None && fields.listed_artifacts is None ==> artifacts == 0,
        fields.last_event matches Some(name) ==> name == last,
        fields.last_event is None ==> last == "idle"@,
    ensures
        ({
            let line = line_of(fields);
            let seq_end = 7 + decimal(seq).len() as int;
            let nodes_end = seq_end + 7 + decimal(nodes).len();
            let artifacts_end = nodes_end + 11 + decimal(artifacts).len();
            &&& line.take(7) == "H2 seq="@
            &&& line.subrange(7, seq_end) == decimal(seq)
            &&& line.subrange(seq_end, seq_end + 7) == " nodes="@
            &&& line.subrange(seq_end + 7, nodes_end) == decimal(nodes)
            &&& line.subrange(nodes_end, nodes_end + 11) == " artifacts="@
            &&& line.subrange(nodes_end + 11, artifacts_end) == decimal(artifacts)
            &&& line.subrange(artifacts_end, artifacts_end + 6) == " last="@
            &&& line.skip(artifacts_end + 6) == last
            &&& line.len() == artifacts_end + 6 + last.len()
        }),
{
    reveal_strlit("H2 seq=");
    reveal_strlit(" nodes=");
    reveal_strlit(" artifacts=");
    reveal_strlit(" last=");
    let line = line_of(fields);
    let seq_end = 7 + decimal(seq).len() as int;
    let nodes_end = seq_end + 7 + decimal(nodes).len();
    let artifacts_end = nodes_end + 11 + decimal(artifacts).len();
    assert(line =~= "H2 seq="@ + decimal(seq) + " nodes="@ + decimal(nodes) + " artifacts="@
        + decimal(artifacts) + " last="@ + last);
    assert(line.take(7) =~= "H2 seq="@);
    assert(line.subrange(7, seq_end) =~= decimal(seq));
    assert(line.subrange(seq_end, seq_end + 7) =~= " nodes="@);
    assert(line.subrange(seq_end + 7, nodes_end) =~= decimal(nodes));
    assert(line.subrange(nodes_end, nodes_end + 11) =~= " artifacts="@);
    assert(line.subrange(nodes_end + 11, artifacts_end) =~= decimal(artifacts));
    assert(line.subrange(artifacts_end, artifacts_end + 6) =~= " last="@);
    assert(line.skip(artifacts_end + 6) =~= last);
}

/// The sockets to ask are those that are set and not empty, each with its whole
/// path, the ui socket before the node's.
pub proof fn sockets_are_asked_in_order(ui: Vec<u8>, node: Vec<u8>)
    ensures
        ui@.len() > 0 && node@.len() > 0 ==> (set_path(Some(ui)) + set_path(Some(node))).len() == 2
            && (set_path(Some(ui)) + set_path(Some(node)))[0] == ui@ && (set_path(Some(ui))
            + set_path(Some(node)))[1] == node@,
        ui@.len() > 0 ==> set_path(Some(ui)).len() == 1 && set_path(Some(ui))[0] == ui@,
        ui@.len() == 0 ==> set_path(Some(ui)).len() == 0,
        set_path(None).len() == 0,
{
}

/// A list of paths is told path by path.
pub proof fn paths_are_told_one_by_one(paths: Seq<Vec<u8>>, i: int)
    ensures
        path_bytes(paths).len() == paths.len(),
        0 <= i < paths.len() ==> path_bytes(paths)[i] == paths[i]@,
{
}

/// The time between two polls is the number of milliseconds that is set, where it is
/// 250 or more, and a second in all other cases.
pub proof fn intervals_are_kept_or_a_second(text: Seq<char>, ms: u64)
    ensures
        spelled_number(text) == Some(ms) && ms >= 250 ==> poll_interval(Some(text)) == ms,
        spelled_number(text) == Some(ms) && ms < 250 ==> poll_interval(Some(text)) == 1000,
        spelled_number(text) is None ==> poll_interval(Some(text)) == 1000,
        poll_interval(None) == 1000,
{
}

/// A poll that gave a line shows that line, whole; one that failed shows that there
/// is no connection, whatever the error.
pub proof fn the_status_is_the_line_or_disconnected<E>(line: Seq<char>, error: E)
    ensures
        shown_status(Ok::<Seq<char>, E>(line)) == line,
        shown_status(Err::<Seq<char>, E>(error)) == "H2 disconnected"@,
{
}

/// A step of a poll goes to the next socket after an error, and ends with the line
/// of the snapshot that was answered, or with the error of the last socket.
pub proof fn polls_go_from_socket_to_socket<E>(
    candidates: usize,
    asked: usize,
    snapshot: Json,
    error: E,
)
    requires
        asked < candidates,
    ensures
        poll_begun::<E>(candidates) == PollState::<E>::Ask(0),
        poll_begun::<E>(0) == PollState::<E>::Failed(PollError::NoCandidates),
        poll_advanced(candidates, asked, Ok::<Json, E>(snapshot)) == PollState::<E>::Line(
            snapshot_line(snapshot),
        ),
        asked == candidates - 1 ==> poll_advanced(candidates, asked, Err::<Json, E>(error))
            == PollState::<E>::Failed(PollError::Socket(error)),
        asked < candidates - 1 ==> (poll_advanced(candidates, asked, Err::<Json, E>(error)) matches
            PollState::Ask(next) && next == asked + 1),
{
}

/// A snapshot is asked for from the start, with at most 5 events and 3 artifacts,
/// and with nothing else.
pub proof fn snapshots_are_asked_for_with_limits(key: Seq<char>)
    ensures
        snapshot_params().member("from_seq"@) == Some(Json::Number(JsonNumber::Unsigned(0))),
        snapshot_params().member("event_limit"@) == Some(Json::Number(JsonNumber::Unsigned(5))),
        snapshot_params().member("artifact_limit"@) == Some(Json::Number(JsonNumber::Unsigned(3))),
        key != "from_seq"@ && key != "event_limit"@ && key != "artifact_limit"@
            ==> snapshot_params().member(key) is None,
{
    reveal_strlit("from_seq");
    reveal_strlit("event_limit");
    reveal_strlit("artifact_limit");
    assert("from_seq"@.len() == 8 && "event_limit"@.len() == 11 && "artifact_limit"@.len() == 14);
}

/// Steps, actions, events and answers are told by what they hold.
pub proof fn steps_are_told_by_what_they_hold<E>(
    index: usize,
    ms: u64,
    text: String,
    value: Value,
    error: E,
    poll_error: PollError<E>,
    fields: SnapshotFields,
)
    ensures
        PollStep::<E>::Ask(index)@ == PollState::<E>::Ask(index),
        PollStep::<E>::Line(text)@ == PollState::<E>::Line(text@),
        PollStep::<E>::Failed(poll_error)@ == PollState::<E>::Failed(poll_error),
        answer_of(Ok::<Value, E>(value)) == Ok::<Json, E>(json_of(value)),
        answer_of(Err::<Value, E>(error)) == Err::<Json, E>(error),
        polled_line(Ok::<String, E>(text)) == Ok::<Seq<char>, E>(text@),
        polled_line(Err::<String, E>(error)) == Err::<Seq<char>, E>(error),
        BridgeAction::Poll@ == BridgeActionState::Poll,
        BridgeAction::Show(text)@ == BridgeActionState::Show(text@),
        BridgeAction::Wait(ms)@ == BridgeActionState::Wait(ms),
        BridgeEvent::Polled(Ok::<String, E>(text))@ == BridgeEventState::<E>::Polled(
            Ok::<Seq<char>, E>(text@),
        ),
        BridgeEvent::Polled(Err::<String, E>(error))@ == BridgeEventState::<E>::Polled(
            Err::<Seq<char>, E>(error),
        ),
        BridgeEvent::<E>::Shown(Some(text))@ == BridgeEventState::<E>::Shown(Some(text@)),
        BridgeEvent::<E>::Shown(None)@ == BridgeEventState::<E>::Shown(None),
        BridgeEvent::<E>::Waited@ == BridgeEventState::<E>::Waited,
        fields@.events_seq == fields.events_seq,
        fields@.registered_nodes == fields.registered_nodes,
        fields@.artifact_count == fields.artifact_count,
        fields@.listed_artifacts == fields.listed_artifacts,
        fields.last_event matches Some(name) ==> fields@.last_event == Some(name@),
        fields.last_event is None ==> fields@.last_event is None,
{
}

/// A poll without sockets reports that there were none; the error of a socket is
/// left to report itself.
pub proof fn polls_report_missing_sockets<E>(error: E)
    ensures
        PollError::<E>::NoCandidates.report() == Some("no h2 socket candidates"@),
        PollError::Socket(error).report() is None,
{
}

} // verus!
