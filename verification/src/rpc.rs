//! The node-rpc protocol: requests to an h2 node or ui socket, and what its
//! responses mean.

use crate::frame::{frame, framed, frames_can_be_read_back, header_value, payload_len};
use crate::json;
use crate::json::{displayed, error_text, json_of, parsed, printed, Json, JsonNumber};
use crate::pane::PaneId;
use crate::text::{
    decimal, decimal_is_made_of_digits, decimal_spells_its_number, is_digit, push_decimal,
    spelled_number,
};
use serde_json::Value;
use vstd::prelude::*;

verus! {

/// The longest response that is accepted from a ui socket: 8 MiB.
pub const MAX_UI_RESPONSE_LEN: usize = 0x80_0000;

/// Why a request has no result.
#[derive(Debug)]
pub enum RpcError {
    /// The request cannot be written, or the response not be read, as JSON.
    Json(serde_json::Error),
    /// The response of a ui socket would have more bytes than are accepted.
    FrameTooLarge(usize),
    /// The node answered with this error.
    Node(String),
    /// The ui socket answered with this error.
    Remote(String),
    /// The ui socket answered with neither an error nor a result.
    MissingResult,
}

/// What an [`RpcError`] is.
pub enum Failure {
    /// By the text that the error displays as.
    Json(Seq<char>),
    FrameTooLarge(usize),
    Node(Seq<char>),
    Remote(Seq<char>),
    MissingResult,
}

impl View for RpcError {
    type V = Failure;

    open spec fn view(&self) -> Failure {
        match *self {
            RpcError::Json(error) => Failure::Json(error_text(error)),
            RpcError::FrameTooLarge(len) => Failure::FrameTooLarge(len),
            RpcError::Node(text) => Failure::Node(text@),
            RpcError::Remote(text) => Failure::Remote(text@),
            RpcError::MissingResult => Failure::MissingResult,
        }
    }
}

/// What came of a request with this result.
pub open spec fn outcome(result: Result<Value, RpcError>) -> Result<Json, Failure> {
    match result {
        Ok(value) => Ok(json_of(value)),
        Err(error) => Err(error@),
    }
}

/// The text that reports a failure, save one of JSON, which reports itself.
pub open spec fn report(failure: Failure) -> Option<Seq<char>> {
    match failure {
        Failure::Json(_) => None,
        Failure::FrameTooLarge(len) => Some(
            "response frame too large: "@ + decimal(len as nat),
        ),
        Failure::Node(error) => Some("node-rpc error: "@ + error),
        Failure::Remote(error) => Some("rpc error: "@ + error),
        Failure::MissingResult => Some("missing rpc result"@),
    }
}

impl RpcError {
    /// The text that reports this error, save an error of JSON, which reports itself.
    pub fn message(&self) -> (text: Option<String>)
        ensures
            match text {
                Some(t) => report(self@) == Some(t@),
                None => report(self@) is None,
            },
    {
        match self {
            RpcError::Json(_) => None,
            RpcError::FrameTooLarge(len) => {
                let mut text: String = "response frame too large: ".to_owned();
                push_decimal(&mut text, *len as u64);
                Some(text)
            },
            RpcError::Node(error) => Some("node-rpc error: ".to_owned().concat(error.as_str())),
            RpcError::Remote(error) => Some("rpc error: ".to_owned().concat(error.as_str())),
            RpcError::MissingResult => Some("missing rpc result".to_owned()),
        }
    }
}

/// The name by which a node knows pane `pane_id` of process `pid`.
pub open spec fn node_id(pid: nat, pane_id: nat) -> Seq<char> {
    "hterm-"@ + decimal(pid) + "-pane-"@ + decimal(pane_id)
}

/// The request to call `method` with `params`.
pub open spec fn request(method: Seq<char>, params: Json) -> Json {
    Json::Object(
        Map::empty()
            .insert("jsonrpc"@, Json::Text("2.0"@))
            .insert("id"@, Json::Number(JsonNumber::Unsigned(1)))
            .insert("method"@, Json::Text(method))
            .insert("params"@, params),
    )
}

/// The request to register a pane that runs `command`.
pub open spec fn register_request(pid: u32, pane_id: PaneId, command: Seq<char>) -> Json {
    request(
        "register_node"@,
        Json::Object(
            Map::empty()
                .insert("node"@, Json::Text(node_id(pid as nat, pane_id as nat)))
                .insert("runtime"@, Json::Text("hterm-local-pane"@))
                .insert("labels"@, Json::Object(
                    Map::empty()
                        .insert("pane_id"@, Json::Number(JsonNumber::Unsigned(pane_id as u64)))
                        .insert("pid"@, Json::Number(JsonNumber::Unsigned(pid as u64)))
                        .insert("command"@, Json::Text(command)),
                )),
        ),
    )
}

/// The request to unregister a pane for this reason.
pub open spec fn unregister_request(pid: u32, pane_id: PaneId, reason: Seq<char>) -> Json {
    request(
        "unregister_node"@,
        Json::Object(
            Map::empty()
                .insert("node"@, Json::Text(node_id(pid as nat, pane_id as nat)))
                .insert("reason"@, Json::Text(reason)),
        ),
    )
}

/// The error in a node's response, if there is one other than `null`.
pub open spec fn node_error(response: Json) -> Option<Json> {
    match response.member("error"@) {
        Some(error) => if error is Null {
            None
        } else {
            Some(error)
        },
        None => None,
    }
}

/// What a node's response means: its error, or all of the response.
pub open spec fn node_outcome(response: Json) -> Result<Json, Failure> {
    match node_error(response) {
        Some(error) => Err(Failure::Node(displayed(error))),
        None => Ok(response),
    }
}

/// What a ui socket's response means: its error, be it `null`, or else its result.
pub open spec fn ui_outcome(response: Json) -> Result<Json, Failure> {
    match response.member("error"@) {
        Some(error) => Err(Failure::Remote(displayed(error))),
        None => match response.member("result"@) {
            Some(result) => Ok(result),
            None => Err(Failure::MissingResult),
        },
    }
}

/// The length that a ui socket's header gives, where it is accepted.
pub open spec fn accepted_ui_len(header: Seq<u8>) -> Option<nat> {
    if header_value(header) <= MAX_UI_RESPONSE_LEN {
        Some(header_value(header))
    } else {
        None
    }
}

/// The name by which a node knows pane `pane_id` of process `pid`.
pub fn node_id_for_pane(pid: u32, pane_id: PaneId) -> (id: String)
    ensures
        id@ == node_id(pid as nat, pane_id as nat),
{
    let mut id: String = "hterm-".to_owned();
    push_decimal(&mut id, pid as u64);
    id.append("-pane-");
    push_decimal(&mut id, pane_id as u64);
    id
}

/// The request to call `method` with `params`.
pub fn rpc_request(method: &str, params: Value) -> (value: Value)
    ensures
        json_of(value) == request(method@, json_of(params)),
{
    let mut members: serde_json::Map<String, Value> = json::no_members();
    json::insert(&mut members, "jsonrpc", json::string("2.0"));
    json::insert(&mut members, "id", json::number(1));
    json::insert(&mut members, "method", json::string(method));
    json::insert(&mut members, "params", params);
    json::object(members)
}

/// The request to register a pane that runs `command_description`.
pub fn register_node_request(pid: u32, pane_id: PaneId, command_description: &str) -> (value: Value)
    ensures
        json_of(value) == register_request(pid, pane_id, command_description@),
{
    let mut labels: serde_json::Map<String, Value> = json::no_members();
    json::insert(&mut labels, "pane_id", json::number(pane_id as u64));
    json::insert(&mut labels, "pid", json::number(pid as u64));
    json::insert(&mut labels, "command", json::string(command_description));
    let mut params: serde_json::Map<String, Value> = json::no_members();
    json::insert(&mut params, "node", json::string(node_id_for_pane(pid, pane_id).as_str()));
    json::insert(&mut params, "runtime", json::string("hterm-local-pane"));
    json::insert(&mut params, "labels", json::object(labels));
    rpc_request("register_node", json::object(params))
}

/// The request to unregister a pane for this reason.
pub fn unregister_node_request(pid: u32, pane_id: PaneId, reason: &str) -> (value: Value)
    ensures
        json_of(value) == unregister_request(pid, pane_id, reason@),
{
    let mut params: serde_json::Map<String, Value> = json::no_members();
    json::insert(&mut params, "node", json::string(node_id_for_pane(pid, pane_id).as_str()));
    json::insert(&mut params, "reason", json::string(reason));
    rpc_request("unregister_node", json::object(params))
}

/// The bytes that send a request: its JSON, framed.
pub fn request_frame(request: &Value) -> (bytes: Result<Vec<u8>, RpcError>)
    ensures
        bytes matches Ok(sent) && sent@ == framed(printed(json_of(*request))),
{
    match json::print(request) {
        Ok(payload) => Ok(frame(&payload)),
        Err(error) => Err(RpcError::Json(error)),
    }
}

/// The length of a node's response, from the header of its frame.
pub fn node_response_len(header: [u8; 4]) -> (len: usize)
    ensures
        len == header_value(header@),
{
    payload_len(header)
}

/// The length of a ui socket's response, from the header of its frame, unless
/// that is longer than is accepted.
pub fn ui_response_len(header: [u8; 4]) -> (len: Result<usize, RpcError>)
    ensures
        match len {
            Ok(n) => n == header_value(header@) && n <= MAX_UI_RESPONSE_LEN,
            Err(error) => error@ == Failure::FrameTooLarge(header_value(header@) as usize)
                && header_value(header@) > MAX_UI_RESPONSE_LEN,
        },
        match len {
            Ok(n) => accepted_ui_len(header@) == Some(n as nat),
            Err(_) => accepted_ui_len(header@) is None,
        },
{
    let len: usize = payload_len(header);
    if len > MAX_UI_RESPONSE_LEN {
        Err(RpcError::FrameTooLarge(len))
    } else {
        Ok(len)
    }
}

/// What a node's response means.
pub fn node_result(response: Value) -> (result: Result<Value, RpcError>)
    ensures
        outcome(result) == node_outcome(json_of(response)),
{
    if let Some(error) = json::get(&response, "error") {
        if !json::is_null(error) {
            return Err(RpcError::Node(json::display(error)));
        }
    }
    Ok(response)
}

/// What a ui socket's response means.
pub fn ui_result(response: &Value) -> (result: Result<Value, RpcError>)
    ensures
        outcome(result) == ui_outcome(json_of(*response)),
{
    if let Some(error) = json::get(response, "error") {
        return Err(RpcError::Remote(json::display(error)));
    }
    match json::get(response, "result") {
        Some(result) => Ok(json::copy(result)),
        None => Err(RpcError::MissingResult),
    }
}

/// Reads a node's response from the payload of its frame.
pub fn read_node_response(payload: &[u8]) -> (result: Result<Value, RpcError>)
    ensures
        outcome(result) == (match parsed(payload@) {
            Ok(response) => node_outcome(response),
            Err(text) => Err(Failure::Json(text)),
        }),
{
    match json::parse(payload) {
        Ok(response) => node_result(response),
        Err(error) => Err(RpcError::Json(error)),
    }
}

/// Reads a ui socket's response from the payload of its frame.
pub fn read_ui_response(payload: &[u8]) -> (result: Result<Value, RpcError>)
    ensures
        outcome(result) == (match parsed(payload@) {
            Ok(response) => ui_outcome(response),
            Err(text) => Err(Failure::Json(text)),
        }),
{
    match json::parse(payload) {
        Ok(response) => ui_result(&response),
        Err(error) => Err(RpcError::Json(error)),
    }
}

proof fn lemma_split_at_separator(
    first: Seq<char>,
    second: Seq<char>,
    separator: Seq<char>,
    first_rest: Seq<char>,
    second_rest: Seq<char>,
)
    requires
        forall|i: int| 0 <= i < first.len() ==> is_digit(#[trigger] first[i]),
        forall|i: int| 0 <= i < second.len() ==> is_digit(#[trigger] second[i]),
        separator.len() > 0,
        !is_digit(separator[0]),
        first + separator + first_rest == second + separator + second_rest,
    ensures
        first == second,
        first_rest == second_rest,
{
    let whole = first + separator + first_rest;
    assert(whole[first.len() as int] == separator[0]);
    assert(whole[second.len() as int] == separator[0]);
    assert(first.len() == second.len()) by {
        if first.len() < second.len() {
            assert(whole[first.len() as int] == second[first.len() as int]);
        } else if second.len() < first.len() {
            assert(whole[second.len() as int] == first[second.len() as int]);
        }
    }
    assert(first =~= whole.take(first.len() as int));
    assert(second =~= whole.take(second.len() as int));
    assert(first_rest =~= whole.skip((first.len() + separator.len()) as int));
    assert(second_rest =~= whole.skip((second.len() + separator.len()) as int));
}

/// No two panes share a node name, whether of one process or of two.
pub proof fn node_ids_are_distinct(pid: nat, pane_id: nat, other_pid: nat, other_pane_id: nat)
    ensures
        node_id(pid, pane_id) == node_id(other_pid, other_pane_id) <==> pid == other_pid && pane_id
            == other_pane_id,
{
    if node_id(pid, pane_id) == node_id(other_pid, other_pane_id) {
        let id = node_id(pid, pane_id);
        let tail = decimal(pid) + "-pane-"@ + decimal(pane_id);
        let other_tail = decimal(other_pid) + "-pane-"@ + decimal(other_pane_id);
        assert(tail =~= id.skip("hterm-"@.len() as int));
        assert(other_tail =~= id.skip("hterm-"@.len() as int));
        reveal_strlit("-pane-");
        decimal_is_made_of_digits(pid);
        decimal_is_made_of_digits(other_pid);
        decimal_is_made_of_digits(pane_id);
        decimal_is_made_of_digits(other_pane_id);
        lemma_split_at_separator(
            decimal(pid),
            decimal(other_pid),
            "-pane-"@,
            decimal(pane_id),
            decimal(other_pane_id),
        );
    }
}

/// A request holds the protocol version, the id 1, the method and its parameters.
pub proof fn requests_hold_what_they_ask(method: Seq<char>, params: Json)
    ensures
        request(method, params).member("jsonrpc"@) == Some(Json::Text("2.0"@)),
        request(method, params).member("id"@) == Some(Json::Number(JsonNumber::Unsigned(1))),
        request(method, params).member("method"@) == Some(Json::Text(method)),
        request(method, params).member("params"@) == Some(params),
{
    reveal_strlit("jsonrpc");
    reveal_strlit("id");
    reveal_strlit("method");
    reveal_strlit("params");
    assert("id"@.len() == 2 && "jsonrpc"@.len() == 7);
    assert("method"@[0] == 'm' && "params"@[0] == 'p');
    assert("method"@.len() == 6 && "params"@.len() == 6);
}

/// The node that a request names in its parameters.
pub open spec fn named_node(request: Json) -> Option<Seq<char>> {
    match request.member("params"@) {
        Some(params) => match params.member("node"@) {
            Some(node) => node.text(),
            None => None,
        },
        None => None,
    }
}

/// A pane is unregistered under the name that it was registered under.
pub proof fn registration_and_removal_name_one_node(
    pid: u32,
    pane_id: PaneId,
    command: Seq<char>,
    reason: Seq<char>,
)
    ensures
        named_node(register_request(pid, pane_id, command)) == Some(
            node_id(pid as nat, pane_id as nat),
        ),
        named_node(unregister_request(pid, pane_id, reason)) == Some(
            node_id(pid as nat, pane_id as nat),
        ),
{
    reveal_strlit("node");
    reveal_strlit("runtime");
    reveal_strlit("labels");
    reveal_strlit("reason");
    assert("node"@.len() == 4 && "runtime"@.len() == 7 && "labels"@.len() == 6 && "reason"@.len()
        == 6);
}

/// To a ui socket's caller an error of any kind, `null` too, outweighs a result.
pub proof fn ui_errors_outweigh_results(response: Json)
    ensures
        ui_outcome(response) is Ok <==> response.member("error"@) is None && response.member(
            "result"@,
        ) is Some,
        response.member("error"@) matches Some(error) ==> ui_outcome(response) == Err::<Json, Failure>(
            Failure::Remote(displayed(error)),
        ),
{
}

/// To a node's caller any error but `null` is the outcome; a response without such
/// an error is handed on whole.
pub proof fn only_null_is_no_node_error(response: Json)
    ensures
        node_outcome(response) == (match response.member("error"@) {
            Some(Json::Null) => Ok::<Json, Failure>(response),
            Some(error) => Err(Failure::Node(displayed(error))),
            None => Ok(response),
        }),
{
}

/// A node's name can be taken apart: behind "hterm-" stands the number of the
/// process, and behind "-pane-" that of the pane.
pub proof fn node_ids_tell_process_and_pane(pid: u64, pane_id: u64)
    ensures
        ({
            let id = node_id(pid as nat, pane_id as nat);
            let pid_end = 6 + decimal(pid as nat).len() as int;
            &&& id.len() == pid_end + 6 + decimal(pane_id as nat).len()
            &&& id.take(6) == "hterm-"@
            &&& spelled_number(id.subrange(6, pid_end)) == Some(pid)
            &&& id.subrange(pid_end, pid_end + 6) == "-pane-"@
            &&& spelled_number(id.skip(pid_end + 6)) == Some(pane_id)
        }),
{
    reveal_strlit("hterm-");
    reveal_strlit("-pane-");
    decimal_spells_its_number(pid);
    decimal_spells_its_number(pane_id);
    let id = node_id(pid as nat, pane_id as nat);
    let pid_end = 6 + decimal(pid as nat).len() as int;
    assert(id.take(6) =~= "hterm-"@);
    assert(id.subrange(6, pid_end) =~= decimal(pid as nat));
    assert(id.subrange(pid_end, pid_end + 6) =~= "-pane-"@);
    assert(id.skip(pid_end + 6) =~= decimal(pane_id as nat));
}

/// A request holds nothing but the version, the id, the method and the parameters.
pub proof fn requests_hold_nothing_else(method: Seq<char>, params: Json, key: Seq<char>)
    requires
        key != "jsonrpc"@,
        key != "id"@,
        key != "method"@,
        key != "params"@,
    ensures
        request(method, params).member(key) is None,
{
}

/// The label of this name in the request to register a pane.
pub open spec fn registered_label(request: Json, name: Seq<char>) -> Option<Json> {
    match request.member("params"@) {
        Some(params) => match params.member("labels"@) {
            Some(labels) => labels.member(name),
            None => None,
        },
        None => None,
    }
}

/// A registration carries what it was given: the command whole, and the numbers of
/// pane and process, as labels, and no other label. It names the runtime, and calls
/// the method that registers nodes.
pub proof fn registrations_carry_what_they_were_given(
    pid: u32,
    pane_id: PaneId,
    command: Seq<char>,
    key: Seq<char>,
)
    ensures
        registered_label(register_request(pid, pane_id, command), "command"@) == Some(
            Json::Text(command),
        ),
        registered_label(register_request(pid, pane_id, command), "pane_id"@) matches Some(
            Json::Number(JsonNumber::Unsigned(n)),
        ) && n == pane_id,
        registered_label(register_request(pid, pane_id, command), "pid"@) matches Some(
            Json::Number(JsonNumber::Unsigned(n)),
        ) && n == pid,
        key != "command"@ && key != "pane_id"@ && key != "pid"@ ==> registered_label(
            register_request(pid, pane_id, command),
            key,
        ) is None,
        register_request(pid, pane_id, command).member("method"@) == Some(
            Json::Text("register_node"@),
        ),
        register_request(pid, pane_id, command).member("jsonrpc"@) == Some(Json::Text("2.0"@)),
        register_request(pid, pane_id, command).member("id"@) == Some(
            Json::Number(JsonNumber::Unsigned(1)),
        ),
        register_request(pid, pane_id, command).member("params"@) matches Some(params)
            && params.member("runtime"@) == Some(Json::Text("hterm-local-pane"@)) && params.member(
            "node"@,
        ) == Some(Json::Text(node_id(pid as nat, pane_id as nat))) && (key != "node"@ && key
            != "runtime"@ && key != "labels"@ ==> params.member(key) is None),
{
    reveal_strlit("node");
    reveal_strlit("runtime");
    reveal_strlit("labels");
    reveal_strlit("pane_id");
    reveal_strlit("pid");
    reveal_strlit("command");
    assert("node"@.len() == 4 && "runtime"@.len() == 7 && "labels"@.len() == 6);
    assert("pane_id"@.len() == 7 && "pid"@.len() == 3 && "command"@.len() == 7);
    assert("pane_id"@[0] == 'p' && "command"@[0] == 'c');
    let params = register_request(pid, pane_id, command).member("params"@)->0;
    requests_hold_what_they_ask("register_node"@, params);
}

/// A removal carries the reason that it was given, names the pane's node, holds
/// nothing else, and calls the method that unregisters nodes.
pub proof fn removals_carry_their_reason(
    pid: u32,
    pane_id: PaneId,
    reason: Seq<char>,
    key: Seq<char>,
)
    ensures
        unregister_request(pid, pane_id, reason).member("params"@) matches Some(params)
            && params.member("reason"@) == Some(Json::Text(reason)) && params.member("node"@)
            == Some(Json::Text(node_id(pid as nat, pane_id as nat))) && (key != "node"@ && key
            != "reason"@ ==> params.member(key) is None),
        unregister_request(pid, pane_id, reason).member("method"@) == Some(
            Json::Text("unregister_node"@),
        ),
        unregister_request(pid, pane_id, reason).member("jsonrpc"@) == Some(Json::Text("2.0"@)),
        unregister_request(pid, pane_id, reason).member("id"@) == Some(
            Json::Number(JsonNumber::Unsigned(1)),
        ),
{
    reveal_strlit("node");
    reveal_strlit("reason");
    assert("node"@.len() == 4 && "reason"@.len() == 6);
    let params = unregister_request(pid, pane_id, reason).member("params"@)->0;
    requests_hold_what_they_ask("unregister_node"@, params);
}

/// A ui socket's result is handed on exactly as it is; without a result and an error
/// it is missed.
pub proof fn ui_results_are_handed_on_whole(response: Json, result: Json)
    requires
        response.member("error"@) is None,
    ensures
        response.member("result"@) == Some(result) ==> ui_outcome(response) == Ok::<Json, Failure>(
            result,
        ),
        response.member("result"@) is None ==> ui_outcome(response) == Err::<Json, Failure>(
            Failure::MissingResult,
        ),
{
}

/// A report says what failed, and then how: the error that was answered, whole, or
/// the length that was refused.
pub proof fn reports_tell_the_failure(error: Seq<char>, len: usize, json_text: Seq<char>)
    ensures
        report(Failure::Node(error)) matches Some(text) && text.take(16) == "node-rpc error: "@
            && text.skip(16) == error,
        report(Failure::Remote(error)) matches Some(text) && text.take(11) == "rpc error: "@
            && text.skip(11) == error,
        report(Failure::FrameTooLarge(len)) matches Some(text) && text.take(26)
            == "response frame too large: "@ && spelled_number(text.skip(26)) == Some(len as u64),
        report(Failure::MissingResult) == Some("missing rpc result"@),
        report(Failure::Json(json_text)) is None,
{
    reveal_strlit("node-rpc error: ");
    reveal_strlit("rpc error: ");
    reveal_strlit("response frame too large: ");
    decimal_spells_its_number(len as u64);
    let node = "node-rpc error: "@ + error;
    assert(node.take(16) =~= "node-rpc error: "@ && node.skip(16) =~= error);
    let remote = "rpc error: "@ + error;
    assert(remote.take(11) =~= "rpc error: "@ && remote.skip(11) =~= error);
    let large = "response frame too large: "@ + decimal(len as nat);
    assert(large.take(26) =~= "response frame too large: "@);
    assert(large.skip(26) =~= decimal(len as nat));
}

/// What came of a request is the value or the error that its result holds.
pub proof fn outcomes_are_what_results_hold(
    value: Value,
    text: String,
    len: usize,
    error: serde_json::Error,
)
    ensures
        outcome(Ok(value)) == Ok::<Json, Failure>(json_of(value)),
        outcome(Err(RpcError::Node(text))) == Err::<Json, Failure>(Failure::Node(text@)),
        outcome(Err(RpcError::Remote(text))) == Err::<Json, Failure>(Failure::Remote(text@)),
        outcome(Err(RpcError::FrameTooLarge(len))) == Err::<Json, Failure>(
            Failure::FrameTooLarge(len),
        ),
        outcome(Err(RpcError::MissingResult)) == Err::<Json, Failure>(Failure::MissingResult),
        outcome(Err(RpcError::Json(error))) == Err::<Json, Failure>(
            Failure::Json(error_text(error)),
        ),
{
}

/// A ui socket's response is accepted up to 8 MiB, with exactly the length that its
/// frame was made for, and refused beyond.
pub proof fn ui_responses_are_accepted_up_to_the_limit(payload: Seq<u8>)
    requires
        payload.len() < 0x1_0000_0000,
    ensures
        accepted_ui_len(framed(payload).take(4)) == (if payload.len() <= 8 * 1024 * 1024 {
            Some(payload.len())
        } else {
            None
        }),
{
    frames_can_be_read_back(payload, Seq::empty());
    assert((framed(payload) + Seq::<u8>::empty()).take(4) =~= framed(payload).take(4));
}

} // verus!
