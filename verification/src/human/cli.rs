//! Pending requests on a run's log, and the answers to them.

use vstd::prelude::*;

use crate::ir::primitives::JsonSchemaDocument;
use crate::ir::run_log::{RunLogEvent, RunLogPayload};
use crate::ir::run_path::RunPath;
use crate::ir::vocab::{HumanMode, HumanPurpose};
use crate::json;
use crate::json::{parse_json, write_compact, Json, JsonMap, JsonV, Members};
use crate::text;
use crate::text::{
    concat, concat3, concat4, concat5, decimal_text, join_text, quote_texts, same_text, trim_text,
};
use crate::wire;
use crate::wire::Duplicate;

verus! {

/// A request that has no final answer yet.
#[derive(Debug, PartialEq, Eq)]
pub struct PendingRequest {
    /// The id that an answer must name.
    pub request_id: String,
    /// Why a human is asked.
    pub purpose: HumanPurpose,
    /// Interaction mode; absent for supervision.
    pub mode: Option<HumanMode>,
    /// The prompt.
    pub prompt: String,
    /// The values that are shown.
    pub presents: Json,
    /// The options.
    pub decisions: Option<Vec<String>>,
    /// Input contract.
    pub output_schema: Option<JsonSchemaDocument>,
    /// Deadline in milliseconds since the epoch; absent for supervision.
    pub deadline_at_ms: Option<u64>,
    /// Run path of the step.
    pub run_path: RunPath,
}

/// A pending request, as contracts see it.
pub struct PendingV {
    /// The id that an answer must name.
    pub request_id: Seq<char>,
    /// Why a human is asked.
    pub purpose: HumanPurpose,
    /// Interaction mode.
    pub mode: Option<HumanMode>,
    /// The prompt.
    pub prompt: Seq<char>,
    /// The values that are shown.
    pub presents: JsonV,
    /// The options.
    pub decisions: Option<Seq<Seq<char>>>,
    /// Input contract.
    pub output_schema: Option<JsonV>,
    /// Deadline.
    pub deadline_at_ms: Option<u64>,
    /// JSON forms of the frames of the run path.
    pub run_path: Seq<JsonV>,
}

/// Optional options, as contracts see them.
pub open spec fn opt_texts(v: Option<Vec<String>>) -> Option<Seq<Seq<char>>> {
    match v {
        Some(items) => Some(text::texts(items@)),
        None => None,
    }
}

impl PendingRequest {
    /// The request, as contracts see it.
    pub open spec fn view(&self) -> PendingV {
        PendingV {
            request_id: self.request_id@,
            purpose: self.purpose,
            mode: self.mode,
            prompt: self.prompt@,
            presents: self.presents@,
            decisions: opt_texts(self.decisions),
            output_schema: wire::wire_some(self.output_schema),
            deadline_at_ms: self.deadline_at_ms,
            run_path: wire::wire_items(self.run_path@),
        }
    }
}

/// Why an answer could not be collected.
#[derive(Debug, PartialEq, Eq)]
pub enum HumanCliError {
    /// The store failed, with its text.
    Store(String),
    /// The terminal failed, with its text.
    Io(String),
    /// The answer does not fit the request.
    InvalidAnswer(String),
    /// No request with this id is pending.
    NotPending(String),
}

impl HumanCliError {
    /// The text of the error.
    pub open spec fn text(self) -> Seq<char> {
        match self {
            HumanCliError::Store(detail) => "store: "@ + detail@,
            HumanCliError::Io(detail) => "io: "@ + detail@,
            HumanCliError::InvalidAnswer(detail) => "invalid answer: "@ + detail@,
            HumanCliError::NotPending(id) => "no pending request '"@ + id@ + "' on the ledger"@,
        }
    }

    /// The text of the error.
    pub fn describe(&self) -> (r: String)
        ensures
            r@ == self.text(),
    {
        match self {
            HumanCliError::Store(detail) => concat("store: ", detail.as_str()),
            HumanCliError::Io(detail) => concat("io: ", detail.as_str()),
            HumanCliError::InvalidAnswer(detail) => concat("invalid answer: ", detail.as_str()),
            HumanCliError::NotPending(id) => concat3(
                "no pending request '",
                id.as_str(),
                "' on the ledger",
            ),
        }
    }
}

/// The request that an event makes, if it makes one.
pub open spec fn request_in(event: RunLogEvent) -> Option<PendingV> {
    match event.payload {
        RunLogPayload::HumanRequested {
            request_id,
            purpose,
            mode,
            prompt,
            presents,
            decisions,
            output_schema,
            deadline_at_ms,
        } => Some(
            PendingV {
                request_id: request_id@,
                purpose,
                mode,
                prompt: prompt@,
                presents: presents@,
                decisions: opt_texts(decisions),
                output_schema: wire::wire_some(output_schema),
                deadline_at_ms,
                run_path: wire::wire_items(event.run_path@),
            },
        ),
        _ => None,
    }
}

/// The request that an event answers for good, if it answers one. To suspend
/// under supervision is no final answer.
pub open spec fn settled_in(event: RunLogEvent) -> Option<Seq<char>> {
    match event.payload {
        RunLogPayload::HumanResponded { request_id, purpose, response, actor } => {
            if purpose == HumanPurpose::Supervision && response@.member("decision"@) == Some(
                JsonV::Text("suspend"@),
            ) {
                None
            } else {
                Some(request_id@)
            }
        },
        _ => None,
    }
}

/// The requests but for those with an id, in order.
pub open spec fn without_id(requests: Seq<PendingV>, id: Seq<char>) -> Seq<PendingV>
    decreases requests.len(),
{
    if requests.len() == 0 {
        Seq::empty()
    } else if requests.last().request_id == id {
        without_id(requests.drop_last(), id)
    } else {
        without_id(requests.drop_last(), id).push(requests.last())
    }
}

/// The pending requests of a log, in the order in which they were made.
pub open spec fn pending_in(events: Seq<RunLogEvent>) -> Seq<PendingV>
    decreases events.len(),
{
    if events.len() == 0 {
        Seq::empty()
    } else {
        let before = pending_in(events.drop_last());
        match request_in(events.last()) {
            Some(request) => before.push(request),
            None => match settled_in(events.last()) {
                Some(id) => without_id(before, id),
                None => before,
            },
        }
    }
}

/// Requests, as contracts see them.
pub open spec fn pending_views(v: Seq<PendingRequest>) -> Seq<PendingV> {
    v.map_values(|r: PendingRequest| r@)
}

fn copy_texts(v: &Option<Vec<String>>) -> (r: Option<Vec<String>>)
    ensures
        opt_texts(r) == opt_texts(*v),
{
    match v {
        None => None,
        Some(items) => {
            let mut out: Vec<String> = Vec::new();
            let mut i: usize = 0;
            while i < items.len()
                invariant
                    i <= items@.len(),
                    out@.len() == i,
                    forall|j: int| 0 <= j < i ==> #[trigger] out@[j]@ == items@[j]@,
                decreases items@.len() - i,
            {
                out.push(items[i].clone());
                i = i + 1;
            }
            assert(text::texts(out@) =~= text::texts(items@));
            Some(out)
        },
    }
}

fn drop_settled(requests: Vec<PendingRequest>, id: &str) -> (r: Vec<PendingRequest>)
    ensures
        pending_views(r@) == without_id(pending_views(requests@), id@),
{
    let ghost all = pending_views(requests@);
    let ghost held = requests@;
    let mut rest = requests;
    let mut kept: Vec<PendingRequest> = Vec::new();
    let ghost mut done: int = 0;
    assert(all.take(0) =~= Seq::empty());
    assert(pending_views(kept@) =~= Seq::empty());
    while rest.len() > 0
        invariant
            0 <= done <= held.len(),
            all == pending_views(held),
            rest@ == held.skip(done),
            pending_views(kept@) == without_id(all.take(done), id@),
        decreases rest@.len(),
    {
        let request = rest.remove(0);
        assert(request == held[done]);
        assert(all[done] == request@);
        assert(all.take(done + 1).drop_last() =~= all.take(done));
        assert(rest@ =~= held.skip(done + 1));
        let ghost before = kept@;
        if !same_text(request.request_id.as_str(), id) {
            let ghost view = request@;
            kept.push(request);
            assert(pending_views(kept@) =~= pending_views(before).push(view));
        }
        proof {
            done = done + 1;
        }
    }
    assert(all.take(done) =~= all);
    kept
}

/// The requests of a run's log that have no final answer, in the order in
/// which they were made.
pub fn pending_requests(events: &Vec<RunLogEvent>) -> (r: Vec<PendingRequest>)
    ensures
        pending_views(r@) == pending_in(events@),
{
    let mut pending: Vec<PendingRequest> = Vec::new();
    let mut i: usize = 0;
    assert(pending_views(pending@) =~= Seq::empty());
    while i < events.len()
        invariant
            i <= events@.len(),
            pending_views(pending@) == pending_in(events@.take(i as int)),
        decreases events@.len() - i,
    {
        let ghost before = pending@;
        assert(events@.take(i + 1).drop_last() =~= events@.take(i as int));
        match &events[i].payload {
            RunLogPayload::HumanRequested {
                request_id,
                purpose,
                mode,
                prompt,
                presents,
                decisions,
                output_schema,
                deadline_at_ms,
            } => {
                let request = PendingRequest {
                    request_id: request_id.clone(),
                    purpose: *purpose,
                    mode: *mode,
                    prompt: prompt.clone(),
                    presents: presents.clone(),
                    decisions: copy_texts(decisions),
                    output_schema: crate::wire::duplicate_some(output_schema),
                    deadline_at_ms: *deadline_at_ms,
                    run_path: events[i].run_path.duplicate(),
                };
                let ghost view = request@;
                assert(Some(view) == request_in(events@[i as int]));
                pending.push(request);
                assert(pending_views(pending@) =~= pending_views(before).push(view));
            },
            RunLogPayload::HumanResponded { request_id, purpose, response, actor: _ } => {
                let suspended = match response.member("decision") {
                    Some(decision) => decision.is_text("suspend"),
                    None => false,
                };
                if !(*purpose == HumanPurpose::Supervision && suspended) {
                    pending = drop_settled(pending, request_id.as_str());
                }
            },
            _ => {},
        }
        i = i + 1;
    }
    assert(events@.take(i as int) =~= events@);
    pending
}

/// The first request with an id.
pub open spec fn first_with_id(requests: Seq<PendingV>, id: Seq<char>) -> Option<PendingV>
    decreases requests.len(),
{
    if requests.len() == 0 {
        None
    } else {
        match first_with_id(requests.drop_last(), id) {
            Some(request) => Some(request),
            None => if requests.last().request_id == id {
                Some(requests.last())
            } else {
                None
            },
        }
    }
}

proof fn lemma_first_stays(requests: Seq<PendingV>, n: int, id: Seq<char>)
    requires
        0 <= n <= requests.len(),
        first_with_id(requests.take(n), id) is Some,
    ensures
        first_with_id(requests, id) == first_with_id(requests.take(n), id),
    decreases requests.len() - n,
{
    if n < requests.len() {
        assert(requests.take(n + 1).drop_last() =~= requests.take(n));
        lemma_first_stays(requests, n + 1, id);
    } else {
        assert(requests.take(n) =~= requests);
    }
}

/// The pending request with an id.
pub fn find_pending(events: &Vec<RunLogEvent>, request_id: &str) -> (r: Result<
    PendingRequest,
    HumanCliError,
>)
    ensures
        match first_with_id(pending_in(events@), request_id@) {
            Some(request) => r matches Ok(found) && found@ == request,
            None => r matches Err(HumanCliError::NotPending(id)) && id@ == request_id@,
        },
{
    let mut pending = pending_requests(events);
    let ghost all = pending_views(pending@);
    let mut i: usize = 0;
    assert(all.take(0) =~= Seq::empty());
    while i < pending.len()
        invariant
            i <= pending@.len(),
            all == pending_views(pending@),
            all == pending_in(events@),
            first_with_id(all.take(i as int), request_id@) is None,
        decreases pending@.len() - i,
    {
        assert(all.take(i + 1).drop_last() =~= all.take(i as int));
        assert(all[i as int] == pending@[i as int]@);
        if same_text(pending[i].request_id.as_str(), request_id) {
            proof {
                lemma_first_stays(all, i + 1, request_id@);
            }
            return Ok(pending.remove(i));
        }
        i = i + 1;
    }
    assert(all.take(i as int) =~= all);
    Err(HumanCliError::NotPending(request_id.to_owned()))
}

/// The words that answer a request, where it is answered by a word.
pub open spec fn vocabulary(request: PendingV) -> Option<Seq<Seq<char>>> {
    match (request.purpose, request.mode) {
        (HumanPurpose::Supervision, _) => Some(seq!["proceed"@, "abort"@, "suspend"@]),
        (_, Some(HumanMode::Confirm)) => Some(
            match request.decisions {
                Some(labels) => labels,
                None => Seq::empty(),
            },
        ),
        (_, Some(HumanMode::Judge)) => Some(seq!["pass"@, "fail"@, "unknown"@]),
        (_, Some(HumanMode::ProvideInput)) => None,
        (_, Some(HumanMode::RepairWorld)) => Some(
            match request.decisions {
                Some(labels) => labels,
                None => seq!["done"@, "cannotRepair"@],
            },
        ),
        (_, None) => None,
    }
}

/// The line that says how to answer a request.
pub open spec fn hint(request: PendingV) -> Seq<char> {
    match (request.purpose, request.mode) {
        (HumanPurpose::Supervision, _) => "answer: proceed | abort | suspend"@,
        (_, Some(HumanMode::Confirm)) => "answer: '"@ + text::join(
            vocabulary(request)->0,
            "' | '"@,
        ) + "'"@,
        (_, Some(HumanMode::Judge)) => "answer: pass | fail | unknown"@,
        (_, Some(HumanMode::ProvideInput)) => {
            "answer: one line of JSON matching the declared schema"@
        },
        (_, Some(HumanMode::RepairWorld)) => if request.decisions is Some {
            "answer: '"@ + text::join(vocabulary(request)->0, "' | '"@) + "'"@
        } else {
            "answer: done | cannotRepair"@
        },
        (_, None) => "answer: (unknown request shape)"@,
    }
}

fn quoted_labels(labels: &Vec<String>) -> (r: String)
    ensures
        r@ == "answer: '"@ + text::join(text::texts(labels@), "' | '"@) + "'"@,
{
    concat3("answer: '", join_text(labels, "' | '").as_str(), "'")
}

/// The line that says how to answer a request.
pub fn answer_hint(request: &PendingRequest) -> (r: String)
    ensures
        r@ == hint(request@),
{
    match (request.purpose, request.mode) {
        (HumanPurpose::Supervision, _) => "answer: proceed | abort | suspend".to_owned(),
        (_, Some(HumanMode::Confirm)) => match &request.decisions {
            Some(labels) => quoted_labels(labels),
            None => {
                let none: Vec<String> = Vec::new();
                assert(text::texts(none@) =~= Seq::empty());
                quoted_labels(&none)
            },
        },
        (_, Some(HumanMode::Judge)) => "answer: pass | fail | unknown".to_owned(),
        (_, Some(HumanMode::ProvideInput)) => {
            "answer: one line of JSON matching the declared schema".to_owned()
        },
        (_, Some(HumanMode::RepairWorld)) => match &request.decisions {
            Some(labels) => quoted_labels(labels),
            None => "answer: done | cannotRepair".to_owned(),
        },
        (_, None) => "answer: (unknown request shape)".to_owned(),
    }
}

/// What kind of request it is, in words.
pub open spec fn kind_text(request: PendingV) -> Seq<char> {
    match (request.purpose, request.mode) {
        (HumanPurpose::Supervision, _) => "supervision gate"@,
        (_, Some(mode)) => "human step ("@ + mode.wire() + ")"@,
        (_, None) => "human step"@,
    }
}

/// The lines of the values that are shown, numbered from `from`.
pub open spec fn shown_lines(items: Seq<JsonV>) -> Seq<char>
    decreases items.len(),
{
    if items.len() == 0 {
        Seq::empty()
    } else {
        shown_lines(items.drop_last()) + ("  ["@ + text::decimal((items.len() - 1) as nat) + "] "@
            + json::compact(items.last()) + "\n"@)
    }
}

/// The part of a rendering that shows values.
pub open spec fn shown(presents: JsonV) -> Seq<char> {
    match presents {
        JsonV::Array(items) => if items.len() > 0 {
            "presents:\n"@ + shown_lines(items)
        } else {
            Seq::empty()
        },
        _ => Seq::empty(),
    }
}

/// The part of a rendering that names the deadline.
pub open spec fn deadline_line(deadline_at_ms: Option<u64>) -> Seq<char> {
    match deadline_at_ms {
        Some(deadline) => "deadlineAtMs: "@ + text::decimal(deadline as nat) + "\n"@,
        None => Seq::empty(),
    }
}

/// A request as it is shown on a terminal.
pub open spec fn rendering(request: PendingV) -> Seq<char> {
    "── human request "@ + request.request_id + " ──\n"@ + ("kind: "@ + kind_text(request) + "\n"@)
        + ("prompt: "@ + request.prompt + "\n"@) + shown(request.presents) + deadline_line(
        request.deadline_at_ms,
    ) + (hint(request) + "\n"@)
}

fn render_items(items: &Vec<Json>) -> (r: String)
    ensures
        r@ == shown_lines(json::json_views(items@)),
{
    let ghost all = json::json_views(items@);
    let mut out = String::new();
    let mut i: usize = 0;
    assert(all.take(0) =~= Seq::empty());
    assert(out@ =~= Seq::empty());
    while i < items.len()
        invariant
            i <= items@.len(),
            all == json::json_views(items@),
            out@ == shown_lines(all.take(i as int)),
        decreases items@.len() - i,
    {
        assert(all.take(i + 1).drop_last() =~= all.take(i as int));
        assert(all[i as int] == items@[i as int]@);
        let line = concat5(
            "  [",
            decimal_text(i as u64).as_str(),
            "] ",
            write_compact(&items[i]).as_str(),
            "\n",
        );
        out.append(line.as_str());
        i = i + 1;
    }
    assert(all.take(i as int) =~= all);
    out
}

/// A request as it is shown on a terminal.
pub fn render(request: &PendingRequest) -> (r: String)
    ensures
        r@ == rendering(request@),
{
    let kind = match (request.purpose, request.mode) {
        (HumanPurpose::Supervision, _) => "supervision gate".to_owned(),
        (_, Some(mode)) => concat3("human step (", mode.wire_name(), ")"),
        (_, None) => "human step".to_owned(),
    };
    let mut out = concat3("── human request ", request.request_id.as_str(), " ──\n");
    out.append(concat3("kind: ", kind.as_str(), "\n").as_str());
    out.append(concat3("prompt: ", request.prompt.as_str(), "\n").as_str());
    let presents = match &request.presents {
        Json::Array(items) => {
            proof {
                json::lemma_array_view(*items);
            }
            if items.len() > 0 {
                concat("presents:\n", render_items(items).as_str())
            } else {
                String::new()
            }
        },
        _ => String::new(),
    };
    assert(presents@ =~= shown(request.presents@));
    out.append(presents.as_str());
    let deadline = match request.deadline_at_ms {
        Some(deadline) => concat3("deadlineAtMs: ", decimal_text(deadline).as_str(), "\n"),
        None => String::new(),
    };
    assert(deadline@ =~= deadline_line(request.deadline_at_ms));
    out.append(deadline.as_str());
    out.append(concat(answer_hint(request).as_str(), "\n").as_str());
    out
}

/// The line that says that an answer was recorded.
pub fn recorded_line(seq: u64) -> (r: String)
    ensures
        r@ == "response recorded (seq "@ + text::decimal(seq as nat) + ")\n"@,
{
    concat3("response recorded (seq ", decimal_text(seq).as_str(), ")\n")
}

/// Who answers at a terminal: the user of the operating system, by the first
/// of the two names that is set, at the host.
pub fn cli_actor(user: Option<String>, username: Option<String>, host: &str) -> (r: String)
    ensures
        r@ == "cli:os:"@ + (match user {
            Some(name) => name@,
            None => match username {
                Some(name) => name@,
                None => "unknown"@,
            },
        }) + "@"@ + host@,
{
    let name = match user {
        Some(name) => name,
        None => match username {
            Some(name) => name,
            None => "unknown".to_owned(),
        },
    };
    concat4("cli:os:", name.as_str(), "@", host)
}

/// What an answer line amounts to.
#[derive(Debug, PartialEq, Eq)]
pub enum Answer {
    /// The response.
    Response(Json),
    /// A JSON text that has to be read.
    Input(String),
}

/// What an answer line amounts to, as contracts see it.
pub enum AnswerV {
    /// The response.
    Response(JsonV),
    /// A JSON text that has to be read.
    Input(Seq<char>),
}

impl Answer {
    /// The answer, as contracts see it.
    pub open spec fn view(&self) -> AnswerV {
        match self {
            Answer::Response(response) => AnswerV::Response(response@),
            Answer::Input(text) => AnswerV::Input(text@),
        }
    }
}

/// The member under which a word is recorded.
pub open spec fn member_name(request: PendingV) -> Seq<char> {
    if request.purpose != HumanPurpose::Supervision && request.mode == Some(HumanMode::Judge) {
        "status"@
    } else {
        "decision"@
    }
}

/// The response that records a word.
pub open spec fn word_response(request: PendingV, word: Seq<char>) -> JsonV {
    Members::none().with(member_name(request), JsonV::Text(word)).object()
}

/// What is said of a word that does not answer the request.
pub open spec fn word_refusal(request: PendingV, word: Seq<char>) -> Seq<char> {
    match (request.purpose, request.mode) {
        (HumanPurpose::Supervision, _) => "'"@ + word
            + "' is not a supervision decision (proceed|abort|suspend)"@,
        (_, Some(HumanMode::Confirm)) => "'"@ + word + "' is not one of the confirm labels "@
            + text::debug_texts(vocabulary(request)->0),
        (_, Some(HumanMode::Judge)) => "'"@ + word + "' is not a judge status (pass|fail|unknown)"@,
        (_, Some(HumanMode::RepairWorld)) => if request.decisions is Some {
            "'"@ + word + "' is not one of the declared repairWorld decisions "@
                + text::debug_texts(vocabulary(request)->0)
        } else {
            "'"@ + word + "' is not a repairWorld decision (done|cannotRepair)"@
        },
        _ => "request carries no mode"@,
    }
}

/// What an answer line amounts to, or why it does not answer the request. White
/// space around the answer does not count.
pub open spec fn interpreted(request: PendingV, line: Seq<char>) -> Result<AnswerV, Seq<char>> {
    let answer = text::trimmed(line);
    if answer.len() == 0 {
        Err("empty answer"@)
    } else {
        match vocabulary(request) {
            Some(words) => if words.contains(answer) {
                Ok(AnswerV::Response(word_response(request, answer)))
            } else {
                Err(word_refusal(request, answer))
            },
            None => if request.mode == Some(HumanMode::ProvideInput) {
                Ok(AnswerV::Input(answer))
            } else {
                Err("request carries no mode"@)
            },
        }
    }
}

fn has_word(words: &Vec<String>, word: &str) -> (r: bool)
    ensures
        r == text::texts(words@).contains(word@),
{
    let ghost all = text::texts(words@);
    let mut i: usize = 0;
    while i < words.len()
        invariant
            i <= words@.len(),
            all == text::texts(words@),
            forall|j: int| 0 <= j < i ==> #[trigger] all[j] != word@,
        decreases words@.len() - i,
    {
        assert(all[i as int] == words@[i as int]@);
        if same_text(words[i].as_str(), word) {
            return true;
        }
        i = i + 1;
    }
    false
}

fn word_answer(member: &str, word: &str) -> (r: Answer)
    ensures
        r@ == AnswerV::Response(Members::none().with(member@, JsonV::Text(word@)).object()),
{
    Answer::Response(JsonMap::new().with(member, Json::text(word)).object())
}

/// Reads an answer line up to a JSON input, which is handed back to be read. A
/// request that declares its words is answered with these and no others.
pub fn read_answer(request: &PendingRequest, line: &str) -> (r: Result<Answer, HumanCliError>)
    ensures
        match interpreted(request@, line@) {
            Ok(answer) => r matches Ok(read) && read@ == answer,
            Err(detail) => r matches Err(HumanCliError::InvalidAnswer(said)) && said@ == detail,
        },
{
    let answer = trim_text(line);
    let word = answer.as_str();
    if word.unicode_len() == 0 {
        return Err(HumanCliError::InvalidAnswer("empty answer".to_owned()));
    }
    match (request.purpose, request.mode) {
        (HumanPurpose::Supervision, _) => {
            proof {
                lemma_three("proceed"@, "abort"@, "suspend"@, word@);
            }
            if same_text(word, "proceed") || same_text(word, "abort") || same_text(
                word,
                "suspend",
            ) {
                Ok(word_answer("decision", word))
            } else {
                Err(
                    HumanCliError::InvalidAnswer(
                        concat3(
                            "'",
                            word,
                            "' is not a supervision decision (proceed|abort|suspend)",
                        ),
                    ),
                )
            }
        },
        (_, Some(HumanMode::Confirm)) => {
            let none: Vec<String> = Vec::new();
            assert(text::texts(none@) =~= Seq::empty());
            let labels = match &request.decisions {
                Some(labels) => labels,
                None => &none,
            };
            if has_word(labels, word) {
                Ok(word_answer("decision", word))
            } else {
                Err(
                    HumanCliError::InvalidAnswer(
                        concat4(
                            "'",
                            word,
                            "' is not one of the confirm labels ",
                            quote_texts(labels).as_str(),
                        ),
                    ),
                )
            }
        },
        (_, Some(HumanMode::Judge)) => {
            proof {
                lemma_three("pass"@, "fail"@, "unknown"@, word@);
            }
            if same_text(word, "pass") || same_text(word, "fail") || same_text(word, "unknown") {
                Ok(word_answer("status", word))
            } else {
                Err(
                    HumanCliError::InvalidAnswer(
                        concat3("'", word, "' is not a judge status (pass|fail|unknown)"),
                    ),
                )
            }
        },
        (_, Some(HumanMode::ProvideInput)) => Ok(Answer::Input(answer)),
        (_, Some(HumanMode::RepairWorld)) => match &request.decisions {
            Some(labels) => {
                if has_word(labels, word) {
                    Ok(word_answer("decision", word))
                } else {
                    Err(
                        HumanCliError::InvalidAnswer(
                            concat4(
                                "'",
                                word,
                                "' is not one of the declared repairWorld decisions ",
                                quote_texts(labels).as_str(),
                            ),
                        ),
                    )
                }
            },
            None => {
                proof {
                    lemma_two("done"@, "cannotRepair"@, word@);
                }
                if same_text(word, "done") || same_text(word, "cannotRepair") {
                    Ok(word_answer("decision", word))
                } else {
                    Err(
                        HumanCliError::InvalidAnswer(
                            concat3(
                                "'",
                                word,
                                "' is not a repairWorld decision (done|cannotRepair)",
                            ),
                        ),
                    )
                }
            },
        },
        (_, None) => Err(HumanCliError::InvalidAnswer("request carries no mode".to_owned())),
    }
}

proof fn lemma_two(a: Seq<char>, b: Seq<char>, word: Seq<char>)
    ensures
        seq![a, b].contains(word) == (word == a || word == b),
{
    let words = seq![a, b];
    assert(words[0] == a);
    assert(words[1] == b);
}

proof fn lemma_three(a: Seq<char>, b: Seq<char>, c: Seq<char>, word: Seq<char>)
    ensures
        seq![a, b, c].contains(word) == (word == a || word == b || word == c),
{
    let words = seq![a, b, c];
    assert(words[0] == a);
    assert(words[1] == b);
    assert(words[2] == c);
}

/// The response with an input that was read, or the refusal of one that could
/// not be, with the reader's text.
pub open spec fn input_response(read: Result<JsonV, Seq<char>>) -> Result<JsonV, Seq<char>> {
    match read {
        Ok(input) => Ok(Members::none().with("input"@, input).object()),
        Err(detail) => Err("provideInput answer is not JSON: "@ + detail),
    }
}

/// The response that an answer line gives, or why it does not answer the
/// request.
pub open spec fn response_to(request: PendingV, line: Seq<char>) -> Result<JsonV, Seq<char>> {
    match interpreted(request, line) {
        Ok(AnswerV::Response(response)) => Ok(response),
        Ok(AnswerV::Input(input)) => input_response(json::read_json(input)),
        Err(detail) => Err(detail),
    }
}

/// A response or the refusal of an answer, as contracts see it.
pub open spec fn response_view(r: Result<Json, HumanCliError>) -> Option<
    Result<JsonV, Seq<char>>,
> {
    match r {
        Ok(response) => Some(Ok(response@)),
        Err(HumanCliError::InvalidAnswer(detail)) => Some(Err(detail@)),
        Err(_) => None,
    }
}

/// An input that was read or not, as contracts see it.
pub open spec fn read_view(read: Result<Json, String>) -> Result<JsonV, Seq<char>> {
    match read {
        Ok(input) => Ok(input@),
        Err(detail) => Err(detail@),
    }
}

/// Reads an answer line as a response to a request.
pub fn interpret_answer(request: &PendingRequest, line: &str) -> (r: Result<Json, HumanCliError>)
    ensures
        response_view(r) == Some(response_to(request@, line@)),
{
    match read_answer(request, line) {
        Ok(Answer::Response(response)) => Ok(response),
        Ok(Answer::Input(input)) => provided_input(parse_json(input.as_str())),
        Err(error) => Err(error),
    }
}

/// Makes the response with an input that was read.
pub fn provided_input(read: Result<Json, String>) -> (r: Result<Json, HumanCliError>)
    ensures
        response_view(r) == Some(input_response(read_view(read))),
{
    match read {
        Ok(input) => Ok(JsonMap::new().with("input", input).object()),
        Err(detail) => Err(
            HumanCliError::InvalidAnswer(
                concat("provideInput answer is not JSON: ", detail.as_str()),
            ),
        ),
    }
}

/// Whether the event at `i` makes a request that no later event settles.
pub open spec fn is_open(events: Seq<RunLogEvent>, i: int) -> bool {
    &&& 0 <= i < events.len()
    &&& request_in(events[i]) is Some
    &&& forall|j: int|
        i < j < events.len() ==> settled_in(#[trigger] events[j]) != Some(
            request_in(events[i])->0.request_id,
        )
}

proof fn lemma_without_id(requests: Seq<PendingV>, id: Seq<char>, request: PendingV)
    ensures
        without_id(requests, id).contains(request) == (requests.contains(request)
            && request.request_id != id),
    decreases requests.len(),
{
    if requests.len() > 0 {
        let before = requests.drop_last();
        lemma_without_id(before, id, request);
        assert(requests[requests.len() - 1] == requests.last());
        if before.contains(request) {
            let i = choose|i: int| 0 <= i < before.len() && before[i] == request;
            assert(requests[i] == request);
        }
        if requests.contains(request) && request != requests.last() {
            let i = choose|i: int| 0 <= i < requests.len() && requests[i] == request;
            assert(before[i] == request);
        }
        let kept = without_id(before, id);
        if requests.last().request_id != id {
            lemma_push_contains(kept, requests.last(), request);
        }
    }
}

proof fn lemma_push_contains(s: Seq<PendingV>, last: PendingV, request: PendingV)
    ensures
        s.push(last).contains(request) == (s.contains(request) || request == last),
{
    let n = s.push(last);
    assert(n[n.len() - 1] == last);
    if s.contains(request) {
        let i = choose|i: int| 0 <= i < s.len() && s[i] == request;
        assert(n[i] == request);
    }
    if n.contains(request) && request != last {
        let i = choose|i: int| 0 <= i < n.len() && n[i] == request;
        assert(s[i] == request);
    }
}

/// A request is pending exactly if some event makes it and no later event
/// settles it.
pub proof fn law_pending_means_unsettled(events: Seq<RunLogEvent>, request: PendingV)
    ensures
        pending_in(events).contains(request) == exists|i: int| #[trigger]
            is_open(events, i) && request_in(events[i]) == Some(request),
    decreases events.len(),
{
    if events.len() > 0 {
        let before = events.drop_last();
        let n = events.len() - 1;
        law_pending_means_unsettled(before, request);
        let p = pending_in(before);
        match request_in(events.last()) {
            Some(made) => {
                lemma_push_contains(p, made, request);
            },
            None => match settled_in(events.last()) {
                Some(id) => {
                    lemma_without_id(p, id, request);
                },
                None => {},
            },
        }
        assert(is_open(events, n) == (request_in(events.last()) is Some));
        assert forall|i: int| 0 <= i < n implies (#[trigger] is_open(events, i)) == (is_open(
            before,
            i,
        ) && settled_in(events.last()) != Some(request_in(events[i])->0.request_id)) by {
            assert(before[i] == events[i]);
            if is_open(before, i) && settled_in(events.last()) != Some(
                request_in(events[i])->0.request_id,
            ) {
                assert forall|j: int| i < j < events.len() implies settled_in(
                    #[trigger] events[j],
                ) != Some(request_in(events[i])->0.request_id) by {
                    if j < n {
                        assert(before[j] == events[j]);
                    }
                }
            }
            if is_open(events, i) {
                assert forall|j: int| i < j < before.len() implies settled_in(
                    #[trigger] before[j],
                ) != Some(request_in(before[i])->0.request_id) by {
                    assert(before[j] == events[j]);
                }
                assert(events[n] == events.last());
            }
        }
        if exists|i: int| #[trigger] is_open(before, i) && request_in(before[i]) == Some(request) {
            let i = choose|i: int| #[trigger]
                is_open(before, i) && request_in(before[i]) == Some(request);
            assert(before[i] == events[i]);
            assert(is_open(events, i) || settled_in(events.last()) == Some(request.request_id));
        }
        if exists|i: int| #[trigger] is_open(events, i) && request_in(events[i]) == Some(request) {
            let i = choose|i: int| #[trigger]
                is_open(events, i) && request_in(events[i]) == Some(request);
            if i < n {
                assert(before[i] == events[i]);
                assert(is_open(before, i));
            }
        }
        if request_in(events.last()) == Some(request) {
            assert(is_open(events, n));
        }
    } else {
        assert forall|i: int| !#[trigger] is_open(events, i) by {}
    }
}

/// An event that settles a request leaves none pending with its id; any other
/// event leaves what was pending.
pub proof fn law_answers_settle(events: Seq<RunLogEvent>, event: RunLogEvent, request: PendingV)
    ensures
        settled_in(event) == Some(request.request_id) ==> !pending_in(
            events.push(event),
        ).contains(request),
        pending_in(events).contains(request) && settled_in(event) != Some(request.request_id)
            ==> pending_in(events.push(event)).contains(request),
{
    let all = events.push(event);
    assert(all.drop_last() =~= events);
    assert(all.last() == event);
    match request_in(event) {
        Some(made) => {
            lemma_push_contains(pending_in(events), made, request);
        },
        None => match settled_in(event) {
            Some(id) => {
                lemma_without_id(pending_in(events), id, request);
            },
            None => {},
        },
    }
}

/// Every word that a request names as an answer is taken as one. A word that
/// is empty or has white space around it is left out: an answer line cannot
/// spell it.
pub proof fn law_named_words_are_answers(request: PendingV, word: Seq<char>)
    requires
        vocabulary(request) matches Some(words) && words.contains(word),
        word.len() > 0,
        text::trimmed(word) == word,
    ensures
        interpreted(request, word) == Ok::<_, Seq<char>>(
            AnswerV::Response(word_response(request, word)),
        ),
{
}

/// A response to a request that names its words is one of these words.
pub proof fn law_responses_are_named_words(request: PendingV, line: Seq<char>)
    requires
        vocabulary(request) is Some,
        interpreted(request, line) is Ok,
    ensures
        vocabulary(request)->0.contains(text::trimmed(line)),
        interpreted(request, line) == Ok::<_, Seq<char>>(
            AnswerV::Response(word_response(request, text::trimmed(line))),
        ),
{
}

} // verus!
