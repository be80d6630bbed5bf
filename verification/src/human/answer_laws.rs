//! What requests and answers amount to, over the events and the lines
//! themselves.

use vstd::prelude::*;
use vstd::string::*;

use crate::human::cli;
use crate::human::cli::{AnswerV, HumanCliError, PendingRequest, PendingV};
use crate::ir::run_log::{RunLogEvent, RunLogPayload};
use crate::ir::vocab::{HumanMode, HumanPurpose};
use crate::json;
use crate::json::{Json, JsonV, Members};
use crate::text;
use crate::wire;
use crate::wire::Wire;

verus! {

proof fn lemma_one_member(key: Seq<char>, value: JsonV)
    ensures
        Members::none().with(key, value).entries == seq![(key, value)],
{
    assert(Members::none().with(key, value).entries =~= seq![(key, value)]);
}

/// Whether a request asks a human to judge.
pub open spec fn asks_to_judge(request: PendingV) -> bool {
    request.purpose == HumanPurpose::Step && request.mode == Some(HumanMode::Judge)
}

/// Whether a word answers a request: under supervision one of three decisions,
/// for a judgement one of three statuses, for a confirmation one of the labels,
/// for a repair one of the labels or, without labels, one of two decisions.
pub open spec fn is_answer(request: PendingV, word: Seq<char>) -> bool {
    if request.purpose == HumanPurpose::Supervision {
        word == "proceed"@ || word == "abort"@ || word == "suspend"@
    } else {
        match request.mode {
            Some(HumanMode::Judge) => word == "pass"@ || word == "fail"@ || word == "unknown"@,
            Some(HumanMode::Confirm) => request.decisions matches Some(labels) && labels.contains(
                word,
            ),
            Some(HumanMode::RepairWorld) => match request.decisions {
                Some(labels) => labels.contains(word),
                None => word == "done"@ || word == "cannotRepair"@,
            },
            _ => false,
        }
    }
}

/// Whether a request is answered by a JSON input.
pub open spec fn asks_for_input(request: PendingV) -> bool {
    request.purpose == HumanPurpose::Step && request.mode == Some(HumanMode::ProvideInput)
}

proof fn lemma_words(word: Seq<char>)
    ensures
        seq!["proceed"@, "abort"@, "suspend"@].contains(word) <==> word == "proceed"@ || word
            == "abort"@ || word == "suspend"@,
        seq!["pass"@, "fail"@, "unknown"@].contains(word) <==> word == "pass"@ || word == "fail"@
            || word == "unknown"@,
        seq!["done"@, "cannotRepair"@].contains(word) <==> word == "done"@ || word
            == "cannotRepair"@,
{
    let a = seq!["proceed"@, "abort"@, "suspend"@];
    assert(a[0] == "proceed"@ && a[1] == "abort"@ && a[2] == "suspend"@);
    let b = seq!["pass"@, "fail"@, "unknown"@];
    assert(b[0] == "pass"@ && b[1] == "fail"@ && b[2] == "unknown"@);
    let c = seq!["done"@, "cannotRepair"@];
    assert(c[0] == "done"@ && c[1] == "cannotRepair"@);
}

/// A line is taken as an answer exactly if, without the white space around it,
/// it is a word that answers the request; a request that asks for an input takes
/// any line that is not blank.
pub proof fn law_only_answers_are_taken(request: PendingV, line: Seq<char>)
    ensures
        cli::interpreted(request, line) is Ok <==> text::trimmed(line).len() > 0 && (is_answer(
            request,
            text::trimmed(line),
        ) || asks_for_input(request)),
{
    lemma_words(text::trimmed(line));
}

/// A response to a request that is answered by a word is an object with exactly
/// one member, whose value is the trimmed line itself; the member is the status
/// of a judgement, and a decision otherwise.
pub proof fn law_words_are_recorded_as_given(request: PendingV, line: Seq<char>)
    requires
        !asks_for_input(request),
        cli::response_to(request, line) is Ok,
    ensures
        cli::response_to(request, line) matches Ok(JsonV::Object(m)) && m.entries == seq![
            (
                if asks_to_judge(request) {
                    "status"@
                } else {
                    "decision"@
                },
                JsonV::Text(text::trimmed(line)),
            ),
        ],
        cli::interpreted(request, line) == Ok::<_, Seq<char>>(
            AnswerV::Response(cli::response_to(request, line)->Ok_0),
        ),
        is_answer(request, text::trimmed(line)),
{
    law_only_answers_are_taken(request, line);
    lemma_one_member("status"@, JsonV::Text(text::trimmed(line)));
    lemma_one_member("decision"@, JsonV::Text(text::trimmed(line)));
}

/// Different words give different responses, and one word gives one response
/// whatever white space stands around it.
pub proof fn law_other_words_are_other_responses(request: PendingV, a: Seq<char>, b: Seq<char>)
    requires
        !asks_for_input(request),
        cli::response_to(request, a) is Ok,
        cli::response_to(request, b) is Ok,
    ensures
        cli::response_to(request, a) == cli::response_to(request, b) <==> text::trimmed(a)
            == text::trimmed(b),
{
    law_words_are_recorded_as_given(request, a);
    law_words_are_recorded_as_given(request, b);
    let x = cli::response_to(request, a)->Ok_0->Object_0;
    let y = cli::response_to(request, b)->Ok_0->Object_0;
    assert(x.entries[0].1 == JsonV::Text(text::trimmed(a)));
    assert(y.entries[0].1 == JsonV::Text(text::trimmed(b)));
}

/// A response to a request for an input is an object with exactly one member,
/// the input as it was read; a line that is not JSON is refused.
pub proof fn law_inputs_are_recorded_as_read(request: PendingV, line: Seq<char>)
    requires
        asks_for_input(request),
        text::trimmed(line).len() > 0,
    ensures
        cli::response_to(request, line) is Ok <==> json::read_json(text::trimmed(line)) is Ok,
        cli::response_to(request, line) matches Ok(response) ==> response == JsonV::Object(
            Members {
                entries: seq![("input"@, json::read_json(text::trimmed(line))->Ok_0)],
            },
        ),
{
    if let Ok(input) = json::read_json(text::trimmed(line)) {
        lemma_one_member("input"@, input);
    }
}

/// Trimming takes away white space at both ends and nothing else.
pub proof fn law_trimming_takes_white_space(s: Seq<char>)
    ensures
        ({
            let t = text::trimmed(s);
            &&& t.len() > 0 ==> !text::is_white_space(t[0]) && !text::is_white_space(t.last())
            &&& exists|before: Seq<char>, after: Seq<char>|
                #![trigger before + t + after]
                {
                    &&& s == before + t + after
                    &&& forall|i: int|
                        0 <= i < before.len() ==> text::is_white_space(#[trigger] before[i])
                    &&& forall|i: int|
                        0 <= i < after.len() ==> text::is_white_space(#[trigger] after[i])
                }
        }),
{
    let rest = text::trim_start(s);
    let t = text::trimmed(s);
    lemma_trim_start(s);
    lemma_trim_end(rest);
    let before = s.take(s.len() - rest.len());
    let after = rest.skip(t.len() as int);
    assert(s =~= before + t + after);
    if t.len() > 0 {
        assert(t[0] == rest[0]);
    }
    assert forall|i: int| 0 <= i < before.len() implies text::is_white_space(
        #[trigger] before[i],
    ) by {
        assert(before[i] == s[i]);
    }
    assert forall|i: int| 0 <= i < after.len() implies text::is_white_space(#[trigger] after[i]) by {
        assert(after[i] == rest[t.len() + i]);
    }
}

proof fn lemma_trim_start(s: Seq<char>)
    ensures
        text::trim_start(s).len() <= s.len(),
        text::trim_start(s) == s.skip(s.len() - text::trim_start(s).len()),
        text::trim_start(s).len() > 0 ==> !text::is_white_space(text::trim_start(s)[0]),
        forall|i: int|
            0 <= i < s.len() - text::trim_start(s).len() ==> text::is_white_space(#[trigger] s[i]),
    decreases s.len(),
{
    if s.len() > 0 && text::is_white_space(s[0]) {
        let rest = s.skip(1);
        lemma_trim_start(rest);
        let t = text::trim_start(s);
        assert(t =~= s.skip(s.len() - t.len()));
        assert forall|i: int| 0 <= i < s.len() - t.len() implies text::is_white_space(
            #[trigger] s[i],
        ) by {
            if i > 0 {
                assert(rest[i - 1] == s[i]);
            }
        }
    } else {
        assert(s.skip(0) =~= s);
    }
}

proof fn lemma_trim_end(s: Seq<char>)
    ensures
        text::trim_end(s).len() <= s.len(),
        text::trim_end(s) == s.take(text::trim_end(s).len() as int),
        text::trim_end(s).len() > 0 ==> !text::is_white_space(text::trim_end(s).last()),
        forall|i: int|
            text::trim_end(s).len() <= i < s.len() ==> text::is_white_space(#[trigger] s[i]),
    decreases s.len(),
{
    if s.len() > 0 && text::is_white_space(s.last()) {
        let front = s.drop_last();
        lemma_trim_end(front);
        let t = text::trim_end(s);
        assert(t =~= s.take(t.len() as int));
        assert forall|i: int| t.len() <= i < s.len() implies text::is_white_space(
            #[trigger] s[i],
        ) by {
            if i < front.len() {
                assert(front[i] == s[i]);
            }
        }
    } else {
        assert(s.take(s.len() as int) =~= s);
    }
}

/// An event makes a request exactly if it is one, and the request is what the
/// event says, at the event's place in the run.
pub proof fn law_requests_are_read_as_made(event: RunLogEvent)
    ensures
        cli::request_in(event) is Some <==> event.payload is HumanRequested,
        event.payload matches RunLogPayload::HumanRequested {
            request_id,
            purpose,
            mode,
            prompt,
            presents,
            decisions,
            output_schema,
            deadline_at_ms,
        } ==> {
            let r = cli::request_in(event)->0;
            &&& r.request_id == request_id@
            &&& r.purpose == purpose
            &&& r.mode == mode
            &&& r.prompt == prompt@
            &&& r.presents == presents@
            &&& r.decisions is Some <==> decisions is Some
            &&& decisions matches Some(labels) ==> r.decisions->0.len() == labels@.len() && (
            forall|i: int|
                0 <= i < labels@.len() ==> #[trigger] r.decisions->0[i] == labels@[i]@)
            &&& r.output_schema is Some <==> output_schema is Some
            &&& output_schema matches Some(schema) ==> r.output_schema == Some(schema@)
            &&& r.deadline_at_ms == deadline_at_ms
            &&& r.run_path.len() == event.run_path@.len()
            &&& forall|i: int|
                0 <= i < r.run_path.len() ==> #[trigger] r.run_path[i]
                    == event.run_path@[i].wire_json()
        },
{
}

/// An event settles a request exactly if it is an answer to it, unless it is the
/// decision to suspend under supervision.
pub proof fn law_answers_settle_but_for_suspensions(event: RunLogEvent, id: Seq<char>)
    ensures
        cli::settled_in(event) == Some(id) <==> (event.payload matches RunLogPayload::HumanResponded {
            request_id,
            purpose,
            response,
            ..
        } && request_id@ == id && !(purpose == HumanPurpose::Supervision && response@.member(
            "decision"@,
        ) == Some(JsonV::Text("suspend"@)))),
{
}

proof fn lemma_without_is_filter(requests: Seq<PendingV>, id: Seq<char>)
    ensures
        cli::without_id(requests, id) == requests.filter(|r: PendingV| r.request_id != id),
    decreases requests.len(),
{
    reveal(Seq::filter);
    if requests.len() > 0 {
        lemma_without_is_filter(requests.drop_last(), id);
    } else {
        assert(cli::without_id(requests, id) =~= requests.filter(
            |r: PendingV| r.request_id != id,
        ));
    }
}

/// Requests are listed in the order in which they were made: a new one comes
/// last, an answer takes away those with its id and moves no other, and any
/// other event changes nothing.
pub proof fn law_requests_stay_in_order(events: Seq<RunLogEvent>, event: RunLogEvent)
    ensures
        cli::pending_in(Seq::<RunLogEvent>::empty()).len() == 0,
        cli::pending_in(events.push(event)) == (if event.payload is HumanRequested {
            cli::pending_in(events).push(cli::request_in(event)->0)
        } else if cli::settled_in(event) is Some {
            cli::pending_in(events).filter(
                |r: PendingV| Some(r.request_id) != cli::settled_in(event),
            )
        } else {
            cli::pending_in(events)
        }),
{
    let all = events.push(event);
    assert(all.drop_last() =~= events);
    assert(all.last() == event);
    if let Some(id) = cli::settled_in(event) {
        lemma_without_is_filter(cli::pending_in(events), id);
        let p = |r: PendingV| r.request_id != id;
        let q = |r: PendingV| Some(r.request_id) != cli::settled_in(event);
        assert(p =~= q);
    }
}

/// The request that is found under an id is the first pending one with that id,
/// and none is found exactly if none is pending.
pub proof fn law_the_first_request_is_found(requests: Seq<PendingV>, id: Seq<char>)
    ensures
        cli::first_with_id(requests, id) is None <==> forall|i: int|
            0 <= i < requests.len() ==> (#[trigger] requests[i]).request_id != id,
        cli::first_with_id(requests, id) matches Some(found) ==> exists|at: int|
            #![trigger requests[at]]
            {
                &&& 0 <= at < requests.len()
                &&& requests[at] == found
                &&& found.request_id == id
                &&& forall|i: int| 0 <= i < at ==> (#[trigger] requests[i]).request_id != id
            },
    decreases requests.len(),
{
    if requests.len() > 0 {
        let front = requests.drop_last();
        law_the_first_request_is_found(front, id);
        assert(forall|i: int| 0 <= i < front.len() ==> #[trigger] front[i] == requests[i]);
        let last = requests.len() - 1;
        assert(requests[last] == requests.last());
        match cli::first_with_id(front, id) {
            Some(found) => {
                let at = choose|at: int|
                    #![trigger front[at]]
                    {
                        &&& 0 <= at < front.len()
                        &&& front[at] == found
                        &&& found.request_id == id
                        &&& forall|i: int| 0 <= i < at ==> (#[trigger] front[i]).request_id != id
                    };
                assert(requests[at] == found);
                assert forall|i: int| 0 <= i < at implies (#[trigger] requests[i]).request_id
                    != id by {
                    assert(front[i].request_id != id);
                }
            },
            None => {
                assert forall|i: int| 0 <= i < last implies (#[trigger] requests[i]).request_id
                    != id by {
                    assert(front[i].request_id != id);
                }
            },
        }
    }
}

/// Whether a text stands in another.
pub open spec fn stands_in(part: Seq<char>, whole: Seq<char>) -> bool {
    exists|before: Seq<char>, after: Seq<char>| whole == #[trigger] (before + part + after)
}

proof fn lemma_stands(before: Seq<char>, part: Seq<char>, after: Seq<char>)
    ensures
        stands_in(part, before + part + after),
{
}

proof fn lemma_inside(part: Seq<char>, middle: Seq<char>, before: Seq<char>, after: Seq<char>)
    requires
        stands_in(part, middle),
    ensures
        stands_in(part, before + middle + after),
{
    let (b, a) = choose|b: Seq<char>, a: Seq<char>| middle == #[trigger] (b + part + a);
    assert(before + middle + after =~= (before + b) + part + (a + after));
}

/// What is shown of a request holds its id, its kind, its prompt, its values,
/// its deadline and how to answer it.
pub proof fn law_renderings_show_the_request(request: PendingV)
    ensures
        stands_in(request.request_id, cli::rendering(request)),
        stands_in(request.prompt, cli::rendering(request)),
        stands_in(cli::hint(request), cli::rendering(request)),
        request.purpose == HumanPurpose::Supervision ==> stands_in(
            "supervision gate"@,
            cli::rendering(request),
        ),
        request.purpose == HumanPurpose::Step ==> (request.mode matches Some(mode) ==> stands_in(
            mode.wire(),
            cli::rendering(request),
        )),
        request.presents matches JsonV::Array(items) ==> forall|i: int|
            0 <= i < items.len() ==> stands_in(
                json::compact(#[trigger] items[i]),
                cli::rendering(request),
            ),
        request.deadline_at_ms matches Some(deadline) ==> stands_in(
            text::decimal(deadline as nat),
            cli::rendering(request),
        ),
{
    let head = "── human request "@;
    let tail = " ──\n"@;
    let kind = "kind: "@ + cli::kind_text(request) + "\n"@;
    let prompt = "prompt: "@ + request.prompt + "\n"@;
    let shown = cli::shown(request.presents);
    let deadline = cli::deadline_line(request.deadline_at_ms);
    let hint = cli::hint(request) + "\n"@;
    let all = cli::rendering(request);
    lemma_eight(head, request.request_id, tail, kind, prompt, shown, deadline, hint);
    lemma_stands("kind: "@, cli::kind_text(request), "\n"@);
    lemma_deeper(cli::kind_text(request), kind, all);
    if request.purpose == HumanPurpose::Step {
        if let Some(mode) = request.mode {
            lemma_stands("human step ("@, mode.wire(), ")"@);
            lemma_deeper(mode.wire(), cli::kind_text(request), all);
        }
    }
    lemma_stands("prompt: "@, request.prompt, "\n"@);
    lemma_deeper(request.prompt, prompt, all);
    lemma_first_of_two(cli::hint(request), "\n"@);
    lemma_deeper(cli::hint(request), hint, all);
    if let Some(at) = request.deadline_at_ms {
        lemma_stands("deadlineAtMs: "@, text::decimal(at as nat), "\n"@);
        lemma_deeper(text::decimal(at as nat), deadline, all);
    }
    if let JsonV::Array(items) = request.presents {
        assert forall|i: int| 0 <= i < items.len() implies stands_in(
            json::compact(#[trigger] items[i]),
            all,
        ) by {
            lemma_shown(items, i);
            lemma_second_of_two("presents:\n"@, cli::shown_lines(items));
            lemma_deeper(json::compact(items[i]), cli::shown_lines(items), shown);
            lemma_deeper(json::compact(items[i]), shown, all);
        }
    }
}

proof fn lemma_deeper(part: Seq<char>, middle: Seq<char>, whole: Seq<char>)
    requires
        stands_in(part, middle),
        stands_in(middle, whole),
    ensures
        stands_in(part, whole),
{
    let (b, a) = choose|b: Seq<char>, a: Seq<char>| whole == #[trigger] (b + middle + a);
    lemma_inside(part, middle, b, a);
}

proof fn lemma_first_of_two(a: Seq<char>, b: Seq<char>)
    ensures
        stands_in(a, a + b),
{
    assert(a + b =~= Seq::<char>::empty() + a + b);
    lemma_stands(Seq::empty(), a, b);
}

proof fn lemma_second_of_two(a: Seq<char>, b: Seq<char>)
    ensures
        stands_in(b, a + b),
{
    assert(a + b =~= a + b + Seq::<char>::empty());
    lemma_stands(a, b, Seq::empty());
}

proof fn lemma_eight(
    a: Seq<char>,
    b: Seq<char>,
    c: Seq<char>,
    d: Seq<char>,
    e: Seq<char>,
    f: Seq<char>,
    g: Seq<char>,
    h: Seq<char>,
)
    ensures
        stands_in(b, a + b + c + d + e + f + g + h),
        stands_in(d, a + b + c + d + e + f + g + h),
        stands_in(e, a + b + c + d + e + f + g + h),
        stands_in(f, a + b + c + d + e + f + g + h),
        stands_in(g, a + b + c + d + e + f + g + h),
        stands_in(h, a + b + c + d + e + f + g + h),
{
    let ab = a + b;
    let abc = ab + c;
    let abcd = abc + d;
    let abcde = abcd + e;
    let abcdef = abcde + f;
    let abcdefg = abcdef + g;
    let all = abcdefg + h;
    lemma_first_of_two(abcdefg, h);
    lemma_second_of_two(abcdefg, h);
    lemma_first_of_two(abcdef, g);
    lemma_second_of_two(abcdef, g);
    lemma_first_of_two(abcde, f);
    lemma_second_of_two(abcde, f);
    lemma_first_of_two(abcd, e);
    lemma_second_of_two(abcd, e);
    lemma_first_of_two(abc, d);
    lemma_second_of_two(abc, d);
    lemma_first_of_two(ab, c);
    lemma_second_of_two(a, b);
    lemma_deeper(abcdef, abcdefg, all);
    lemma_deeper(g, abcdefg, all);
    lemma_deeper(abcde, abcdef, all);
    lemma_deeper(f, abcdef, all);
    lemma_deeper(abcd, abcde, all);
    lemma_deeper(e, abcde, all);
    lemma_deeper(abc, abcd, all);
    lemma_deeper(d, abcd, all);
    lemma_deeper(ab, abc, all);
    lemma_deeper(b, ab, all);
}

proof fn lemma_shown(items: Seq<JsonV>, i: int)
    requires
        0 <= i < items.len(),
    ensures
        stands_in(json::compact(items[i]), cli::shown_lines(items)),
    decreases items.len(),
{
    let n = (items.len() - 1) as nat;
    let line = "  ["@ + text::decimal(n) + "] "@ + json::compact(items.last()) + "\n"@;
    let front = cli::shown_lines(items.drop_last());
    if i == n {
        lemma_stands("  ["@ + text::decimal(n) + "] "@, json::compact(items.last()), "\n"@);
        assert(front + line =~= front + line + Seq::<char>::empty());
        lemma_inside(json::compact(items[i]), line, front, Seq::<char>::empty());
    } else {
        lemma_shown(items.drop_last(), i);
        assert(items.drop_last()[i] == items[i]);
        assert(front + line =~= Seq::<char>::empty() + front + line);
        lemma_inside(json::compact(items[i]), front, Seq::<char>::empty(), line);
    }
}

proof fn lemma_joined(parts: Seq<Seq<char>>, sep: Seq<char>, i: int)
    requires
        0 <= i < parts.len(),
    ensures
        stands_in(parts[i], text::join(parts, sep)),
    decreases parts.len(),
{
    let none = Seq::<char>::empty();
    let whole = text::join(parts, sep);
    if parts.len() == 1 {
        assert(whole =~= none + parts[0] + none);
        lemma_stands(none, parts[0], none);
    } else {
        let front = text::join(parts.drop_last(), sep);
        if i == parts.len() - 1 {
            assert(whole =~= (front + sep) + parts[i] + none);
            lemma_stands(front + sep, parts[i], none);
        } else {
            lemma_joined(parts.drop_last(), sep, i);
            assert(whole =~= none + front + (sep + parts.last()));
            lemma_inside(parts[i], front, none, sep + parts.last());
        }
    }
}

/// The line that says how to answer names every word that answers the request.
pub proof fn law_hints_name_the_answers(request: PendingV, word: Seq<char>)
    requires
        is_answer(request, word),
    ensures
        stands_in(word, cli::hint(request)),
{
    if request.purpose != HumanPurpose::Supervision && request.decisions is Some && request.mode
        != Some(HumanMode::Judge) {
        let labels = request.decisions->0;
        let i = choose|i: int| 0 <= i < labels.len() && labels[i] == word;
        lemma_joined(labels, "' | '"@, i);
        lemma_inside(word, text::join(labels, "' | '"@), "answer: '"@, "'"@);
    } else {
        lemma_fixed_hints();
    }
}

proof fn lemma_at(word: Seq<char>, hint: Seq<char>, at: int)
    requires
        0 <= at <= at + word.len() <= hint.len(),
        forall|i: int| 0 <= i < word.len() ==> #[trigger] word[i] == hint[at + i],
    ensures
        stands_in(word, hint),
{
    let rest = hint.skip(at + word.len());
    assert forall|j: int| at <= j < at + word.len() implies hint[j] == (hint.take(at) + word
        + rest)[j] by {
        assert(word[j - at] == hint[at + (j - at)]);
    }
    assert(hint =~= hint.take(at) + word + rest);
    lemma_stands(hint.take(at), word, rest);
}

proof fn lemma_fixed_hints()
    ensures
        stands_in("proceed"@, "answer: proceed | abort | suspend"@),
        stands_in("abort"@, "answer: proceed | abort | suspend"@),
        stands_in("suspend"@, "answer: proceed | abort | suspend"@),
        stands_in("pass"@, "answer: pass | fail | unknown"@),
        stands_in("fail"@, "answer: pass | fail | unknown"@),
        stands_in("unknown"@, "answer: pass | fail | unknown"@),
        stands_in("done"@, "answer: done | cannotRepair"@),
        stands_in("cannotRepair"@, "answer: done | cannotRepair"@),
{
    reveal_strlit("answer: proceed | abort | suspend");
    reveal_strlit("answer: pass | fail | unknown");
    reveal_strlit("answer: done | cannotRepair");
    reveal_strlit("proceed");
    reveal_strlit("abort");
    reveal_strlit("suspend");
    reveal_strlit("pass");
    reveal_strlit("fail");
    reveal_strlit("unknown");
    reveal_strlit("done");
    reveal_strlit("cannotRepair");
    lemma_at("proceed"@, "answer: proceed | abort | suspend"@, 8);
    lemma_at("abort"@, "answer: proceed | abort | suspend"@, 18);
    lemma_at("suspend"@, "answer: proceed | abort | suspend"@, 26);
    lemma_at("pass"@, "answer: pass | fail | unknown"@, 8);
    lemma_at("fail"@, "answer: pass | fail | unknown"@, 15);
    lemma_at("unknown"@, "answer: pass | fail | unknown"@, 22);
    lemma_at("done"@, "answer: done | cannotRepair"@, 8);
    lemma_at("cannotRepair"@, "answer: done | cannotRepair"@, 15);
}

/// A word that does not answer a request is quoted in what is said of it, with the words that
/// would: the fixed ones by name, the declared ones as they are declared.
pub proof fn law_refusals_quote_the_word(request: PendingV, word: Seq<char>)
    ensures
        ({
            let said = cli::word_refusal(request, word);
            let steered = request.purpose == HumanPurpose::Supervision;
            &&& steered ==> said == "'"@ + word
                + "' is not a supervision decision (proceed|abort|suspend)"@
            &&& !steered && request.mode == Some(HumanMode::Judge) ==> said == "'"@ + word
                + "' is not a judge status (pass|fail|unknown)"@
            &&& !steered && request.mode == Some(HumanMode::Confirm) && request.decisions is Some
                ==> said == "'"@ + word + "' is not one of the confirm labels "@
                + text::debug_texts(request.decisions->0)
            &&& !steered && request.mode == Some(HumanMode::RepairWorld) && request.decisions is Some
                ==> said == "'"@ + word + "' is not one of the declared repairWorld decisions "@
                + text::debug_texts(request.decisions->0)
            &&& !steered && request.mode == Some(HumanMode::RepairWorld) && request.decisions is None
                ==> said == "'"@ + word + "' is not a repairWorld decision (done|cannotRepair)"@
        }),
{
}

/// What contracts see of a request is all that it says.
pub proof fn law_requests_are_seen_whole(r: PendingRequest)
    ensures
        r@.request_id == r.request_id@,
        r@.purpose == r.purpose,
        r@.mode == r.mode,
        r@.prompt == r.prompt@,
        r@.presents == r.presents@,
        r@.decisions is Some <==> r.decisions is Some,
        r.decisions matches Some(d) ==> r@.decisions->0.len() == d@.len() && forall|i: int|
            0 <= i < d@.len() ==> #[trigger] r@.decisions->0[i] == d@[i]@,
        r@.output_schema is Some <==> r.output_schema is Some,
        r@.deadline_at_ms == r.deadline_at_ms,
        r@.run_path.len() == r.run_path@.len(),
{
}

/// What contracts see of a response, of a refusal and of an input is all that they say, and the
/// text of an error names its kind and what it is about.
pub proof fn law_responses_are_seen_whole(
    r: Result<Json, HumanCliError>,
    read: Result<Json, String>,
    e: HumanCliError,
)
    ensures
        r matches Ok(v) ==> cli::response_view(r) == Some(Ok::<JsonV, Seq<char>>(v@)),
        r matches Err(HumanCliError::InvalidAnswer(d)) ==> cli::response_view(r) == Some(
            Err::<JsonV, Seq<char>>(d@),
        ),
        r is Err && r->Err_0 !is InvalidAnswer ==> cli::response_view(r) is None,
        read matches Ok(v) ==> cli::read_view(read) == Ok::<JsonV, Seq<char>>(v@),
        read matches Err(d) ==> cli::read_view(read) == Err::<JsonV, Seq<char>>(d@),
        match e {
            HumanCliError::Store(d) => e.text() == "store: "@ + d@,
            HumanCliError::Io(d) => e.text() == "io: "@ + d@,
            HumanCliError::InvalidAnswer(d) => e.text() == "invalid answer: "@ + d@,
            HumanCliError::NotPending(id) => e.text() == "no pending request '"@ + id@
                + "' on the ledger"@,
        },
{
}

} // verus!
