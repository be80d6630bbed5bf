//! Laws of run paths: reading and rendering undo each other.

use vstd::prelude::*;

use crate::ir::primitives;
use crate::ir::primitives::CharClass;
use crate::ir::run_path;
use crate::ir::run_path::{FrameV, PathFaultV, PathFrame};
use crate::ir::vocab::{HandlerHook, Phase};
use crate::text;

verus! {

/// Whether a frame is attached to its step's segment.
pub open spec fn is_suffix(frame: FrameV) -> bool {
    frame is Attempt || frame is Phase || frame is Iteration || frame is Assertion
}

/// The texts of attached frames, one after the other.
pub open spec fn suffix_text(frames: Seq<FrameV>) -> Seq<char>
    decreases frames.len(),
{
    if frames.len() == 0 {
        Seq::empty()
    } else {
        run_path::frame_text(frames[0], false) + suffix_text(frames.skip(1))
    }
}

proof fn lemma_suffix_text_push(frames: Seq<FrameV>, last: FrameV)
    ensures
        suffix_text(frames.push(last)) == suffix_text(frames) + run_path::frame_text(last, false),
    decreases frames.len(),
{
    if frames.len() == 0 {
        assert(frames.push(last).skip(1) =~= Seq::<FrameV>::empty());
        assert(suffix_text(Seq::<FrameV>::empty()) =~= Seq::<char>::empty());
        assert(frames.push(last)[0] == last);
        assert(suffix_text(frames.push(last)) =~= run_path::frame_text(last, false));
        assert(suffix_text(frames) + run_path::frame_text(last, false) =~= run_path::frame_text(last, false));
    } else {
        lemma_suffix_text_push(frames.skip(1), last);
        assert(frames.push(last).skip(1) =~= frames.skip(1).push(last));
        assert(frames.push(last)[0] == frames[0]);
        assert(suffix_text(frames.push(last)) =~= suffix_text(frames) + run_path::frame_text(last, false));
    }
}

/// Frames that attach to the segment before them extend its text and leave a
/// waiting arrow waiting.
proof fn lemma_render_attached(base: Seq<FrameV>, more: Seq<FrameV>)
    requires
        forall|i: int|
            0 <= i < more.len() ==> is_suffix(#[trigger] more[i]) && (run_path::attaches(more[i])
                || run_path::render_state(base).pending is None),
    ensures
        run_path::render_state(base + more).out == run_path::render_state(base).out + suffix_text(more),
        run_path::render_state(base + more).pending == run_path::render_state(base).pending,
    decreases more.len(),
{
    if more.len() == 0 {
        assert(base + more =~= base);
        assert(run_path::render_state(base).out + suffix_text(more) =~= run_path::render_state(base).out);
    } else {
        let front = more.drop_last();
        assert forall|i: int| 0 <= i < front.len() implies is_suffix(#[trigger] front[i]) && (
        run_path::attaches(front[i]) || run_path::render_state(base).pending is None) by {
            assert(front[i] == more[i]);
        }
        lemma_render_attached(base, front);
        assert((base + more).drop_last() =~= base + front);
        assert((base + more).last() == more.last());
        let last = more.last();
        assert(is_suffix(more[more.len() - 1]));
        assert(front.push(last) =~= more);
        lemma_suffix_text_push(front, last);
        let state = run_path::render_state(base + front);
        assert(state.pending is None ==> state.out + run_path::arrow_text(state.pending) =~= state.out);
        assert(run_path::render_state(base + more).out =~= run_path::render_state(base).out + suffix_text(more));
    }
}

/// A frame that opens a segment first writes out a waiting arrow.
proof fn lemma_render_opener(base: Seq<FrameV>, frame: FrameV)
    requires
        !run_path::attaches(frame),
    ensures
        run_path::render_state(base.push(frame)).out == run_path::rendered(base) + run_path::frame_text(
            frame,
            run_path::rendered(base).len() == 0,
        ),
        run_path::render_state(base.push(frame)).pending == (match frame {
            FrameV::Call { callee, prefix, .. } => Some("call→"@ + run_path::pinned_text(callee, prefix)),
            _ => None,
        }),
{
    assert(base.push(frame).drop_last() =~= base);
}

/// The text of the frames that suffixes were read as is the suffixes' text.
#[verifier::rlimit(60)]
proof fn lemma_suffixes_read(segment: Seq<char>, rest: Seq<char>, after: bool)
    requires
        run_path::suffix_frames(segment, rest, after) is Ok,
    ensures
        suffix_text(run_path::suffix_frames(segment, rest, after)->Ok_0) == rest,
        forall|i: int|
            0 <= i < run_path::suffix_frames(segment, rest, after)->Ok_0.len() ==> is_suffix(
                #[trigger] run_path::suffix_frames(segment, rest, after)->Ok_0[i],
            ),
    decreases rest.len(),
{
    let fs = run_path::suffix_frames(segment, rest, after)->Ok_0;
    if rest.len() == 0 {
        assert(fs =~= Seq::<FrameV>::empty());
        assert(suffix_text(fs) =~= rest);
    } else if rest[0] == '#' {
        run_path::lemma_class_len(CharClass::Digit, rest.skip(1));
        let end = 1 + run_path::class_len(CharClass::Digit, rest.skip(1));
        let digits = rest.subrange(1, end);
        text::lemma_unsigned_value(digits);
        lemma_suffixes_read(segment, rest.skip(end), true);
        let tail = run_path::suffix_frames(segment, rest.skip(end), true)->Ok_0;
        lemma_cons(fs, FrameV::Attempt { n: text::unsigned_value(digits)->0 }, tail);
        assert(suffix_text(fs) =~= seq!['#'] + digits + rest.skip(end));
        assert(suffix_text(fs) =~= rest);
    } else if rest[0] == ':' {
        run_path::lemma_class_len(CharClass::Lower, rest.skip(1));
        let end = 1 + run_path::class_len(CharClass::Lower, rest.skip(1));
        let keyword = rest.subrange(1, end);
        lemma_suffixes_read(segment, rest.skip(end), false);
        let tail = run_path::suffix_frames(segment, rest.skip(end), false)->Ok_0;
        let phase = run_path::phase_named(keyword)->0;
        lemma_cons(fs, FrameV::Phase { phase }, tail);
        assert(phase.wire() == keyword);
        assert(suffix_text(fs) =~= rest);
    } else if rest[0] == '[' {
        text::lemma_find(rest, ']');
        let close = text::find(rest, ']');
        let body = rest.subrange(1, close);
        text::lemma_find(body, ':');
        let colon = text::find(body, ':');
        text::lemma_unsigned_value(body.take(colon));
        lemma_suffixes_read(segment, rest.skip(close + 1), false);
        let tail = run_path::suffix_frames(segment, rest.skip(close + 1), false)->Ok_0;
        let frame = run_path::iteration_frame(body)->Ok_0;
        lemma_cons(fs, frame, tail);
        let inner = run_path::frame_text(frame, false);
        assert(inner =~= seq!['['] + body + seq![']']);
        assert(suffix_text(fs) =~= inner + rest.skip(close + 1));
        assert(suffix_text(fs) =~= rest);
    } else {
        assert(rest[0] == '!');
        let frame = FrameV::Assertion { assert_id: rest.skip(1) };
        assert(fs =~= seq![frame] + Seq::<FrameV>::empty());
        lemma_cons(fs, frame, Seq::empty());
        assert(suffix_text(fs) =~= rest);
    }
}

proof fn lemma_cons(fs: Seq<FrameV>, frame: FrameV, tail: Seq<FrameV>)
    requires
        fs == seq![frame] + tail,
        is_suffix(frame),
        forall|i: int| 0 <= i < tail.len() ==> is_suffix(#[trigger] tail[i]),
    ensures
        suffix_text(fs) == run_path::frame_text(frame, false) + suffix_text(tail),
        forall|i: int| 0 <= i < fs.len() ==> is_suffix(#[trigger] fs[i]),
{
    assert(fs[0] == frame);
    assert(fs.skip(1) =~= tail);
    assert forall|i: int| 0 <= i < fs.len() implies is_suffix(#[trigger] fs[i]) by {
        if i > 0 {
            assert(fs[i] == tail[i - 1]);
        }
    }
}

proof fn lemma_anchor(frames: Seq<FrameV>)
    ensures
        0 <= run_path::anchor(frames) <= frames.len(),
        forall|i: int| run_path::anchor(frames) <= i < frames.len() ==> run_path::attaches(#[trigger] frames[i]),
        run_path::anchor(frames) > 0 ==> !run_path::attaches(frames[run_path::anchor(frames) - 1]),
    decreases frames.len(),
{
    if frames.len() > 0 && run_path::attaches(frames.last()) {
        lemma_anchor(frames.drop_last());
        assert forall|i: int| run_path::anchor(frames) <= i < frames.len() implies run_path::attaches(
            #[trigger] frames[i],
        ) by {
            if i < frames.len() - 1 {
                assert(frames[i] == frames.drop_last()[i]);
            }
        }
    }
}

proof fn lemma_call_read(frames: Seq<FrameV>, segment: Seq<char>)
    requires
        text::starts_with(segment, "call→"@),
        run_path::with_segment(frames, segment, false) is Ok,
    ensures
        run_path::rendered(run_path::with_segment(frames, segment, false)->Ok_0) == run_path::rendered(frames) + seq!['/']
            + segment,
{
    let more = run_path::with_segment(frames, segment, false)->Ok_0;
    reveal_strlit("call→");
    let rest = segment.skip(5);
    text::lemma_find(rest, '@');
    let (name, prefix) = run_path::pinned_parts(rest, "call target"@)->Ok_0;
    assert(run_path::pinned_text(name, prefix) =~= rest);
    let arrow = "call→"@ + run_path::pinned_text(name, prefix);
    assert(arrow =~= segment);
    lemma_anchor(frames);
    let at = run_path::anchor(frames);
    let pre = frames.take(at - 1);
    let tail = frames.skip(at);
    assert forall|i: int| 0 <= i < tail.len() implies is_suffix(#[trigger] tail[i])
        && run_path::attaches(tail[i]) by {
        assert(tail[i] == frames[at + i]);
    }
    let opener = frames[at - 1];
    let old_base = pre.push(opener);
    assert(frames =~= old_base + tail);
    lemma_render_opener(pre, opener);
    lemma_render_attached(old_base, tail);
    assert(run_path::rendered(frames) =~= run_path::render_state(old_base).out + suffix_text(tail));
    match opener {
        FrameV::Step { step_id } => {
            let call = FrameV::Call { step_id: Some(step_id), callee: name, prefix };
            let new_base = pre.push(call);
            assert(more =~= new_base + tail);
            lemma_render_opener(pre, call);
            lemma_render_attached(new_base, tail);
            assert(run_path::rendered(more) =~= run_path::rendered(frames) + seq!['/'] + segment);
        },
        _ => {
            let call = FrameV::Call { step_id: None, callee: name, prefix };
            let new_base = old_base.push(call);
            assert(more =~= new_base + tail);
            lemma_render_opener(old_base, call);
            lemma_render_attached(new_base, tail);
            assert(run_path::rendered(old_base) =~= run_path::render_state(old_base).out);
            assert(run_path::render_state(new_base).out =~= run_path::render_state(old_base).out);
            assert(run_path::rendered(more) =~= run_path::rendered(frames) + seq!['/'] + segment);
        },
    }
}

#[verifier::rlimit(40)]
#[verifier::spinoff_prover]
proof fn lemma_hook_read(frames: Seq<FrameV>, segment: Seq<char>)
    requires
        text::starts_with(segment, "hook:"@),
        !text::starts_with(segment, "call→"@),
        run_path::with_segment(frames, segment, false) is Ok,
    ensures
        run_path::rendered(run_path::with_segment(frames, segment, false)->Ok_0) == run_path::rendered(frames) + seq!['/']
            + segment,
{
    let more = run_path::with_segment(frames, segment, false)->Ok_0;
    reveal_strlit("hook:");
    reveal_strlit("/hook:");
    let rest = segment.skip(5);
    text::lemma_find(rest, ':');
    let at = text::find(rest, ':');
    let hook = run_path::hook_named(rest.take(at))->0;
    assert(hook.wire() == rest.take(at));
    text::lemma_unsigned_value(rest.skip(at + 1));
    let frame = run_path::hook_frame(segment)->Ok_0;
    lemma_render_opener(frames, frame);
    assert(segment =~= "hook:"@ + rest);
    assert(rest =~= rest.take(at) + seq![':'] + rest.skip(at + 1));
    assert("/hook:"@ =~= seq!['/'] + "hook:"@);
    assert(run_path::frame_text(frame, false) =~= seq!['/'] + ("hook:"@ + (rest.take(at) + seq![':']
        + rest.skip(at + 1))));
    assert(run_path::rendered(more) =~= run_path::rendered(frames) + seq!['/'] + segment);
}

/// Rendering the frames after one more segment adds that segment's text.
proof fn lemma_segment_read(frames: Seq<FrameV>, segment: Seq<char>)
    requires
        run_path::with_segment(frames, segment, false) is Ok,
    ensures
        run_path::rendered(run_path::with_segment(frames, segment, false)->Ok_0) == run_path::rendered(frames) + seq!['/']
            + segment,
{
    let more = run_path::with_segment(frames, segment, false)->Ok_0;
    if text::starts_with(segment, "call→"@) {
        lemma_call_read(frames, segment);
    } else if text::starts_with(segment, "hook:"@) {
        lemma_hook_read(frames, segment);
    } else {
        run_path::lemma_id_len(segment);
        let end = run_path::id_len(segment);
        let id = segment.take(end);
        let step = FrameV::Step { step_id: id };
        let rest = segment.skip(end);
        lemma_suffixes_read(segment, rest, false);
        let fs = run_path::suffix_frames(segment, rest, false)->Ok_0;
        let base = frames.push(step);
        assert(frames + (seq![step] + fs) =~= base + fs);
        lemma_render_opener(frames, step);
        lemma_render_attached(base, fs);
        assert(id + rest =~= segment);
        assert(run_path::rendered(more) =~= run_path::rendered(frames) + seq!['/'] + segment);
    }
}

proof fn lemma_path_read(input: Seq<char>, start: int, frames: Seq<FrameV>)
    requires
        0 <= start <= input.len(),
        run_path::parsed_from(input, start, frames) is Ok,
        start == 0 ==> frames.len() == 0,
        start > 0 ==> run_path::rendered(frames) + seq!['/'] == input.take(start),
    ensures
        run_path::rendered(run_path::parsed_from(input, start, frames)->Ok_0) == input,
    decreases input.len() - start,
{
    text::lemma_find_from(input, '/', start);
    let end = text::find_from(input, '/', start);
    let segment = input.subrange(start, end);
    let more = run_path::with_segment(frames, segment, start == 0)->Ok_0;
    if start == 0 {
        text::lemma_find(segment, '@');
        let (name, prefix) = run_path::pinned_parts(segment, "flow root"@)->Ok_0;
        let frame = run_path::root_frame(segment)->Ok_0;
        assert(run_path::pinned_text(name, prefix) =~= segment);
        assert(more.drop_last() =~= frames);
        assert(frames =~= Seq::<FrameV>::empty());
        assert(run_path::rendered(more) =~= segment);
        assert(segment =~= input.take(end));
    } else {
        lemma_segment_read(frames, segment);
        assert(input.take(start) + segment =~= input.take(end));
    }
    assert(run_path::rendered(more) == input.take(end));
    if end < input.len() {
        assert(input.take(end) + seq!['/'] =~= input.take(end + 1));
        lemma_path_read(input, end + 1, more);
    } else {
        assert(input.take(end) =~= input);
    }
}

/// Rendering gives back the text that was read: for every accepted text,
/// rendering its frames yields that text.
pub proof fn law_rendering_undoes_parsing(input: Seq<char>)
    requires
        run_path::parsed(input) is Ok,
    ensures
        run_path::rendered(run_path::parsed(input)->Ok_0) == input,
{
    lemma_path_read(input, 0, Seq::empty());
}

/// Where a frame stands in a path.
pub enum PathSlot {
    /// After the flow root.
    Root,
    /// In a step's segment.
    Step,
    /// In a step's segment, directly after an attempt.
    StepAttempt,
    /// After an assertion.
    Closed,
    /// After a call.
    Call,
    /// After a call, directly after an attempt.
    CallAttempt,
    /// After a hook.
    Hook,
    /// After a call that a hook launched.
    HookCall,
}

/// Whether an iteration key can be told apart in the text.
pub open spec fn key_ok(key: Option<Seq<char>>) -> bool {
    match key {
        Some(k) => k.len() > 0 && !k.contains('/') && !k.contains(']'),
        None => true,
    }
}

/// Whether a step id is grammatical and does not read as a hook.
pub open spec fn id_ok(id: Seq<char>) -> bool {
    primitives::step_id_fault(id) is None && !text::starts_with(id, "hook:"@)
}

/// Where a path stands after a frame, if the frame can stand there.
pub open spec fn next_slot(slot: PathSlot, frame: FrameV) -> Option<PathSlot> {
    match frame {
        _ if slot is Closed => None,
        FrameV::Flow { .. } => None,
        FrameV::Step { step_id } => if id_ok(step_id) {
            Some(PathSlot::Step)
        } else {
            None
        },
        FrameV::Call { step_id, callee, prefix } => if primitives::flow_id_fault(callee) is None
            && primitives::is_hash_prefix(prefix) {
            match step_id {
                Some(id) => if id_ok(id) {
                    Some(PathSlot::Call)
                } else {
                    None
                },
                None => if slot is Hook {
                    Some(PathSlot::HookCall)
                } else {
                    None
                },
            }
        } else {
            None
        },
        FrameV::Iteration { key, .. } => if (slot is Step || slot is StepAttempt) && key_ok(key) {
            Some(PathSlot::Step)
        } else {
            None
        },
        FrameV::Hook { trigger, .. } => if trigger >= 1 {
            Some(PathSlot::Hook)
        } else {
            None
        },
        FrameV::Attempt { n } => if n == 0 {
            None
        } else if slot is Step || slot is StepAttempt {
            Some(PathSlot::StepAttempt)
        } else if slot is Call || slot is CallAttempt {
            Some(PathSlot::CallAttempt)
        } else {
            None
        },
        FrameV::Phase { .. } => if slot is StepAttempt {
            Some(PathSlot::Step)
        } else if slot is CallAttempt {
            Some(PathSlot::Call)
        } else {
            None
        },
        FrameV::Assertion { assert_id } => if (slot is Step || slot is StepAttempt)
            && primitives::assert_id_fault(assert_id) is None {
            Some(PathSlot::Closed)
        } else {
            None
        },
    }
}

/// Whether the frames can follow at `slot`, one after the other.
pub open spec fn ordered_from(frames: Seq<FrameV>, slot: PathSlot) -> bool
    decreases frames.len(),
{
    if frames.len() == 0 {
        true
    } else {
        match next_slot(slot, frames[0]) {
            Some(next) => ordered_from(frames.skip(1), next),
            None => false,
        }
    }
}

/// Whether the frames form a path that its text tells apart: a flow root,
/// then steps, calls and hooks; attempts, iterations and assertions attached
/// to steps; phases directly after attempts; calls without a step id directly
/// after hooks. Attempts and triggers count from one, and an assertion is the
/// last frame.
pub open spec fn is_canonical_path(frames: Seq<FrameV>) -> bool {
    &&& frames.len() > 0
    &&& frames[0] matches FrameV::Flow { flow_id, prefix }
    &&& primitives::flow_id_fault(flow_id) is None
    &&& primitives::is_hash_prefix(prefix)
    &&& ordered_from(frames.skip(1), PathSlot::Root)
}

spec fn slot_after(frames: Seq<FrameV>, slot: PathSlot) -> PathSlot
    decreases frames.len(),
{
    if frames.len() == 0 {
        slot
    } else {
        slot_after(
            frames.skip(1),
            match next_slot(slot, frames[0]) {
                Some(next) => next,
                None => slot,
            },
        )
    }
}

proof fn lemma_ordered_split(a: Seq<FrameV>, b: Seq<FrameV>, slot: PathSlot)
    requires
        ordered_from(a + b, slot),
    ensures
        ordered_from(a, slot),
        ordered_from(b, slot_after(a, slot)),
    decreases a.len(),
{
    if a.len() == 0 {
        assert(a + b =~= b);
    } else {
        assert((a + b).skip(1) =~= a.skip(1) + b);
        assert((a + b)[0] == a[0]);
        lemma_ordered_split(a.skip(1), b, next_slot(slot, a[0])->0);
    }
}

/// How many leading frames are attached to the segment before them.
spec fn suffix_run(frames: Seq<FrameV>) -> int
    decreases frames.len(),
{
    if frames.len() > 0 && is_suffix(frames[0]) {
        1 + suffix_run(frames.skip(1))
    } else {
        0
    }
}

proof fn lemma_suffix_run(frames: Seq<FrameV>)
    ensures
        0 <= suffix_run(frames) <= frames.len(),
        forall|i: int| 0 <= i < suffix_run(frames) ==> is_suffix(#[trigger] frames[i]),
        suffix_run(frames) < frames.len() ==> !is_suffix(frames[suffix_run(frames)]),
    decreases frames.len(),
{
    if frames.len() > 0 && is_suffix(frames[0]) {
        lemma_suffix_run(frames.skip(1));
        assert forall|i: int| 0 <= i < suffix_run(frames) implies is_suffix(
            #[trigger] frames[i],
        ) by {
            if i > 0 {
                assert(frames[i] == frames.skip(1)[i - 1]);
            }
        }
    }
}

/// Whether text can follow a number, a keyword or an id in a step segment.
spec fn is_break(s: Seq<char>) -> bool {
    s.len() > 0 ==> (s[0] == '#' || s[0] == ':' || s[0] == '[' || s[0] == '!')
}

proof fn lemma_suffix_break(frames: Seq<FrameV>)
    requires
        forall|i: int| 0 <= i < frames.len() ==> is_suffix(#[trigger] frames[i]),
    ensures
        is_break(suffix_text(frames)),
        frames.len() > 0 ==> suffix_text(frames).len() > 0,
        frames.len() > 0 ==> (suffix_text(frames)[0] == ':' <==> frames[0] is Phase),
{
    if frames.len() > 0 {
        assert(is_suffix(frames[0]));
        assert(run_path::frame_text(frames[0], false).len() > 0);
        assert(suffix_text(frames)[0] == run_path::frame_text(frames[0], false)[0]);
    }
}

proof fn lemma_decimal_read(n: u64)
    ensures
        text::unsigned_value(text::decimal(n as nat)) == Some(n),
        text::decimal(n as nat).len() > 0,
        text::all_digits(text::decimal(n as nat)),
{
    text::lemma_decimal_digits(n as nat);
    text::lemma_decimal_value(n as nat);
    let d = text::decimal(n as nat);
    assert(text::is_numeral(d));
}

proof fn lemma_phase_read(phase: Phase)
    ensures
        run_path::phase_named(phase.wire()) == Some(phase),
        forall|i: int|
            0 <= i < phase.wire().len() ==> primitives::in_class(CharClass::Lower, #[trigger] phase.wire()[i]),
        phase.wire().len() > 0,
{
    reveal_strlit("preflight");
    reveal_strlit("act");
    reveal_strlit("observe");
    reveal_strlit("assert");
    assert("preflight"@.len() == 9);
    assert("act"@.len() == 3);
    assert("observe"@.len() == 7);
    assert("assert"@.len() == 6);
}

proof fn lemma_hook_name_read(hook: HandlerHook)
    ensures
        run_path::hook_named(hook.wire()) == Some(hook),
        forall|i: int|
            0 <= i < hook.wire().len() ==> primitives::in_class(CharClass::Alpha, #[trigger] hook.wire()[i]),
{
    reveal_strlit("onFail");
    reveal_strlit("onUnknown");
    reveal_strlit("onError");
    reveal_strlit("onResumeDrift");
    assert("onFail"@.len() == 6);
    assert("onUnknown"@.len() == 9);
    assert("onError"@.len() == 7);
    assert("onResumeDrift"@.len() == 13);
}

spec fn after_attempt(slot: PathSlot) -> bool {
    slot is StepAttempt || slot is CallAttempt
}

proof fn lemma_attempt_written(segment: Seq<char>, n: u64, tail: Seq<char>, after: bool)
    requires
        n >= 1,
        is_break(tail),
    ensures
        run_path::suffix_frames(segment, run_path::frame_text(FrameV::Attempt { n }, false) + tail, after)
            == run_path::before_all(FrameV::Attempt { n }, run_path::suffix_frames(segment, tail, true)),
{
    let d = text::decimal(n as nat);
    let rest = run_path::frame_text(FrameV::Attempt { n }, false) + tail;
    lemma_decimal_read(n);
    let after_mark = rest.skip(1);
    assert(after_mark =~= d + tail);
    assert forall|i: int| 0 <= i < d.len() implies primitives::in_class(
        CharClass::Digit,
        #[trigger] after_mark[i],
    ) by {
        assert(text::is_digit(d[i]));
    }
    if d.len() < after_mark.len() {
        assert(after_mark[d.len() as int] == tail[0]);
    }
    run_path::lemma_class_len_is(CharClass::Digit, after_mark, d.len() as int);
    let end = 1 + d.len();
    assert(rest.subrange(1, end as int) =~= d);
    assert(rest.skip(end as int) =~= tail);
    assert(rest[0] == '#');
}

proof fn lemma_phase_written(segment: Seq<char>, phase: Phase, tail: Seq<char>)
    requires
        is_break(tail),
    ensures
        run_path::suffix_frames(segment, run_path::frame_text(FrameV::Phase { phase }, false) + tail, true)
            == run_path::before_all(FrameV::Phase { phase }, run_path::suffix_frames(segment, tail, false)),
{
    let w = phase.wire();
    let rest = run_path::frame_text(FrameV::Phase { phase }, false) + tail;
    lemma_phase_read(phase);
    let after_mark = rest.skip(1);
    assert(after_mark =~= w + tail);
    assert forall|i: int| 0 <= i < w.len() implies primitives::in_class(
        CharClass::Lower,
        #[trigger] after_mark[i],
    ) by {
        assert(primitives::in_class(CharClass::Lower, w[i]));
    }
    if w.len() < after_mark.len() {
        assert(after_mark[w.len() as int] == tail[0]);
    }
    run_path::lemma_class_len_is(CharClass::Lower, after_mark, w.len() as int);
    let end = 1 + w.len();
    assert(rest.subrange(1, end as int) =~= w);
    assert(rest.skip(end as int) =~= tail);
    assert(rest[0] == ':');
}

proof fn lemma_iteration_written(
    segment: Seq<char>,
    index: u64,
    key: Option<Seq<char>>,
    tail: Seq<char>,
    after: bool,
)
    requires
        key_ok(key),
    ensures
        run_path::suffix_frames(segment, run_path::frame_text(FrameV::Iteration { index, key }, false) + tail, after)
            == run_path::before_all(FrameV::Iteration { index, key }, run_path::suffix_frames(segment, tail, false)),
{
    let d = text::decimal(index as nat);
    let frame = FrameV::Iteration { index, key };
    let rest = run_path::frame_text(frame, false) + tail;
    lemma_decimal_read(index);
    let body = match key {
        Some(k) => d + seq![':'] + k,
        None => d,
    };
    let close = 1 + body.len();
    assert(rest =~= seq!['['] + body + seq![']'] + tail);
    assert(rest[0] == '[');
    assert forall|i: int| 0 <= i < close implies #[trigger] rest[i] != ']' by {
        if i > 0 {
            assert(rest[i] == body[i - 1]);
            if i - 1 < d.len() {
                assert(text::is_digit(d[i - 1]));
            } else if i - 1 > d.len() {
                let k = key->0;
                assert(body[i - 1] == k[i - 2 - d.len()]);
                assert(!k.contains(']'));
            }
        }
    }
    text::lemma_find_is(rest, ']', close as int);
    assert(rest.subrange(1, close as int) =~= body);
    assert(rest.skip(close as int + 1) =~= tail);
    assert forall|i: int| 0 <= i < d.len() implies #[trigger] body[i] != ':' by {
        assert(body[i] == d[i]);
        assert(text::is_digit(d[i]));
    }
    text::lemma_find_is(body, ':', d.len() as int);
    assert(body.take(d.len() as int) =~= d);
    if let Some(k) = key {
        assert(body.skip(d.len() as int + 1) =~= k);
    }
}

/// Attached frames read back from their text.
proof fn lemma_suffixes_written(segment: Seq<char>, frames: Seq<FrameV>, slot: PathSlot)
    requires
        slot is Step || slot is StepAttempt || slot is Call || slot is CallAttempt || slot
            is Closed,
        forall|i: int| 0 <= i < frames.len() ==> is_suffix(#[trigger] frames[i]),
        ordered_from(frames, slot),
    ensures
        run_path::suffix_frames(segment, suffix_text(frames), after_attempt(slot)) == Ok::<
            Seq<FrameV>,
            Seq<char>,
        >(frames),
    decreases frames.len(),
{
    if frames.len() == 0 {
        assert(suffix_text(frames).len() == 0);
        assert(frames =~= Seq::<FrameV>::empty());
    } else {
        let first = frames[0];
        let rest = frames.skip(1);
        let next = next_slot(slot, first)->0;
        assert forall|i: int| 0 <= i < rest.len() implies is_suffix(#[trigger] rest[i]) by {
            assert(rest[i] == frames[i + 1]);
        }
        assert(is_suffix(first));
        lemma_suffixes_written(segment, rest, next);
        lemma_suffix_break(rest);
        let tail = suffix_text(rest);
        assert(seq![first] + rest =~= frames);
        match first {
            FrameV::Attempt { n } => {
                lemma_attempt_written(segment, n, tail, after_attempt(slot));
            },
            FrameV::Phase { phase } => {
                lemma_phase_written(segment, phase, tail);
            },
            FrameV::Iteration { index, key } => {
                lemma_iteration_written(segment, index, key, tail, after_attempt(slot));
            },
            _ => {
                let id = first->assert_id;
                assert(rest.len() == 0) by {
                    if rest.len() > 0 {
                        assert(is_suffix(rest[0]));
                        assert(first is Assertion);
                        assert(next is Closed);
                        assert(next_slot(next, rest[0]) is None);
                        assert(ordered_from(rest, next));
                    }
                }
                let text = suffix_text(frames);
                assert(text =~= seq!['!'] + id);
                assert(text.skip(1) =~= id);
                assert(text[0] == '!');
            },
        }
    }
}

/// A grammatical step id consists of id characters.
proof fn lemma_step_id_chars(s: Seq<char>)
    requires
        primitives::is_step_segments(s),
    ensures
        forall|i: int| 0 <= i < s.len() ==> run_path::is_id_char(#[trigger] s[i]),
    decreases s.len(),
{
    text::lemma_find(s, ':');
    let at = text::find(s, ':');
    let pieces = text::split(s, ':');
    let first = s.take(at);
    if at < s.len() {
        let rest = s.skip(at + 1);
        assert(pieces =~= seq![first] + text::split(rest, ':'));
        assert forall|i: int| 0 <= i < text::split(rest, ':').len() implies primitives::is_step_segment(
            #[trigger] text::split(rest, ':')[i],
        ) by {
            assert(text::split(rest, ':')[i] == pieces[i + 1]);
        }
        lemma_step_id_chars(rest);
    } else {
        assert(first =~= s);
    }
    assert(pieces[0] =~= first);
    assert(primitives::is_step_segment(first));
    assert forall|i: int| 0 <= i < s.len() implies run_path::is_id_char(#[trigger] s[i]) by {
        if i == 0 && at > 0 {
            assert(first[0] == s[0]);
        } else if i < at {
            assert(first.skip(1)[i - 1] == s[i]);
        } else if i > at {
            assert(s.skip(at + 1)[i - at - 1] == s[i]);
        }
    }
}

/// A step segment is not taken for an arrow or a hook.
#[verifier::spinoff_prover]
proof fn lemma_step_told_apart(id: Seq<char>, tail: Seq<char>)
    requires
        id_ok(id),
        is_break(tail),
        tail.len() > 0 ==> tail[0] != ':',
    ensures
        !text::starts_with(id + tail, "call→"@),
        !text::starts_with(id + tail, "hook:"@),
{
    reveal_strlit("call→");
    reveal_strlit("hook:");
    let segment = id + tail;
    lemma_step_id_chars(id);
    if text::starts_with(segment, "call→"@) {
        let head = segment.take(5);
        assert(head[4] == '→');
        assert(segment[4] == '→');
        if 4 < id.len() {
            assert(run_path::is_id_char(id[4]));
        } else if id.len() < 4 {
            assert(head[id.len() as int] == segment[id.len() as int]);
            assert(segment[id.len() as int] == tail[0]);
            assert("call→"@[id.len() as int] == tail[0]);
        } else {
            assert(segment[4] == tail[0]);
        }
    }
    if text::starts_with(segment, "hook:"@) {
        let head = segment.take(5);
        assert(head == "hook:"@);
        if 5 <= id.len() {
            assert(id.take(5) =~= head);
        } else {
            assert(head[id.len() as int] == segment[id.len() as int]);
            assert(segment[id.len() as int] == tail[0]);
            assert("hook:"@[id.len() as int] == tail[0]);
        }
    }
}

/// A step segment reads back from the text of its frames.
#[verifier::spinoff_prover]
proof fn lemma_step_written(id: Seq<char>, att: Seq<FrameV>, slot: PathSlot)
    requires
        id_ok(id),
        slot is Step || slot is Call,
        forall|i: int| 0 <= i < att.len() ==> is_suffix(#[trigger] att[i]),
        ordered_from(att, slot),
    ensures
        !text::starts_with(id + suffix_text(att), "call→"@),
        !text::starts_with(id + suffix_text(att), "hook:"@),
        run_path::step_frames(id + suffix_text(att)) == Ok::<Seq<FrameV>, Seq<char>>(
            seq![FrameV::Step { step_id: id }] + att,
        ),
{
    let tail = suffix_text(att);
    let segment = id + tail;
    lemma_step_id_chars(id);
    lemma_suffix_break(att);
    assert(att.len() > 0 ==> !(att[0] is Phase));
    if att.len() == 0 {
        assert(tail.len() == 0);
    }
    lemma_step_told_apart(id, tail);
    assert forall|i: int| 0 <= i < id.len() implies run_path::is_id_char(#[trigger] segment[i]) by {
        assert(segment[i] == id[i]);
    }
    if id.len() < segment.len() {
        assert(segment[id.len() as int] == tail[0]);
    }
    run_path::lemma_id_len_is(segment, id.len() as int);
    assert(segment.take(id.len() as int) =~= id);
    assert(segment.skip(id.len() as int) =~= tail);
    lemma_suffixes_written(segment, att, slot);
}

spec fn no_slash(s: Seq<char>) -> bool {
    forall|i: int| 0 <= i < s.len() ==> #[trigger] s[i] != '/'
}

proof fn lemma_suffix_no_slash(frames: Seq<FrameV>, slot: PathSlot)
    requires
        forall|i: int| 0 <= i < frames.len() ==> is_suffix(#[trigger] frames[i]),
        ordered_from(frames, slot),
    ensures
        no_slash(suffix_text(frames)),
    decreases frames.len(),
{
    if frames.len() > 0 {
        let first = frames[0];
        let rest = frames.skip(1);
        assert forall|i: int| 0 <= i < rest.len() implies is_suffix(#[trigger] rest[i]) by {
            assert(rest[i] == frames[i + 1]);
        }
        assert(is_suffix(first));
        lemma_suffix_no_slash(rest, next_slot(slot, first)->0);
        let t = run_path::frame_text(first, false);
        assert(no_slash(t)) by {
            match first {
                FrameV::Attempt { n } => {
                    lemma_decimal_read(n);
                    assert forall|i: int| 0 <= i < t.len() implies #[trigger] t[i] != '/' by {
                        if i > 0 {
                            assert(text::is_digit(text::decimal(n as nat)[i - 1]));
                        }
                    }
                },
                FrameV::Phase { phase } => {
                    lemma_phase_read(phase);
                    assert forall|i: int| 0 <= i < t.len() implies #[trigger] t[i] != '/' by {
                        if i > 0 {
                            assert(primitives::in_class(CharClass::Lower, phase.wire()[i - 1]));
                        }
                    }
                },
                FrameV::Iteration { index, key } => {
                    lemma_decimal_read(index);
                    let d = text::decimal(index as nat);
                    assert forall|i: int| 0 <= i < t.len() implies #[trigger] t[i] != '/' by {
                        if 0 < i <= d.len() {
                            assert(t[i] == d[i - 1]);
                            assert(text::is_digit(d[i - 1]));
                        } else if i > d.len() + 1 && i < t.len() - 1 {
                            let k = key->0;
                            assert(t[i] == k[i - 2 - d.len()]);
                            assert(!k.contains('/'));
                        }
                    }
                },
                _ => {
                    let id = first->assert_id;
                    assert(primitives::is_step_segment(id));
                    assert forall|i: int| 0 <= i < t.len() implies #[trigger] t[i] != '/' by {
                        if i == 1 {
                            assert(t[1] == id[0]);
                        } else if i > 1 {
                            assert(t[i] == id.skip(1)[i - 2]);
                        }
                    }
                },
            }
        }
        let whole = suffix_text(frames);
        assert forall|i: int| 0 <= i < whole.len() implies #[trigger] whole[i] != '/' by {
            if i < t.len() {
                assert(whole[i] == t[i]);
            } else {
                assert(whole[i] == suffix_text(rest)[i - t.len()]);
            }
        }
    }
}

/// The text of an arrow segment, without its slash.
spec fn arrow_segment(callee: Seq<char>, prefix: Seq<char>) -> Seq<char> {
    "call→"@ + run_path::pinned_text(callee, prefix)
}

proof fn lemma_pinned_written(flow_id: Seq<char>, prefix: Seq<char>, what: Seq<char>)
    requires
        primitives::flow_id_fault(flow_id) is None,
        primitives::is_hash_prefix(prefix),
    ensures
        run_path::pinned_parts(run_path::pinned_text(flow_id, prefix), what) == Ok::<
            (Seq<char>, Seq<char>),
            Seq<char>,
        >((flow_id, prefix)),
        no_slash(run_path::pinned_text(flow_id, prefix)),
        run_path::pinned_text(flow_id, prefix).len() > 0,
{
    let t = run_path::pinned_text(flow_id, prefix);
    assert forall|i: int| 0 <= i < flow_id.len() implies #[trigger] t[i] != '@' && t[i] != '/' by {
        assert(t[i] == flow_id[i]);
        if i > 0 {
            assert(primitives::in_class(CharClass::Flow, flow_id.skip(1)[i - 1]));
        }
    }
    text::lemma_find_is(t, '@', flow_id.len() as int);
    assert(t.take(flow_id.len() as int) =~= flow_id);
    assert(t.skip(flow_id.len() as int + 1) =~= prefix);
    assert forall|i: int| 0 <= i < t.len() implies #[trigger] t[i] != '/' by {
        if i > flow_id.len() {
            assert(t[i] == prefix[i - flow_id.len() - 1]);
            assert(primitives::in_class(CharClass::Hex, prefix[i - flow_id.len() - 1]));
        }
    }
}

proof fn lemma_hook_written(hook: HandlerHook, trigger: u64)
    requires
        trigger >= 1,
    ensures
        run_path::frame_text(FrameV::Hook { hook, trigger }, false) == seq!['/'] + hook_segment(hook, trigger),
        text::starts_with(hook_segment(hook, trigger), "hook:"@),
        !text::starts_with(hook_segment(hook, trigger), "call→"@),
        run_path::hook_frame(hook_segment(hook, trigger)) == Ok::<FrameV, Seq<char>>(
            FrameV::Hook { hook, trigger },
        ),
        no_slash(hook_segment(hook, trigger)),
{
    reveal_strlit("hook:");
    reveal_strlit("/hook:");
    reveal_strlit("call→");
    let w = hook.wire();
    let d = text::decimal(trigger as nat);
    let t = hook_segment(hook, trigger);
    lemma_hook_name_read(hook);
    lemma_decimal_read(trigger);
    assert("/hook:"@ =~= seq!['/'] + "hook:"@);
    assert(run_path::frame_text(FrameV::Hook { hook, trigger }, false) =~= seq!['/'] + t);
    assert(t.take(5) =~= "hook:"@);
    if text::starts_with(t, "call→"@) {
        assert(t.take(5)[0] == "call→"@[0]);
    }
    let rest = t.skip(5);
    assert(rest =~= w + seq![':'] + d);
    assert forall|i: int| 0 <= i < w.len() implies #[trigger] rest[i] != ':' by {
        assert(rest[i] == w[i]);
        assert(primitives::in_class(CharClass::Alpha, w[i]));
    }
    text::lemma_find_is(rest, ':', w.len() as int);
    assert(rest.take(w.len() as int) =~= w);
    assert(rest.skip(w.len() as int + 1) =~= d);
    assert forall|i: int| 0 <= i < t.len() implies #[trigger] t[i] != '/' by {
        if 5 <= i < 5 + w.len() {
            assert(t[i] == w[i - 5]);
            assert(primitives::in_class(CharClass::Alpha, w[i - 5]));
        } else if i > 5 + w.len() {
            assert(t[i] == d[i - 6 - w.len()]);
            assert(text::is_digit(d[i - 6 - w.len()]));
        } else if i < 5 {
            assert(t[i] == "hook:"@[i]);
        }
    }
}

spec fn hook_segment(hook: HandlerHook, trigger: u64) -> Seq<char> {
    "hook:"@ + hook.wire() + seq![':'] + text::decimal(trigger as nat)
}

/// Reading one segment moves on past it.
proof fn lemma_step_past(input: Seq<char>, start: int, segment: Seq<char>, frames: Seq<FrameV>)
    requires
        0 <= start,
        start + segment.len() <= input.len(),
        input.subrange(start, start + segment.len()) == segment,
        no_slash(segment),
        start + segment.len() < input.len() ==> input[start + segment.len()] == '/',
    ensures
        text::find_from(input, '/', start) == start + segment.len(),
        run_path::parsed_from(input, start, frames) == (match run_path::with_segment(frames, segment, start == 0) {
            Err(message) => Err(
                PathFaultV { offset: text::byte_len(input.take(start)), message },
            ),
            Ok(more) => if start + segment.len() < input.len() {
                run_path::parsed_from(input, start + segment.len() + 1, more)
            } else {
                Ok(more)
            },
        }),
{
    text::lemma_find_from(input, '/', start);
    let f = text::find_from(input, '/', start);
    let e = start + segment.len();
    if f < e {
        assert(segment[f - start] == input[f]);
    }
    if e < f {
        assert(input[e] != '/');
    }
}

/// Splits off the first group of a well-ordered rest of a path.
proof fn lemma_first_group(done: Seq<FrameV>, rest: Seq<FrameV>, slot: PathSlot)
    requires
        ordered_from(rest, slot),
        rest.len() > 0,
        !is_suffix(rest[0]),
        run_path::rendered(done).len() > 0,
    ensures
        ({
            let first = rest[0];
            let after = rest.skip(1);
            let k = suffix_run(after);
            let att = after.take(k);
            let rest2 = after.skip(k);
            let next = next_slot(slot, first)->0;
            let group = done.push(first) + att;
            &&& 0 <= k <= after.len()
            &&& next_slot(slot, first) is Some
            &&& ordered_from(att, next)
            &&& ordered_from(rest2, slot_after(att, next))
            &&& rest2.len() > 0 ==> !is_suffix(rest2[0])
            &&& done + rest == group + rest2
            &&& forall|i: int| 0 <= i < att.len() ==> is_suffix(#[trigger] att[i])
            &&& first is Call ==> forall|i: int| 0 <= i < att.len() ==> run_path::attaches(#[trigger] att[i])
            &&& run_path::rendered(group) == run_path::rendered(done) + group_text(first, att)
            &&& group_text(first, att).len() > 0
            &&& group_text(first, att)[0] == '/'
        }),
{
    let first = rest[0];
    let after = rest.skip(1);
    lemma_suffix_run(after);
    let k = suffix_run(after);
    let att = after.take(k);
    let rest2 = after.skip(k);
    let next = next_slot(slot, first)->0;
    assert(att + rest2 =~= after);
    lemma_ordered_split(att, rest2, next);
    assert(rest2.len() > 0 ==> rest2[0] == after[k]);
    let base = done.push(first);
    assert(done + rest =~= base + att + rest2);
    assert forall|i: int| 0 <= i < att.len() implies is_suffix(#[trigger] att[i]) by {
        assert(att[i] == after[i]);
    }
    if first is Call {
        assert forall|i: int| 0 <= i < att.len() implies run_path::attaches(#[trigger] att[i]) by {
            lemma_run_kinds(att, next, i);
        }
    }
    lemma_render_opener(done, first);
    lemma_render_attached(base, att);
    assert(run_path::render_state(base).pending == waiting_arrow(first));
    assert(run_path::rendered(base + att) =~= run_path::rendered(done) + group_text(first, att));
    lemma_opener_slash(first, att, next, slot);
}

/// Rendering further segments only adds text, starting with a slash.
proof fn lemma_tail_text(done: Seq<FrameV>, rest: Seq<FrameV>, slot: PathSlot) -> (tail: Seq<char>)
    requires
        ordered_from(rest, slot),
        rest.len() > 0 ==> !is_suffix(rest[0]),
        run_path::rendered(done).len() > 0,
    ensures
        run_path::rendered(done + rest) == run_path::rendered(done) + tail,
        rest.len() == 0 ==> tail.len() == 0,
        rest.len() > 0 ==> tail.len() > 0 && tail[0] == '/',
    decreases rest.len(),
{
    if rest.len() == 0 {
        assert(done + rest =~= done);
        assert(run_path::rendered(done) + Seq::<char>::empty() =~= run_path::rendered(done));
        Seq::empty()
    } else {
        lemma_first_group(done, rest, slot);
        let first = rest[0];
        let after = rest.skip(1);
        let k = suffix_run(after);
        let att = after.take(k);
        let rest2 = after.skip(k);
        let next = next_slot(slot, first)->0;
        let group = done.push(first) + att;
        let text = group_text(first, att);
        let tail2 = lemma_tail_text(group, rest2, slot_after(att, next));
        assert(run_path::rendered(done) + text + tail2 =~= run_path::rendered(done) + (text + tail2));
        text + tail2
    }
}

proof fn lemma_opener_slash(first: FrameV, att: Seq<FrameV>, next: PathSlot, slot: PathSlot)
    requires
        !is_suffix(first),
        next_slot(slot, first) == Some(next),
        ordered_from(att, next),
        forall|i: int| 0 <= i < att.len() ==> is_suffix(#[trigger] att[i]),
    ensures
        group_text(first, att).len() > 0,
        group_text(first, att)[0] == '/',
{
    reveal_strlit("/hook:");
    match first {
        FrameV::Call { step_id, .. } => {
            if step_id is None {
                if att.len() > 0 {
                    assert(is_suffix(att[0]));
                    assert(next is HookCall);
                    assert(next_slot(next, att[0]) is None);
                }
            }
        },
        FrameV::Hook { .. } => {
            assert("/hook:"@[0] == '/');
        },
        _ => {},
    }
}

/// Only attempts and phases attach after a call.
proof fn lemma_run_kinds(att: Seq<FrameV>, slot: PathSlot, i: int)
    requires
        ordered_from(att, slot),
        0 <= i < att.len(),
        forall|j: int| 0 <= j <= i ==> is_suffix(#[trigger] att[j]),
        slot is Call || slot is CallAttempt || slot is HookCall,
    ensures
        run_path::attaches(att[i]),
    decreases i,
{
    assert(is_suffix(att[0]));
    if i > 0 {
        let next = next_slot(slot, att[0])->0;
        let rest = att.skip(1);
        assert forall|j: int| 0 <= j <= i - 1 implies is_suffix(#[trigger] rest[j]) by {
            assert(rest[j] == att[j + 1]);
        }
        lemma_run_kinds(rest, next, i - 1);
        assert(rest[i - 1] == att[i]);
    }
}

/// The text at a position that is followed by more.
proof fn lemma_text_at(input: Seq<char>, start: int, segment: Seq<char>, tail: Seq<char>)
    requires
        0 <= start <= input.len(),
        input.skip(start) == segment + tail,
    ensures
        start + segment.len() == input.len() - tail.len(),
        input.subrange(start, start + segment.len()) == segment,
        tail.len() > 0 ==> input[start + segment.len()] == tail[0],
{
    let rest = input.skip(start);
    assert(rest.len() == input.len() - start);
    assert(rest.len() == segment.len() + tail.len());
    assert forall|i: int| 0 <= i < segment.len() implies #[trigger] segment[i] == input[start
        + i] by {
        assert(rest[i] == input[start + i]);
    }
    assert(input.subrange(start, start + segment.len()) =~= segment);
    if tail.len() > 0 {
        assert(rest[segment.len() as int] == input[start + segment.len()]);
    }
}

/// Reads a step segment's text, or a call step's text before its arrow.
proof fn lemma_read_step_group(
    input: Seq<char>,
    start: int,
    done: Seq<FrameV>,
    id: Seq<char>,
    att: Seq<FrameV>,
    slot: PathSlot,
    tail: Seq<char>,
)
    requires
        start > 0,
        run_path::is_open(done),
        id_ok(id),
        slot is Step || slot is Call,
        forall|i: int| 0 <= i < att.len() ==> is_suffix(#[trigger] att[i]),
        ordered_from(att, slot),
        start <= input.len(),
        input.skip(start) == id + suffix_text(att) + tail,
        tail.len() > 0 ==> tail[0] == '/',
    ensures
        ({
            let end = start + id.len() + suffix_text(att).len();
            let more = done + (seq![FrameV::Step { step_id: id }] + att);
            &&& end == input.len() - tail.len()
            &&& run_path::parsed_from(input, start, done) == (if tail.len() > 0 {
                run_path::parsed_from(input, end + 1, more)
            } else {
                Ok(more)
            })
        }),
{
    let segment = id + suffix_text(att);
    lemma_step_written(id, att, slot);
    lemma_step_id_chars(id);
    lemma_suffix_no_slash(att, slot);
    assert forall|i: int| 0 <= i < segment.len() implies #[trigger] segment[i] != '/' by {
        if i < id.len() {
            assert(run_path::is_id_char(id[i]));
        } else {
            assert(segment[i] == suffix_text(att)[i - id.len()]);
        }
    }
    lemma_text_at(input, start, segment, tail);
    lemma_step_past(input, start, segment, done);
}

/// Reads an arrow segment's text.
proof fn lemma_read_arrow(
    input: Seq<char>,
    start: int,
    frames: Seq<FrameV>,
    callee: Seq<char>,
    prefix: Seq<char>,
    tail: Seq<char>,
    more: Seq<FrameV>,
)
    requires
        start > 0,
        primitives::flow_id_fault(callee) is None,
        primitives::is_hash_prefix(prefix),
        start <= input.len(),
        input.skip(start) == arrow_segment(callee, prefix) + tail,
        tail.len() > 0 ==> tail[0] == '/',
        run_path::call_frames(frames, run_path::pinned_text(callee, prefix)) == Ok::<Seq<FrameV>, Seq<char>>(more),
    ensures
        ({
            let end = start + arrow_segment(callee, prefix).len();
            &&& end == input.len() - tail.len()
            &&& run_path::parsed_from(input, start, frames) == (if tail.len() > 0 {
                run_path::parsed_from(input, end + 1, more)
            } else {
                Ok(more)
            })
        }),
{
    reveal_strlit("call→");
    let segment = arrow_segment(callee, prefix);
    lemma_pinned_written(callee, prefix, "call target"@);
    assert(segment.take(5) =~= "call→"@);
    assert(segment.skip(5) =~= run_path::pinned_text(callee, prefix));
    assert forall|i: int| 0 <= i < segment.len() implies #[trigger] segment[i] != '/' by {
        if i >= 5 {
            assert(segment[i] == run_path::pinned_text(callee, prefix)[i - 5]);
        } else {
            assert(segment[i] == "call→"@[i]);
        }
    }
    lemma_text_at(input, start, segment, tail);
    lemma_step_past(input, start, segment, frames);
}

/// Reads a hook segment's text.
proof fn lemma_read_hook(
    input: Seq<char>,
    start: int,
    done: Seq<FrameV>,
    hook: HandlerHook,
    trigger: u64,
    tail: Seq<char>,
)
    requires
        start > 0,
        run_path::is_open(done),
        trigger >= 1,
        start <= input.len(),
        input.skip(start) == hook_segment(hook, trigger) + tail,
        tail.len() > 0 ==> tail[0] == '/',
    ensures
        ({
            let end = start + hook_segment(hook, trigger).len();
            let more = done.push(FrameV::Hook { hook, trigger });
            &&& end == input.len() - tail.len()
            &&& run_path::parsed_from(input, start, done) == (if tail.len() > 0 {
                run_path::parsed_from(input, end + 1, more)
            } else {
                Ok(more)
            })
        }),
{
    let segment = hook_segment(hook, trigger);
    lemma_hook_written(hook, trigger);
    lemma_text_at(input, start, segment, tail);
    lemma_step_past(input, start, segment, done);
}

/// The anchor of frames that end in attached ones.
proof fn lemma_anchor_at(base: Seq<FrameV>, opener: FrameV, att: Seq<FrameV>)
    requires
        !run_path::attaches(opener),
        forall|i: int| 0 <= i < att.len() ==> run_path::attaches(#[trigger] att[i]),
    ensures
        run_path::anchor(base.push(opener) + att) == base.len() + 1,
        (base.push(opener) + att)[base.len() as int] == opener,
{
    let frames = base.push(opener) + att;
    lemma_anchor(frames);
    let a = run_path::anchor(frames);
    if a > base.len() + 1 {
        assert(frames[a - 1] == att[a - 1 - (base.len() + 1)]);
    }
    if a < base.len() + 1 {
        assert(frames[base.len() as int] == opener);
    }
}

/// Reads back what a well-ordered rest of a path renders to.
proof fn lemma_path_written(
    input: Seq<char>,
    done: Seq<FrameV>,
    rest: Seq<FrameV>,
    slot: PathSlot,
)
    requires
        run_path::rendered(done).len() > 0,
        rest.len() > 0,
        !is_suffix(rest[0]),
        ordered_from(rest, slot),
        slot is Hook ==> done.len() > 0 && done.last() is Hook,
        run_path::is_open(done),
        input == run_path::rendered(done + rest),
    ensures
        run_path::parsed_from(input, run_path::rendered(done).len() as int + 1, done) == Ok::<Seq<FrameV>, PathFaultV>(
            done + rest,
        ),
    decreases rest.len(),
{
    lemma_first_group(done, rest, slot);
    let first = rest[0];
    let after = rest.skip(1);
    let k = suffix_run(after);
    let att = after.take(k);
    let rest2 = after.skip(k);
    let next = next_slot(slot, first)->0;
    let group = done.push(first) + att;
    let text = group_text(first, att);
    let tail = lemma_tail_text(group, rest2, slot_after(att, next));
    let p = run_path::rendered(done).len() as int;
    assert(input == run_path::rendered(done) + text + tail);
    assert(input.skip(p) =~= text + tail);
    lemma_group_read(input, done, first, att, slot, next, tail);
    if tail.len() > 0 {
        lemma_slot_hook(first, att, slot, next);
        if slot_after(att, next) is Hook {
            assert(group =~= done.push(first));
        }
        assert(next_slot(slot_after(att, next), rest2[0]) is Some);
        assert(group.last() == (if att.len() > 0 {
            att.last()
        } else {
            first
        }));
        lemma_path_written(input, group, rest2, slot_after(att, next));
    } else {
        assert(group + rest2 =~= group);
    }
}

/// A path stands after a hook only directly after it.
proof fn lemma_slot_hook(first: FrameV, att: Seq<FrameV>, slot: PathSlot, next: PathSlot)
    requires
        next_slot(slot, first) == Some(next),
        !is_suffix(first),
        ordered_from(att, next),
        forall|i: int| 0 <= i < att.len() ==> is_suffix(#[trigger] att[i]),
    ensures
        slot_after(att, next) is Hook ==> att.len() == 0 && first is Hook,
        att.len() > 0 && att.last() is Assertion ==> slot_after(att, next) is Closed,
{
    if att.len() > 0 {
        lemma_slot_suffixes(att, next);
    }
}

proof fn lemma_slot_suffixes(att: Seq<FrameV>, slot: PathSlot)
    requires
        att.len() > 0,
        ordered_from(att, slot),
        forall|i: int| 0 <= i < att.len() ==> is_suffix(#[trigger] att[i]),
    ensures
        !(slot_after(att, slot) is Hook),
        att.last() is Assertion ==> slot_after(att, slot) is Closed,
    decreases att.len(),
{
    assert(is_suffix(att[0]));
    let next = next_slot(slot, att[0])->0;
    let rest = att.skip(1);
    assert(rest.len() > 0 ==> rest.last() == att.last());
    if rest.len() > 0 {
        assert forall|i: int| 0 <= i < rest.len() implies is_suffix(#[trigger] rest[i]) by {
            assert(rest[i] == att[i + 1]);
        }
        lemma_slot_suffixes(rest, next);
    } else {
        reveal_with_fuel(slot_after, 2);
    }
    assert(slot_after(att, slot) == slot_after(rest, next));
}

/// The text of a frame that opens a segment, with what attaches to it.
spec fn group_text(first: FrameV, att: Seq<FrameV>) -> Seq<char> {
    run_path::frame_text(first, false) + suffix_text(att) + run_path::arrow_text(waiting_arrow(first))
}

/// The arrow segment that waits after a frame.
spec fn waiting_arrow(first: FrameV) -> Option<Seq<char>> {
    match first {
        FrameV::Call { callee, prefix, .. } => Some(arrow_segment(callee, prefix)),
        _ => None,
    }
}

/// Whether reading goes on past the group's text with the group's frames.
spec fn group_reads(
    input: Seq<char>,
    done: Seq<FrameV>,
    first: FrameV,
    att: Seq<FrameV>,
    tail: Seq<char>,
) -> bool {
    let p = run_path::rendered(done).len() as int;
    let more = done.push(first) + att;
    run_path::parsed_from(input, p + 1, done) == (if tail.len() > 0 {
        run_path::parsed_from(input, p + group_text(first, att).len() + 1, more)
    } else {
        Ok(more)
    })
}

proof fn lemma_after_slash(input: Seq<char>, p: int, segment: Seq<char>, tail: Seq<char>)
    requires
        0 <= p <= input.len(),
        input.skip(p) == seq!['/'] + segment + tail,
    ensures
        p + 1 <= input.len(),
        input.skip(p + 1) == segment + tail,
{
    let rest = input.skip(p);
    assert(rest.len() > 0);
    assert(input.skip(p + 1) =~= rest.skip(1));
    assert(rest.skip(1) =~= segment + tail);
}

proof fn lemma_step_group_read(
    input: Seq<char>,
    done: Seq<FrameV>,
    first: FrameV,
    att: Seq<FrameV>,
    slot: PathSlot,
    next: PathSlot,
    tail: Seq<char>,
)
    requires
        run_path::rendered(done).len() > 0,
        first is Step,
        next_slot(slot, first) == Some(next),
        slot is Hook ==> done.len() > 0 && done.last() is Hook,
        run_path::is_open(done),
        ordered_from(att, next),
        forall|i: int| 0 <= i < att.len() ==> is_suffix(#[trigger] att[i]),
        first is Call ==> forall|i: int| 0 <= i < att.len() ==> run_path::attaches(#[trigger] att[i]),
        run_path::rendered(done).len() <= input.len(),
        input.skip(run_path::rendered(done).len() as int) == group_text(first, att) + tail,
        tail.len() > 0 ==> tail[0] == '/',
    ensures
        group_reads(input, done, first, att, tail),
{
    let p = run_path::rendered(done).len() as int;
    let id = first->Step_step_id;
    let segment = id + suffix_text(att);
    assert(group_text(first, att) =~= seq!['/'] + segment);
    lemma_after_slash(input, p, segment, tail);
    lemma_read_step_group(input, p + 1, done, id, att, PathSlot::Step, tail);
    assert(done + (seq![first] + att) =~= done.push(first) + att);
}

#[verifier::rlimit(60)]
proof fn lemma_hook_group_read(
    input: Seq<char>,
    done: Seq<FrameV>,
    first: FrameV,
    att: Seq<FrameV>,
    slot: PathSlot,
    next: PathSlot,
    tail: Seq<char>,
)
    requires
        run_path::rendered(done).len() > 0,
        first is Hook,
        next_slot(slot, first) == Some(next),
        slot is Hook ==> done.len() > 0 && done.last() is Hook,
        run_path::is_open(done),
        ordered_from(att, next),
        forall|i: int| 0 <= i < att.len() ==> is_suffix(#[trigger] att[i]),
        first is Call ==> forall|i: int| 0 <= i < att.len() ==> run_path::attaches(#[trigger] att[i]),
        run_path::rendered(done).len() <= input.len(),
        input.skip(run_path::rendered(done).len() as int) == group_text(first, att) + tail,
        tail.len() > 0 ==> tail[0] == '/',
    ensures
        group_reads(input, done, first, att, tail),
{
    let p = run_path::rendered(done).len() as int;
    let hook = first->hook;
    let trigger = first->trigger;
    if att.len() > 0 {
        assert(is_suffix(att[0]));
        assert(next_slot(next, att[0]) is None);
    }
    lemma_hook_written(hook, trigger);
    let segment = hook_segment(hook, trigger);
    assert(run_path::frame_text(first, false) == seq!['/'] + segment);
    assert(suffix_text(att) =~= Seq::<char>::empty());
    assert(run_path::arrow_text(waiting_arrow(first)) =~= Seq::<char>::empty());
    assert(run_path::frame_text(first, false) + Seq::<char>::empty() + Seq::<char>::empty()
        =~= run_path::frame_text(first, false));
    assert(group_text(first, att) == seq!['/'] + segment);
    lemma_after_slash(input, p, segment, tail);
    lemma_read_hook(input, p + 1, done, hook, trigger, tail);
    assert(done.push(first) + att =~= done.push(first));
}

proof fn lemma_call_group_read(
    input: Seq<char>,
    done: Seq<FrameV>,
    first: FrameV,
    att: Seq<FrameV>,
    slot: PathSlot,
    next: PathSlot,
    tail: Seq<char>,
)
    requires
        run_path::rendered(done).len() > 0,
        first is Call,
        first->Call_step_id is Some,
        next_slot(slot, first) == Some(next),
        slot is Hook ==> done.len() > 0 && done.last() is Hook,
        run_path::is_open(done),
        ordered_from(att, next),
        forall|i: int| 0 <= i < att.len() ==> is_suffix(#[trigger] att[i]),
        first is Call ==> forall|i: int| 0 <= i < att.len() ==> run_path::attaches(#[trigger] att[i]),
        run_path::rendered(done).len() <= input.len(),
        input.skip(run_path::rendered(done).len() as int) == group_text(first, att) + tail,
        tail.len() > 0 ==> tail[0] == '/',
    ensures
        group_reads(input, done, first, att, tail),
{
    let p = run_path::rendered(done).len() as int;
    let id = first->Call_step_id->0;
    let callee = first->callee;
    let prefix = first->Call_prefix;
    let arrow = arrow_segment(callee, prefix);
    lemma_pinned_written(callee, prefix, "call target"@);
    let own = id + suffix_text(att);
    let tail1 = seq!['/'] + arrow + tail;
    assert(group_text(first, att) + tail =~= seq!['/'] + own + tail1);
    lemma_after_slash(input, p, own, tail1);
    lemma_read_step_group(input, p + 1, done, id, att, PathSlot::Call, tail1);
    let step = FrameV::Step { step_id: id };
    let mid = done.push(step) + att;
    assert(done + (seq![step] + att) =~= mid);
    let p2 = p + 1 + own.len();
    lemma_text_at(input, p + 1, own, tail1);
    assert(input.skip(p2) =~= tail1) by {
        assert(input.skip(p2) =~= input.skip(p + 1).skip(own.len() as int));
        assert((own + tail1).skip(own.len() as int) =~= tail1);
    }
    lemma_after_slash(input, p2, arrow, tail);
    lemma_anchor_at(done, step, att);
    let more = done.push(first) + att;
    assert(mid.update(done.len() as int, first) =~= more);
    lemma_read_arrow(input, p2 + 1, mid, callee, prefix, tail, more);
    assert(group_text(first, att).len() == 1 + own.len() + 1 + arrow.len());
}

proof fn lemma_launched_group_read(
    input: Seq<char>,
    done: Seq<FrameV>,
    first: FrameV,
    att: Seq<FrameV>,
    slot: PathSlot,
    next: PathSlot,
    tail: Seq<char>,
)
    requires
        run_path::rendered(done).len() > 0,
        first is Call,
        first->Call_step_id is None,
        next_slot(slot, first) == Some(next),
        slot is Hook ==> done.len() > 0 && done.last() is Hook,
        run_path::is_open(done),
        ordered_from(att, next),
        forall|i: int| 0 <= i < att.len() ==> is_suffix(#[trigger] att[i]),
        first is Call ==> forall|i: int| 0 <= i < att.len() ==> run_path::attaches(#[trigger] att[i]),
        run_path::rendered(done).len() <= input.len(),
        input.skip(run_path::rendered(done).len() as int) == group_text(first, att) + tail,
        tail.len() > 0 ==> tail[0] == '/',
    ensures
        group_reads(input, done, first, att, tail),
{
    let p = run_path::rendered(done).len() as int;
    let callee = first->callee;
    let prefix = first->Call_prefix;
    let arrow = arrow_segment(callee, prefix);
    lemma_pinned_written(callee, prefix, "call target"@);
    if att.len() > 0 {
        assert(is_suffix(att[0]));
        assert(next_slot(next, att[0]) is None);
    }
    assert(suffix_text(att).len() == 0);
    assert(group_text(first, att) =~= seq!['/'] + arrow);
    lemma_after_slash(input, p, arrow, tail);
    let before = done.drop_last();
    assert(before.push(done.last()) + Seq::<FrameV>::empty() =~= done);
    lemma_anchor_at(before, done.last(), Seq::empty());
    let more = done.push(first);
    assert(done.insert(done.len() as int, first) =~= more);
    assert(done.push(first) + att =~= more);
    lemma_read_arrow(input, p + 1, done, callee, prefix, tail, more);
}

/// Reads one group of frames: what opens a segment and what attaches to it.
proof fn lemma_group_read(
    input: Seq<char>,
    done: Seq<FrameV>,
    first: FrameV,
    att: Seq<FrameV>,
    slot: PathSlot,
    next: PathSlot,
    tail: Seq<char>,
)
    requires
        run_path::rendered(done).len() > 0,
        !is_suffix(first),
        next_slot(slot, first) == Some(next),
        slot is Hook ==> done.len() > 0 && done.last() is Hook,
        run_path::is_open(done),
        ordered_from(att, next),
        forall|i: int| 0 <= i < att.len() ==> is_suffix(#[trigger] att[i]),
        first is Call ==> forall|i: int| 0 <= i < att.len() ==> run_path::attaches(#[trigger] att[i]),
        run_path::rendered(done).len() <= input.len(),
        input.skip(run_path::rendered(done).len() as int) == group_text(first, att) + tail,
        tail.len() > 0 ==> tail[0] == '/',
    ensures
        group_reads(input, done, first, att, tail),
{
    match first {
        FrameV::Step { .. } => {
            lemma_step_group_read(input, done, first, att, slot, next, tail);
        },
        FrameV::Hook { .. } => {
            lemma_hook_group_read(input, done, first, att, slot, next, tail);
        },
        FrameV::Call { step_id, .. } => {
            if step_id is Some {
                lemma_call_group_read(input, done, first, att, slot, next, tail);
            } else {
                lemma_launched_group_read(input, done, first, att, slot, next, tail);
            }
        },
        _ => {},
    }
}

/// Reading gives back the frames that were rendered: for every canonical
/// path, reading its text yields its frames, as far as the text shows them.
pub proof fn law_parsing_undoes_rendering(path: Seq<PathFrame>)
    requires
        is_canonical_path(run_path::shown_frames(path)),
    ensures
        run_path::parsed(run_path::rendered(run_path::shown_frames(path))) == Ok::<
            Seq<FrameV>,
            PathFaultV,
        >(run_path::shown_frames(path)),
{
    lemma_frames_read_back(run_path::shown_frames(path));
}

/// Reading gives back the frames of every canonical path.
pub proof fn lemma_frames_read_back(frames: Seq<FrameV>)
    requires
        is_canonical_path(frames),
    ensures
        run_path::parsed(run_path::rendered(frames)) == Ok::<Seq<FrameV>, PathFaultV>(frames),
{
    let input = run_path::rendered(frames);
    let root = frames[0];
    let flow_id = root->Flow_flow_id;
    let prefix = root->Flow_prefix;
    let rest = frames.skip(1);
    let done = seq![root];
    let segment = run_path::pinned_text(flow_id, prefix);
    lemma_pinned_written(flow_id, prefix, "flow root"@);
    assert(Seq::<FrameV>::empty().push(root) =~= done);
    lemma_render_opener(Seq::empty(), root);
    assert(run_path::rendered(Seq::<FrameV>::empty()) =~= Seq::<char>::empty());
    assert(run_path::rendered(done) =~= segment);
    assert(done + rest =~= frames);
    if rest.len() > 0 {
        assert(next_slot(PathSlot::Root, rest[0]) is Some);
    }
    let tail = lemma_tail_text(done, rest, PathSlot::Root);
    assert(input.subrange(0, segment.len() as int) =~= segment);
    if tail.len() > 0 {
        assert(input[segment.len() as int] == tail[0]);
    }
    lemma_step_past(input, 0, segment, Seq::empty());
    if rest.len() > 0 {
        lemma_path_written(input, done, rest, PathSlot::Root);
    } else {
        assert(done =~= frames);
    }
}

proof fn lemma_ordered_join(a: Seq<FrameV>, b: Seq<FrameV>, slot: PathSlot)
    requires
        ordered_from(a, slot),
        ordered_from(b, slot_after(a, slot)),
    ensures
        ordered_from(a + b, slot),
    decreases a.len(),
{
    if a.len() == 0 {
        assert(a + b =~= b);
    } else {
        assert((a + b).skip(1) =~= a.skip(1) + b);
        assert((a + b)[0] == a[0]);
        lemma_ordered_join(a.skip(1), b, next_slot(slot, a[0])->0);
    }
}

/// A path is closed only by an assertion.
proof fn lemma_closed(frames: Seq<FrameV>, slot: PathSlot)
    requires
        ordered_from(frames, slot),
        slot_after(frames, slot) is Closed,
        !(slot is Closed),
    ensures
        frames.len() > 0,
        frames.last() is Assertion,
    decreases frames.len(),
{
    let next = next_slot(slot, frames[0])->0;
    let rest = frames.skip(1);
    assert(slot_after(frames, slot) == slot_after(rest, next));
    if rest.len() > 0 {
        assert(ordered_from(rest, next));
        assert(next_slot(next, rest[0]) is Some);
        lemma_closed(rest, next);
        assert(rest.last() == frames.last());
    } else {
        reveal_with_fuel(slot_after, 2);
    }
}

/// Suffixes that can be read follow each other in order.
#[verifier::rlimit(40)]
proof fn lemma_suffixes_ordered(segment: Seq<char>, rest: Seq<char>, after: bool)
    requires
        run_path::suffix_frames(segment, rest, after) is Ok,
        no_slash(rest),
    ensures
        ordered_from(
            run_path::suffix_frames(segment, rest, after)->Ok_0,
            if after {
                PathSlot::StepAttempt
            } else {
                PathSlot::Step
            },
        ),
    decreases rest.len(),
{
    let fs = run_path::suffix_frames(segment, rest, after)->Ok_0;
    if rest.len() == 0 {
    } else if rest[0] == '#' {
        run_path::lemma_class_len(CharClass::Digit, rest.skip(1));
        let end = 1 + run_path::class_len(CharClass::Digit, rest.skip(1));
        lemma_suffixes_ordered(segment, rest.skip(end), true);
        assert(fs.skip(1) =~= run_path::suffix_frames(segment, rest.skip(end), true)->Ok_0);
    } else if rest[0] == ':' {
        run_path::lemma_class_len(CharClass::Lower, rest.skip(1));
        let end = 1 + run_path::class_len(CharClass::Lower, rest.skip(1));
        lemma_suffixes_ordered(segment, rest.skip(end), false);
        assert(fs.skip(1) =~= run_path::suffix_frames(segment, rest.skip(end), false)->Ok_0);
    } else if rest[0] == '[' {
        text::lemma_find(rest, ']');
        let close = text::find(rest, ']');
        let body = rest.subrange(1, close);
        text::lemma_find(body, ':');
        let colon = text::find(body, ':');
        lemma_suffixes_ordered(segment, rest.skip(close + 1), false);
        assert(fs.skip(1) =~= run_path::suffix_frames(segment, rest.skip(close + 1), false)->Ok_0);
        if colon < body.len() {
            let key = body.skip(colon + 1);
            assert forall|i: int| 0 <= i < key.len() implies key[i] != '/' && key[i] != ']' by {
                assert(key[i] == rest[colon + 2 + i]);
            }
        }
    } else {
        assert(rest[0] == '!');
        assert(fs.skip(1) =~= Seq::<FrameV>::empty());
        assert(ordered_from(fs.skip(1), PathSlot::Closed));
    }
}

/// What attaches to a step attaches to its call as well.
proof fn lemma_ordered_after_call(att: Seq<FrameV>, step: PathSlot, call: PathSlot)
    requires
        step is Step && call is Call || step is StepAttempt && call is CallAttempt,
        forall|i: int| 0 <= i < att.len() ==> run_path::attaches(#[trigger] att[i]),
        ordered_from(att, step),
    ensures
        ordered_from(att, call),
    decreases att.len(),
{
    if att.len() > 0 {
        assert(run_path::attaches(att[0]));
        let rest = att.skip(1);
        assert forall|i: int| 0 <= i < rest.len() implies run_path::attaches(#[trigger] rest[i]) by {
            assert(rest[i] == att[i + 1]);
        }
        lemma_ordered_after_call(rest, next_slot(step, att[0])->0, next_slot(call, att[0])->0);
    }
}

proof fn lemma_call_ordered(frames: Seq<FrameV>, rest: Seq<char>)
    requires
        is_canonical_path(frames),
        run_path::call_frames(frames, rest) is Ok,
    ensures
        is_canonical_path(run_path::call_frames(frames, rest)->Ok_0),
{
    let more = run_path::call_frames(frames, rest)->Ok_0;
    let (name, prefix) = run_path::pinned_parts(rest, "call target"@)->Ok_0;
    lemma_anchor(frames);
    let at = run_path::anchor(frames);
    let before = frames.subrange(1, at - 1);
    let opener = frames[at - 1];
    let att = frames.skip(at);
    let slot = slot_after(before, PathSlot::Root);
    assert(at >= 2);
    assert(frames.skip(1) =~= before + (seq![opener] + att));
    lemma_ordered_split(before, seq![opener] + att, PathSlot::Root);
    assert((seq![opener] + att).skip(1) =~= att);
    assert((seq![opener] + att)[0] == opener);
    let next = next_slot(slot, opener)->0;
    assert forall|i: int| 0 <= i < att.len() implies run_path::attaches(#[trigger] att[i]) by {
        assert(att[i] == frames[at + i]);
    }
    match opener {
        FrameV::Step { step_id } => {
            let call = FrameV::Call { step_id: Some(step_id), callee: name, prefix };
            lemma_ordered_after_call(att, PathSlot::Step, PathSlot::Call);
            assert((seq![call] + att).skip(1) =~= att);
            assert((seq![call] + att)[0] == call);
            lemma_ordered_join(before, seq![call] + att, PathSlot::Root);
            assert(more.skip(1) =~= before + (seq![call] + att));
        },
        _ => {
            let call = FrameV::Call { step_id: None, callee: name, prefix };
            if att.len() > 0 {
                assert(run_path::attaches(att[0]));
                assert(next_slot(next, att[0]) is None);
            }
            let pair = seq![opener, call];
            assert(pair.skip(1) =~= seq![call]);
            assert(seq![call].skip(1) =~= Seq::<FrameV>::empty());
            reveal_with_fuel(ordered_from, 3);
            assert(ordered_from(pair, slot));
            lemma_ordered_join(before, pair, PathSlot::Root);
            assert(more.skip(1) =~= before + pair);
        },
    }
}

proof fn lemma_segment_ordered(frames: Seq<FrameV>, segment: Seq<char>)
    requires
        is_canonical_path(frames),
        no_slash(segment),
        run_path::with_segment(frames, segment, false) is Ok,
    ensures
        is_canonical_path(run_path::with_segment(frames, segment, false)->Ok_0),
{
    let more = run_path::with_segment(frames, segment, false)->Ok_0;
    if text::starts_with(segment, "call→"@) {
        lemma_call_ordered(frames, segment.skip("call→"@.len() as int));
    } else {
        let body = frames.skip(1);
        let slot = slot_after(body, PathSlot::Root);
        if slot is Closed {
            lemma_closed(body, PathSlot::Root);
            assert(body.last() == frames.last());
        }
        let group = if text::starts_with(segment, "hook:"@) {
            seq![run_path::hook_frame(segment)->Ok_0]
        } else {
            run_path::step_frames(segment)->Ok_0
        };
        if text::starts_with(segment, "hook:"@) {
            assert(group.skip(1) =~= Seq::<FrameV>::empty());
        } else {
            run_path::lemma_id_len(segment);
            let end = run_path::id_len(segment);
            let id = segment.take(end);
            if text::starts_with(id, "hook:"@) {
                assert(segment.take("hook:"@.len() as int) =~= id.take("hook:"@.len() as int));
            }
            lemma_suffixes_ordered(segment, segment.skip(end), false);
            assert(group.skip(1) =~= run_path::suffix_frames(
                segment,
                segment.skip(end),
                false,
            )->Ok_0);
        }
        reveal_with_fuel(ordered_from, 2);
        assert(ordered_from(group, slot));
        lemma_ordered_join(body, group, PathSlot::Root);
        assert(more.skip(1) =~= body + group);
    }
}

proof fn lemma_path_ordered(input: Seq<char>, start: int, frames: Seq<FrameV>)
    requires
        0 <= start <= input.len(),
        run_path::parsed_from(input, start, frames) is Ok,
        start == 0 ==> frames.len() == 0,
        start > 0 ==> is_canonical_path(frames),
    ensures
        is_canonical_path(run_path::parsed_from(input, start, frames)->Ok_0),
    decreases input.len() - start,
{
    text::lemma_find_from(input, '/', start);
    let end = text::find_from(input, '/', start);
    let segment = input.subrange(start, end);
    assert forall|i: int| 0 <= i < segment.len() implies #[trigger] segment[i] != '/' by {
        assert(segment[i] == input[start + i]);
    }
    let more = run_path::with_segment(frames, segment, start == 0)->Ok_0;
    if start == 0 {
        assert(more.skip(1) =~= Seq::<FrameV>::empty());
    } else {
        lemma_segment_ordered(frames, segment);
    }
    if end < input.len() {
        lemma_path_ordered(input, end + 1, more);
    }
}

/// Every text that is read spells a canonical path.
pub proof fn law_parsed_paths_are_canonical(input: Seq<char>)
    requires
        run_path::parsed(input) is Ok,
    ensures
        is_canonical_path(run_path::parsed(input)->Ok_0),
{
    lemma_path_ordered(input, 0, Seq::empty());
}

/// Whether a frame counts from one, if it counts attempts or triggers.
pub open spec fn counts_from_one(frame: FrameV) -> bool {
    match frame {
        FrameV::Attempt { n } => n >= 1,
        FrameV::Hook { trigger, .. } => trigger >= 1,
        _ => true,
    }
}

proof fn lemma_ordered_frame(frames: Seq<FrameV>, slot: PathSlot, i: int)
    requires
        ordered_from(frames, slot),
        0 <= i < frames.len(),
    ensures
        counts_from_one(frames[i]),
        frames[i] is Assertion ==> i == frames.len() - 1,
    decreases frames.len(),
{
    let next = next_slot(slot, frames[0])->0;
    let rest = frames.skip(1);
    if i > 0 {
        lemma_ordered_frame(rest, next, i - 1);
        assert(rest[i - 1] == frames[i]);
    } else if rest.len() > 0 {
        assert(ordered_from(rest, next));
        assert(next_slot(next, rest[0]) is Some);
    }
}

/// In a path that is read, attempts and hook triggers count from one.
pub proof fn law_counts_start_at_one(input: Seq<char>)
    requires
        run_path::parsed(input) is Ok,
    ensures
        forall|i: int|
            0 <= i < run_path::parsed(input)->Ok_0.len() ==> counts_from_one(
                #[trigger] run_path::parsed(input)->Ok_0[i],
            ),
{
    law_parsed_paths_are_canonical(input);
    let frames = run_path::parsed(input)->Ok_0;
    assert forall|i: int| 0 <= i < frames.len() implies counts_from_one(#[trigger] frames[i]) by {
        if i > 0 {
            lemma_ordered_frame(frames.skip(1), PathSlot::Root, i - 1);
        }
    }
}

/// In a path that is read, an assertion is the last frame.
pub proof fn law_assertions_end_their_path(input: Seq<char>)
    requires
        run_path::parsed(input) is Ok,
    ensures
        forall|i: int|
            0 <= i < run_path::parsed(input)->Ok_0.len()
                && #[trigger] run_path::parsed(input)->Ok_0[i] is Assertion ==> i
                == run_path::parsed(input)->Ok_0.len() - 1,
{
    law_parsed_paths_are_canonical(input);
    let frames = run_path::parsed(input)->Ok_0;
    assert forall|i: int| 0 <= i < frames.len() && #[trigger] frames[i] is Assertion implies i
        == frames.len() - 1 by {
        if i > 0 {
            lemma_ordered_frame(frames.skip(1), PathSlot::Root, i - 1);
            assert(frames.skip(1)[i - 1] == frames[i]);
        }
    }
}

} // verus!
