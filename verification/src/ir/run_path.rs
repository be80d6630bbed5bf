//! Run paths: the structured frame stack that addresses a site in a run, and
//! its canonical text.
//!
//! | frame | text | notes |
//! |---|---|---|
//! | `flow` | `<flowId>@<hash8>` | leading segment |
//! | `step` | `/<stepId>` | |
//! | `call` | `/<stepId>/call→<calleeFlowId>@<hash8>` | one frame, two segments |
//! | `iteration` | `[<index>]` or `[<index>:<key>]` | attached to the step segment |
//! | `hook` | `/hook:<hookName>:<trigger>` | trigger ≥ 1 |
//! | `attempt` | `#<n>` | attached to the step segment, n ≥ 1 |
//! | `phase` | `:<phase>` | attached after an attempt |
//! | `assertion` | `!<assertId>` | path tail |
//!
//! An attempt or a phase that follows a `call` frame attaches to the call
//! step's own segment, before the arrow. A `call→` segment directly after a
//! `hook` segment is a subflow that the handler launched and has no step id.
//! A number is written in decimal, without a sign and without superfluous
//! zeros.
//! The text holds only the first 8 hex digits of each hash, so reading it
//! gives back [`ParsedPathFrame`]s.

use vstd::prelude::*;
use vstd::string::*;

use crate::ir::primitives;
use crate::ir::primitives::{all_have, class_has, AssertId, CharClass, FlowId, StepId};
use crate::ir::vocab::{HandlerHook, Phase};
use crate::json::{Json, JsonMap, JsonV, Members};
use crate::text;
use crate::text::{
    chars_of, concat, concat3, decimal_text, find_in, has_prefix, is_word, parse_unsigned,
    quote_char, quote_text, string_of, text_byte_len,
};
use crate::wire;
use crate::wire::{duplicate_some, some_json, Duplicate, Wire};

verus! {

/// A structured run path: frames from the run's root flow down to the
/// addressed site.
pub type RunPath = Vec<PathFrame>;

/// One frame of a [`RunPath`].
#[allow(inconsistent_fields)]
#[derive(Debug, PartialEq, Eq)]
pub enum PathFrame {
    /// A flow root.
    Flow {
        /// The flow's id.
        flow_id: FlowId,
        /// The flow's content hash.
        ir_hash: crate::ir::primitives::Hash,
    },
    /// A step within the current flow body.
    Step {
        /// The step's id.
        step_id: StepId,
    },
    /// A subflow call.
    Call {
        /// The call step's id; absent when a handler launched the flow.
        step_id: Option<StepId>,
        /// The callee's flow id.
        callee_flow_id: FlowId,
        /// The callee's content hash.
        callee_ir_hash: crate::ir::primitives::Hash,
    },
    /// A foreach iteration.
    Iteration {
        /// Zero-based iteration index.
        index: u64,
        /// Optional stable item key.
        key: Option<String>,
    },
    /// A handler execution.
    Hook {
        /// The hook that fired.
        hook: HandlerHook,
        /// One-based trigger count for this hook.
        trigger: u64,
    },
    /// An act-chain attempt.
    Attempt {
        /// One-based attempt number.
        n: u64,
    },
    /// A step pipeline phase.
    Phase {
        /// The phase.
        phase: Phase,
    },
    /// An assertion within the assert phase.
    Assertion {
        /// The assertion's id.
        assert_id: AssertId,
    },
}

/// A [`PathFrame`] as its text shows it: hashes are 8-digit prefixes.
#[allow(inconsistent_fields)]
#[derive(Debug, PartialEq, Eq)]
pub enum ParsedPathFrame {
    /// A flow root.
    Flow {
        /// The flow's id.
        flow_id: FlowId,
        /// The first 8 hex digits of the flow's hash.
        ir_hash_prefix: String,
    },
    /// A step within the current flow body.
    Step {
        /// The step's id.
        step_id: StepId,
    },
    /// A subflow call.
    Call {
        /// The call step's id; absent when a handler launched the flow.
        step_id: Option<StepId>,
        /// The callee's flow id.
        callee_flow_id: FlowId,
        /// The first 8 hex digits of the callee's hash.
        callee_ir_hash_prefix: String,
    },
    /// A foreach iteration.
    Iteration {
        /// Zero-based iteration index.
        index: u64,
        /// Optional stable item key.
        key: Option<String>,
    },
    /// A handler execution.
    Hook {
        /// The hook that fired.
        hook: HandlerHook,
        /// One-based trigger count for this hook.
        trigger: u64,
    },
    /// An act-chain attempt.
    Attempt {
        /// One-based attempt number.
        n: u64,
    },
    /// A step pipeline phase.
    Phase {
        /// The phase.
        phase: Phase,
    },
    /// An assertion within the assert phase.
    Assertion {
        /// The assertion's id.
        assert_id: AssertId,
    },
}

/// A frame of a run path's text, as contracts see it.
#[allow(inconsistent_fields)]
pub enum FrameV {
    /// A flow root.
    Flow { flow_id: Seq<char>, prefix: Seq<char> },
    /// A step within the current flow body.
    Step { step_id: Seq<char> },
    /// A subflow call.
    Call { step_id: Option<Seq<char>>, callee: Seq<char>, prefix: Seq<char> },
    /// A foreach iteration.
    Iteration { index: u64, key: Option<Seq<char>> },
    /// A handler execution.
    Hook { hook: HandlerHook, trigger: u64 },
    /// An act-chain attempt.
    Attempt { n: u64 },
    /// A step pipeline phase.
    Phase { phase: Phase },
    /// An assertion.
    Assertion { assert_id: Seq<char> },
}

/// Why a text is no run path, and where.
pub struct PathFaultV {
    /// Byte offset of the offending segment's start.
    pub offset: nat,
    /// The reason.
    pub message: Seq<char>,
}

/// Error of [`parse_run_path`].
#[derive(Debug, PartialEq, Eq)]
pub struct RunPathParseError {
    /// Byte offset of the offending segment's start in the input.
    pub offset: usize,
    /// Human-readable reason.
    pub message: String,
}

impl RunPathParseError {
    /// The error, as contracts see it.
    pub open spec fn view(&self) -> PathFaultV {
        PathFaultV { offset: self.offset as nat, message: self.message@ }
    }

    /// The full error message.
    pub fn describe(&self) -> (r: String)
        ensures
            r@ == "invalid RunPath string at byte "@ + text::decimal(self.offset as nat) + (": "@
                + self.message@),
    {
        concat3(
            "invalid RunPath string at byte ",
            decimal_text(self.offset as u64).as_str(),
            concat(": ", self.message.as_str()).as_str(),
        )
    }
}

/// The text of an optional step id.
pub open spec fn opt_step(id: Option<StepId>) -> Option<Seq<char>> {
    match id {
        Some(s) => Some(s@),
        None => None,
    }
}

impl ParsedPathFrame {
    /// The frame, as contracts see it.
    pub open spec fn view(&self) -> FrameV {
        match self {
            ParsedPathFrame::Flow { flow_id, ir_hash_prefix } => FrameV::Flow {
                flow_id: flow_id@,
                prefix: ir_hash_prefix@,
            },
            ParsedPathFrame::Step { step_id } => FrameV::Step { step_id: step_id@ },
            ParsedPathFrame::Call { step_id, callee_flow_id, callee_ir_hash_prefix } => {
                FrameV::Call {
                    step_id: opt_step(*step_id),
                    callee: callee_flow_id@,
                    prefix: callee_ir_hash_prefix@,
                }
            },
            ParsedPathFrame::Iteration { index, key } => FrameV::Iteration {
                index: *index,
                key: text::opt_text(*key),
            },
            ParsedPathFrame::Hook { hook, trigger } => FrameV::Hook {
                hook: *hook,
                trigger: *trigger,
            },
            ParsedPathFrame::Attempt { n } => FrameV::Attempt { n: *n },
            ParsedPathFrame::Phase { phase } => FrameV::Phase { phase: *phase },
            ParsedPathFrame::Assertion { assert_id } => FrameV::Assertion { assert_id: assert_id@ },
        }
    }

    /// The frame as the path's text shows it: hashes cut to 8 digits.
    pub fn of(frame: &PathFrame) -> (r: Self)
        ensures
            r@ == frame.shown(),
    {
        match frame {
            PathFrame::Flow { flow_id, ir_hash } => ParsedPathFrame::Flow {
                flow_id: flow_id.clone(),
                ir_hash_prefix: ir_hash.hex_prefix8(),
            },
            PathFrame::Step { step_id } => ParsedPathFrame::Step { step_id: step_id.clone() },
            PathFrame::Call { step_id, callee_flow_id, callee_ir_hash } => ParsedPathFrame::Call {
                step_id: match step_id {
                    Some(id) => Some(id.clone()),
                    None => None,
                },
                callee_flow_id: callee_flow_id.clone(),
                callee_ir_hash_prefix: callee_ir_hash.hex_prefix8(),
            },
            PathFrame::Iteration { index, key } => ParsedPathFrame::Iteration {
                index: *index,
                key: match key {
                    Some(k) => Some(k.clone()),
                    None => None,
                },
            },
            PathFrame::Hook { hook, trigger } => ParsedPathFrame::Hook {
                hook: *hook,
                trigger: *trigger,
            },
            PathFrame::Attempt { n } => ParsedPathFrame::Attempt { n: *n },
            PathFrame::Phase { phase } => ParsedPathFrame::Phase { phase: *phase },
            PathFrame::Assertion { assert_id } => ParsedPathFrame::Assertion {
                assert_id: assert_id.clone(),
            },
        }
    }
}

impl PathFrame {
    /// What the path's text shows of this frame: hashes cut to 8 digits.
    pub open spec fn shown(&self) -> FrameV {
        match self {
            PathFrame::Flow { flow_id, ir_hash } => FrameV::Flow {
                flow_id: flow_id@,
                prefix: ir_hash.spec_hex().take(8),
            },
            PathFrame::Step { step_id } => FrameV::Step { step_id: step_id@ },
            PathFrame::Call { step_id, callee_flow_id, callee_ir_hash } => FrameV::Call {
                step_id: opt_step(*step_id),
                callee: callee_flow_id@,
                prefix: callee_ir_hash.spec_hex().take(8),
            },
            PathFrame::Iteration { index, key } => FrameV::Iteration {
                index: *index,
                key: text::opt_text(*key),
            },
            PathFrame::Hook { hook, trigger } => FrameV::Hook { hook: *hook, trigger: *trigger },
            PathFrame::Attempt { n } => FrameV::Attempt { n: *n },
            PathFrame::Phase { phase } => FrameV::Phase { phase: *phase },
            PathFrame::Assertion { assert_id } => FrameV::Assertion { assert_id: assert_id@ },
        }
    }
}

impl Clone for PathFrame {
    fn clone(&self) -> (r: Self)
        ensures
            r.shown() == self.shown(),
            r.same_as(self),
    {
        match self {
            PathFrame::Flow { flow_id, ir_hash } => PathFrame::Flow {
                flow_id: flow_id.clone(),
                ir_hash: ir_hash.clone(),
            },
            PathFrame::Step { step_id } => PathFrame::Step { step_id: step_id.clone() },
            PathFrame::Call { step_id, callee_flow_id, callee_ir_hash } => PathFrame::Call {
                step_id: match step_id {
                    Some(id) => Some(id.clone()),
                    None => None,
                },
                callee_flow_id: callee_flow_id.clone(),
                callee_ir_hash: callee_ir_hash.clone(),
            },
            PathFrame::Iteration { index, key } => PathFrame::Iteration {
                index: *index,
                key: match key {
                    Some(k) => Some(k.clone()),
                    None => None,
                },
            },
            PathFrame::Hook { hook, trigger } => PathFrame::Hook {
                hook: *hook,
                trigger: *trigger,
            },
            PathFrame::Attempt { n } => PathFrame::Attempt { n: *n },
            PathFrame::Phase { phase } => PathFrame::Phase { phase: *phase },
            PathFrame::Assertion { assert_id } => PathFrame::Assertion {
                assert_id: assert_id.clone(),
            },
        }
    }
}

impl PathFrame {
    /// Whether two frames hold the same contents, full hashes included.
    pub open spec fn same_as(&self, other: &PathFrame) -> bool {
        &&& self.shown() == other.shown()
        &&& self.full_hash() == other.full_hash()
    }

    /// The full content hash that the frame holds, if it holds one.
    pub open spec fn full_hash(&self) -> Option<Seq<char>> {
        match self {
            PathFrame::Flow { ir_hash, .. } => Some(ir_hash@),
            PathFrame::Call { callee_ir_hash, .. } => Some(callee_ir_hash@),
            _ => None,
        }
    }
}

/// The frames, as contracts see them.
pub open spec fn frame_views(frames: Seq<ParsedPathFrame>) -> Seq<FrameV> {
    frames.map_values(|f: ParsedPathFrame| f@)
}

/// What a path's text shows of its frames.
pub open spec fn shown_frames(frames: Seq<PathFrame>) -> Seq<FrameV> {
    frames.map_values(|f: PathFrame| f.shown())
}

/// `<flowId>@<hash8>`
pub open spec fn pinned_text(flow_id: Seq<char>, prefix: Seq<char>) -> Seq<char> {
    flow_id + seq!['@'] + prefix
}

/// Text under construction: what is written, and the arrow segment that
/// waits for attempts and phases to attach before it.
pub struct RenderV {
    /// The text so far.
    pub out: Seq<char>,
    /// The waiting arrow segment.
    pub pending: Option<Seq<char>>,
}

/// The waiting arrow segment as text.
pub open spec fn arrow_text(pending: Option<Seq<char>>) -> Seq<char> {
    match pending {
        Some(t) => seq!['/'] + t,
        None => Seq::empty(),
    }
}

/// Whether a frame attaches to the segment before it even across an arrow.
pub open spec fn attaches(frame: FrameV) -> bool {
    frame is Attempt || frame is Phase
}

/// The text that a frame adds, apart from a call's arrow.
pub open spec fn frame_text(frame: FrameV, first: bool) -> Seq<char> {
    match frame {
        FrameV::Flow { flow_id, prefix } => if first {
            pinned_text(flow_id, prefix)
        } else {
            seq!['/'] + pinned_text(flow_id, prefix)
        },
        FrameV::Step { step_id } => seq!['/'] + step_id,
        FrameV::Call { step_id, .. } => match step_id {
            Some(id) => seq!['/'] + id,
            None => Seq::empty(),
        },
        FrameV::Iteration { index, key } => match key {
            Some(k) => seq!['['] + text::decimal(index as nat) + seq![':'] + k + seq![']'],
            None => seq!['['] + text::decimal(index as nat) + seq![']'],
        },
        FrameV::Hook { hook, trigger } => "/hook:"@ + hook.wire() + seq![':'] + text::decimal(
            trigger as nat,
        ),
        FrameV::Attempt { n } => seq!['#'] + text::decimal(n as nat),
        FrameV::Phase { phase } => seq![':'] + phase.wire(),
        FrameV::Assertion { assert_id } => seq!['!'] + assert_id,
    }
}

/// One more frame on the text.
pub open spec fn render_frame(state: RenderV, frame: FrameV) -> RenderV {
    let flushed = if attaches(frame) {
        state
    } else {
        RenderV { out: state.out + arrow_text(state.pending), pending: None }
    };
    RenderV {
        out: flushed.out + frame_text(frame, flushed.out.len() == 0),
        pending: match frame {
            FrameV::Call { callee, prefix, .. } => Some("call→"@ + pinned_text(callee, prefix)),
            _ => flushed.pending,
        },
    }
}

/// The text under construction after all frames.
pub open spec fn render_state(frames: Seq<FrameV>) -> RenderV
    decreases frames.len(),
{
    if frames.len() == 0 {
        RenderV { out: Seq::empty(), pending: None }
    } else {
        render_frame(render_state(frames.drop_last()), frames.last())
    }
}

/// The canonical text of a run path.
pub open spec fn rendered(frames: Seq<FrameV>) -> Seq<char> {
    let state = render_state(frames);
    state.out + arrow_text(state.pending)
}

/// Renders a structured run path to its canonical text. Hashes appear as
/// their first 8 hex digits.
pub fn render_run_path(path: &Vec<PathFrame>) -> (r: String)
    ensures
        r@ == rendered(shown_frames(path@)),
{
    let mut shown: Vec<ParsedPathFrame> = Vec::new();
    let mut i: usize = 0;
    while i < path.len()
        invariant
            i <= path@.len(),
            shown@.len() == i,
            forall|j: int| 0 <= j < i ==> #[trigger] shown@[j]@ == path@[j].shown(),
        decreases path@.len() - i,
    {
        shown.push(ParsedPathFrame::of(&path[i]));
        i = i + 1;
    }
    assert(frame_views(shown@) =~= shown_frames(path@));
    render_parsed_run_path(&shown)
}

fn flush_pending_call(out: &mut String, pending: Option<String>)
    ensures
        final(out)@ == old(out)@ + arrow_text(text::opt_text(pending)),
{
    if let Some(segment) = pending {
        out.push('/');
        out.append(segment.as_str());
        assert(out@ =~= old(out)@ + (seq!['/'] + segment@));
    } else {
        assert(out@ =~= old(out)@ + Seq::<char>::empty());
    }
}

fn write_frame(out: &mut String, frame: &ParsedPathFrame)
    ensures
        final(out)@ == old(out)@ + frame_text(frame@, old(out)@.len() == 0),
{
    let ghost before = out@;
    match frame {
        ParsedPathFrame::Flow { flow_id, ir_hash_prefix } => {
            if !out.as_str().is_empty() {
                out.push('/');
            }
            out.append(flow_id.as_str());
            out.push('@');
            out.append(ir_hash_prefix.as_str());
        },
        ParsedPathFrame::Step { step_id } => {
            out.push('/');
            out.append(step_id.as_str());
        },
        ParsedPathFrame::Call { step_id, .. } => {
            if let Some(id) = step_id {
                out.push('/');
                out.append(id.as_str());
            }
        },
        ParsedPathFrame::Iteration { index, key } => {
            out.push('[');
            out.append(decimal_text(*index).as_str());
            if let Some(k) = key {
                out.push(':');
                out.append(k.as_str());
            }
            out.push(']');
        },
        ParsedPathFrame::Hook { hook, trigger } => {
            out.append("/hook:");
            out.append(hook.wire_name());
            out.push(':');
            out.append(decimal_text(*trigger).as_str());
        },
        ParsedPathFrame::Attempt { n } => {
            out.push('#');
            out.append(decimal_text(*n).as_str());
        },
        ParsedPathFrame::Phase { phase } => {
            out.push(':');
            out.append(phase.wire_name());
        },
        ParsedPathFrame::Assertion { assert_id } => {
            out.push('!');
            out.append(assert_id.as_str());
        },
    }
    assert(out@ =~= before + frame_text(frame@, before.len() == 0));
}

/// Renders a parsed run path back to its canonical text.
pub fn render_parsed_run_path(path: &Vec<ParsedPathFrame>) -> (r: String)
    ensures
        r@ == rendered(frame_views(path@)),
{
    let mut out = String::new();
    let mut pending: Option<String> = None;
    let ghost views = frame_views(path@);
    let mut i: usize = 0;
    while i < path.len()
        invariant
            i <= path@.len(),
            views == frame_views(path@),
            out@ == render_state(views.take(i as int)).out,
            text::opt_text(pending) == render_state(views.take(i as int)).pending,
        decreases path@.len() - i,
    {
        let frame = &path[i];
        assert(views.take(i + 1).drop_last() =~= views.take(i as int));
        assert(views.take(i + 1).last() == frame@);
        let attached = matches!(
            frame,
            ParsedPathFrame::Attempt { .. } | ParsedPathFrame::Phase { .. }
        );
        if !attached {
            flush_pending_call(&mut out, pending);
            pending = None;
        }
        write_frame(&mut out, frame);
        if let ParsedPathFrame::Call { callee_flow_id, callee_ir_hash_prefix, .. } = frame {
            let mut arrow = "call→".to_owned();
            arrow.append(callee_flow_id.as_str());
            arrow.push('@');
            arrow.append(callee_ir_hash_prefix.as_str());
            assert(arrow@ =~= "call→"@ + pinned_text(callee_flow_id@, callee_ir_hash_prefix@));
            pending = Some(arrow);
        }
        i = i + 1;
    }
    assert(views.take(i as int) =~= views);
    flush_pending_call(&mut out, pending);
    out
}

/// The flow id and hash prefix of `<flowId>@<8 hex>`, or what is wrong.
pub open spec fn pinned_parts(
    segment: Seq<char>,
    what: Seq<char>,
) -> Result<(Seq<char>, Seq<char>), Seq<char>> {
    let at = text::find(segment, '@');
    let prefix = segment.skip(at + 1);
    if at >= segment.len() {
        Err(
            "a "@ + what + " segment must be '<flowId>@<8-hex irHash prefix>', got "@ + text::debug_text(
                segment,
            ),
        )
    } else if !primitives::is_hash_prefix(prefix) {
        Err("hash prefix must be exactly 8 lowercase hex chars, got "@ + text::debug_text(prefix))
    } else {
        Ok((segment.take(at), prefix))
    }
}

/// The frame of a flow root segment, or what is wrong with it.
pub open spec fn root_frame(segment: Seq<char>) -> Result<FrameV, Seq<char>> {
    match pinned_parts(segment, "flow root"@) {
        Err(m) => Err(m),
        Ok((name, prefix)) => match primitives::flow_id_fault(name) {
            Some(reason) => Err("invalid flow id: "@ + primitives::rejection("FlowId"@, reason, name)),
            None => Ok(FrameV::Flow { flow_id: name, prefix }),
        },
    }
}

/// The number of frames up to the last one that is neither an attempt nor a
/// phase.
pub open spec fn anchor(frames: Seq<FrameV>) -> int
    decreases frames.len(),
{
    if frames.len() > 0 && attaches(frames.last()) {
        anchor(frames.drop_last())
    } else {
        frames.len() as int
    }
}

/// The frames after an arrow segment, without its `call→`: the step before it
/// becomes a call; directly after a hook a call without a step id is added.
pub open spec fn call_frames(frames: Seq<FrameV>, rest: Seq<char>) -> Result<
    Seq<FrameV>,
    Seq<char>,
> {
    match pinned_parts(rest, "call target"@) {
        Err(m) => Err(m),
        Ok((name, prefix)) => match primitives::flow_id_fault(name) {
            Some(reason) => Err("invalid callee flow id: "@ + primitives::rejection("FlowId"@, reason, name)),
            None => {
                let at = anchor(frames);
                if at == 0 {
                    Err("a call→ segment cannot open a path"@)
                } else {
                    match frames[at - 1] {
                        FrameV::Step { step_id } => Ok(
                            frames.update(
                                at - 1,
                                FrameV::Call { step_id: Some(step_id), callee: name, prefix },
                            ),
                        ),
                        FrameV::Hook { .. } => Ok(
                            frames.insert(
                                at,
                                FrameV::Call { step_id: None, callee: name, prefix },
                            ),
                        ),
                        _ => Err("a call→ segment must follow a step or hook segment"@),
                    }
                }
            },
        },
    }
}

/// The hook with this name.
pub open spec fn hook_named(name: Seq<char>) -> Option<HandlerHook> {
    if name == HandlerHook::OnFail.wire() {
        Some(HandlerHook::OnFail)
    } else if name == HandlerHook::OnUnknown.wire() {
        Some(HandlerHook::OnUnknown)
    } else if name == HandlerHook::OnError.wire() {
        Some(HandlerHook::OnError)
    } else if name == HandlerHook::OnResumeDrift.wire() {
        Some(HandlerHook::OnResumeDrift)
    } else {
        None
    }
}

/// The phase with this name.
pub open spec fn phase_named(name: Seq<char>) -> Option<Phase> {
    if name == Phase::Preflight.wire() {
        Some(Phase::Preflight)
    } else if name == Phase::Act.wire() {
        Some(Phase::Act)
    } else if name == Phase::Observe.wire() {
        Some(Phase::Observe)
    } else if name == Phase::Assert.wire() {
        Some(Phase::Assert)
    } else {
        None
    }
}

/// The frame of a hook segment, or what is wrong with it.
pub open spec fn hook_frame(segment: Seq<char>) -> Result<FrameV, Seq<char>> {
    let rest = segment.skip("hook:"@.len() as int);
    let at = text::find(rest, ':');
    if at >= rest.len() {
        Err("a hook segment must be 'hook:<hookName>:<trigger>', got "@ + text::debug_text(segment))
    } else {
        match hook_named(rest.take(at)) {
            None => Err("unknown hook name "@ + text::debug_text(rest.take(at))),
            Some(hook) => match text::unsigned_value(rest.skip(at + 1)) {
                None => Err("hook trigger must be a number, got "@ + text::debug_text(rest.skip(at + 1))),
                Some(trigger) => if trigger == 0 {
                    Err("hook trigger must be at least 1"@)
                } else {
                    Ok(FrameV::Hook { hook, trigger })
                },
            },
        }
    }
}

/// Whether `c` can stand in a step id.
pub open spec fn is_id_char(c: char) -> bool {
    primitives::in_class(CharClass::Step, c) || c == ':'
}

/// The number of leading characters that can stand in a step id.
pub open spec fn id_len(s: Seq<char>) -> int
    decreases s.len(),
{
    if s.len() > 0 && is_id_char(s[0]) {
        1 + id_len(s.skip(1))
    } else {
        0
    }
}

/// The number of leading characters of a class.
pub open spec fn class_len(class: CharClass, s: Seq<char>) -> int
    decreases s.len(),
{
    if s.len() > 0 && primitives::in_class(class, s[0]) {
        1 + class_len(class, s.skip(1))
    } else {
        0
    }
}

/// `frame` before the frames of a successful reading.
pub open spec fn before_all(
    frame: FrameV,
    rest: Result<Seq<FrameV>, Seq<char>>,
) -> Result<Seq<FrameV>, Seq<char>> {
    match rest {
        Ok(frames) => Ok(seq![frame] + frames),
        Err(m) => Err(m),
    }
}

/// The index and key inside iteration brackets, or what is wrong with them.
pub open spec fn iteration_frame(body: Seq<char>) -> Result<FrameV, Seq<char>> {
    let colon = text::find(body, ':');
    match text::unsigned_value(body.take(colon)) {
        None => Err("iteration index must be a number, got "@ + text::debug_text(body.take(colon))),
        Some(index) => if colon >= body.len() {
            Ok(FrameV::Iteration { index, key: None })
        } else if colon + 1 == body.len() {
            Err("iteration key must not be empty"@)
        } else {
            Ok(FrameV::Iteration { index, key: Some(body.skip(colon + 1)) })
        },
    }
}

/// The frames of the suffixes `rest` of a step segment, or what is wrong.
pub open spec fn suffix_frames(segment: Seq<char>, rest: Seq<char>, after_attempt: bool) -> Result<
    Seq<FrameV>,
    Seq<char>,
>
    decreases rest.len(),
    via suffix_frames_decreases
{
    if rest.len() == 0 {
        Ok(Seq::empty())
    } else if rest[0] == '#' {
        let end = 1 + class_len(CharClass::Digit, rest.skip(1));
        let digits = rest.subrange(1, end);
        if digits.len() == 0 {
            Err("'#' must be followed by an attempt number"@)
        } else {
            match text::unsigned_value(digits) {
                None => Err("attempt number out of range: "@ + text::debug_text(digits)),
                Some(n) => if n == 0 {
                    Err("attempt number out of range: "@ + text::debug_text(digits))
                } else {
                    before_all(
                        FrameV::Attempt { n },
                        suffix_frames(segment, rest.skip(end), true),
                    )
                },
            }
        }
    } else if rest[0] == ':' {
        if !after_attempt {
            Err("a ':<phase>' suffix is only valid directly after an attempt '#n'"@)
        } else {
            let end = 1 + class_len(CharClass::Lower, rest.skip(1));
            let keyword = rest.subrange(1, end);
            match phase_named(keyword) {
                None => Err("unknown phase "@ + text::debug_text(keyword)),
                Some(phase) => before_all(
                    FrameV::Phase { phase },
                    suffix_frames(segment, rest.skip(end), false),
                ),
            }
        }
    } else if rest[0] == '[' {
        let close = text::find(rest, ']');
        if close >= rest.len() {
            Err("unterminated '[' iteration suffix"@)
        } else {
            match iteration_frame(rest.subrange(1, close)) {
                Err(m) => Err(m),
                Ok(frame) => before_all(
                    frame,
                    suffix_frames(segment, rest.skip(close + 1), false),
                ),
            }
        }
    } else if rest[0] == '!' {
        let id = rest.skip(1);
        match primitives::assert_id_fault(id) {
            Some(reason) => Err("invalid assertion id: "@ + primitives::rejection("AssertId"@, reason, id)),
            None => Ok(seq![FrameV::Assertion { assert_id: id }]),
        }
    } else {
        Err(
            "unexpected character "@ + text::debug_char(rest[0]) + " in step segment "@ + text::debug_text(
                segment,
            ),
        )
    }
}

#[via_fn]
proof fn suffix_frames_decreases(segment: Seq<char>, rest: Seq<char>, after_attempt: bool) {
    if rest.len() > 0 {
        lemma_class_len(CharClass::Digit, rest.skip(1));
        lemma_class_len(CharClass::Lower, rest.skip(1));
        crate::text::lemma_find(rest, ']');
    }
}

/// The leading run of a class stays within the text and ends where the class ends.
pub proof fn lemma_class_len(class: CharClass, s: Seq<char>)
    ensures
        0 <= class_len(class, s) <= s.len(),
        primitives::all_in(class, s.take(class_len(class, s))),
        class_len(class, s) < s.len() ==> !primitives::in_class(class, s[class_len(class, s)]),
    decreases s.len(),
{
    if s.len() > 0 && primitives::in_class(class, s[0]) {
        lemma_class_len(class, s.skip(1));
        let n = class_len(class, s);
        assert forall|i: int| 0 <= i < n implies primitives::in_class(class, #[trigger] s.take(n)[i]) by {
            if i > 0 {
                assert(s.take(n)[i] == s.skip(1).take(n - 1)[i - 1]);
            }
        }
    }
}

/// The leading run of id characters stays within the text and ends where they end.
pub proof fn lemma_id_len(s: Seq<char>)
    ensures
        0 <= id_len(s) <= s.len(),
        forall|i: int| 0 <= i < id_len(s) ==> is_id_char(#[trigger] s[i]),
        id_len(s) < s.len() ==> !is_id_char(s[id_len(s)]),
    decreases s.len(),
{
    if s.len() > 0 && is_id_char(s[0]) {
        lemma_id_len(s.skip(1));
        assert forall|i: int| 0 <= i < id_len(s) implies is_id_char(#[trigger] s[i]) by {
            if i > 0 {
                assert(s[i] == s.skip(1)[i - 1]);
            }
        }
    }
}

/// The leading run of id characters is found by its end.
pub proof fn lemma_id_len_is(s: Seq<char>, n: int)
    requires
        0 <= n <= s.len(),
        forall|i: int| 0 <= i < n ==> is_id_char(#[trigger] s[i]),
        n < s.len() ==> !is_id_char(s[n]),
    ensures
        id_len(s) == n,
{
    lemma_id_len(s);
    let m = id_len(s);
    if m < n {
        assert(is_id_char(s[m]));
    }
    if n < m {
        assert(is_id_char(s[n]));
    }
}

/// The leading run of a class is found by its end.
pub proof fn lemma_class_len_is(class: CharClass, s: Seq<char>, n: int)
    requires
        0 <= n <= s.len(),
        forall|i: int| 0 <= i < n ==> primitives::in_class(class, #[trigger] s[i]),
        n < s.len() ==> !primitives::in_class(class, s[n]),
    ensures
        class_len(class, s) == n,
{
    lemma_class_len(class, s);
    let m = class_len(class, s);
    if m < n {
        assert(primitives::in_class(class, s[m]));
    }
    if n < m {
        assert(primitives::in_class(class, s.take(m)[n]));
    }
}

/// The frames of a step segment, or what is wrong with it.
pub open spec fn step_frames(segment: Seq<char>) -> Result<Seq<FrameV>, Seq<char>> {
    let end = id_len(segment);
    let id = segment.take(end);
    if end == 0 {
        Err("expected a step id, got "@ + text::debug_text(segment))
    } else {
        match primitives::step_id_fault(id) {
            Some(reason) => Err("invalid step id: "@ + primitives::rejection("StepId"@, reason, id)),
            None => before_all(
                FrameV::Step { step_id: id },
                suffix_frames(segment, segment.skip(end), false),
            ),
        }
    }
}

/// Whether a path can go on after the frames: they do not end in an assertion.
pub open spec fn is_open(frames: Seq<FrameV>) -> bool {
    frames.len() > 0 ==> !(frames.last() is Assertion)
}

/// The frames after one more segment, or what is wrong with it.
pub open spec fn with_segment(frames: Seq<FrameV>, segment: Seq<char>, first: bool) -> Result<
    Seq<FrameV>,
    Seq<char>,
> {
    if first {
        match root_frame(segment) {
            Ok(frame) => Ok(frames.push(frame)),
            Err(m) => Err(m),
        }
    } else if text::starts_with(segment, "call→"@) {
        call_frames(frames, segment.skip("call→"@.len() as int))
    } else if !is_open(frames) {
        Err("an assertion ends its path"@)
    } else if text::starts_with(segment, "hook:"@) {
        match hook_frame(segment) {
            Ok(frame) => Ok(frames.push(frame)),
            Err(m) => Err(m),
        }
    } else {
        match step_frames(segment) {
            Ok(more) => Ok(frames + more),
            Err(m) => Err(m),
        }
    }
}

/// The frames of the path whose segments up to `start` gave `frames`.
pub open spec fn parsed_from(input: Seq<char>, start: int, frames: Seq<FrameV>) -> Result<
    Seq<FrameV>,
    PathFaultV,
>
    decreases input.len() - start,
    via parsed_from_decreases
{
    if start < 0 || start > input.len() {
        Err(PathFaultV { offset: 0, message: Seq::empty() })
    } else {
        let end = text::find_from(input, '/', start);
        match with_segment(frames, input.subrange(start, end), start == 0) {
            Err(message) => Err(PathFaultV { offset: text::byte_len(input.take(start)), message }),
            Ok(more) => if end < input.len() {
                parsed_from(input, end + 1, more)
            } else {
                Ok(more)
            },
        }
    }
}

#[via_fn]
proof fn parsed_from_decreases(input: Seq<char>, start: int, frames: Seq<FrameV>) {
    if 0 <= start <= input.len() {
        crate::text::lemma_find_from(input, '/', start);
    }
}

/// The frames that a path's text spells, or where and why it is none.
pub open spec fn parsed(input: Seq<char>) -> Result<Seq<FrameV>, PathFaultV> {
    if input.len() == 0 {
        Err(PathFaultV { offset: 0, message: "empty RunPath string"@ })
    } else {
        parsed_from(input, 0, Seq::empty())
    }
}

fn parse_name_at_hash(chars: &Vec<char>, from: usize, to: usize, what: &str) -> (r: Result<
    (String, String),
    String,
>)
    requires
        from <= to <= chars@.len(),
    ensures
        match (r, pinned_parts(chars@.subrange(from as int, to as int), what@)) {
            (Ok(a), Ok(b)) => a.0@ == b.0 && a.1@ == b.1,
            (Err(m), Err(n)) => m@ == n,
            _ => false,
        },
{
    let ghost segment = chars@.subrange(from as int, to as int);
    let at = find_in(chars, from, to, '@');
    if at == to {
        let text = string_of(chars, from, to);
        let head = concat3(
            "a ",
            what,
            " segment must be '<flowId>@<8-hex irHash prefix>', got ",
        );
        return Err(concat(head.as_str(), quote_text(text.as_str()).as_str()));
    }
    assert(segment.skip(at - from + 1) =~= chars@.subrange(at + 1, to as int));
    assert(segment.take(at - from) =~= chars@.subrange(from as int, at as int));
    if to - (at + 1) != 8 || !all_have(CharClass::Hex, chars, at + 1, to) {
        let text = string_of(chars, at + 1, to);
        return Err(
            concat(
                "hash prefix must be exactly 8 lowercase hex chars, got ",
                quote_text(text.as_str()).as_str(),
            ),
        );
    }
    Ok((string_of(chars, from, at), string_of(chars, at + 1, to)))
}

fn parse_call_segment(
    chars: &Vec<char>,
    from: usize,
    to: usize,
    frames: &mut Vec<ParsedPathFrame>,
) -> (r: Result<(), String>)
    requires
        from <= to <= chars@.len(),
    ensures
        match (
            r,
            call_frames(frame_views(old(frames)@), chars@.subrange(from as int, to as int)),
        ) {
            (Ok(_), Ok(b)) => frame_views(final(frames)@) == b,
            (Err(m), Err(n)) => m@ == n && frame_views(final(frames)@) == frame_views(
                old(frames)@,
            ),
            _ => false,
        },
{
    let (name, prefix) = match parse_name_at_hash(chars, from, to, "call target") {
        Ok(parts) => parts,
        Err(message) => {
            return Err(message);
        },
    };
    let callee_flow_id = match FlowId::new(name.as_str()) {
        Ok(id) => id,
        Err(e) => {
            return Err(concat("invalid callee flow id: ", e.message().as_str()));
        },
    };
    let ghost views = frame_views(frames@);
    let mut at: usize = frames.len();
    assert(views.take(at as int) =~= views);
    while at > 0 && matches!(
        frames[at - 1],
        ParsedPathFrame::Attempt { .. } | ParsedPathFrame::Phase { .. }
    )
        invariant
            at <= frames@.len(),
            views == frame_views(frames@),
            anchor(views) == anchor(views.take(at as int)),
        decreases at,
    {
        assert(views.take(at as int).last() == frames@[at - 1]@);
        assert(views.take(at as int).drop_last() =~= views.take(at - 1));
        at = at - 1;
    }
    proof {
        if at > 0 {
            assert(views.take(at as int).last() == frames@[at - 1]@);
        }
        assert(anchor(views) == at);
    }
    if at == 0 {
        return Err("a call→ segment cannot open a path".to_owned());
    }
    let mut hooked: bool = false;
    let mut step: Option<StepId> = None;
    assert(views[at - 1] == frames@[at - 1]@);
    match &frames[at - 1] {
        ParsedPathFrame::Step { step_id } => {
            step = Some(step_id.clone());
        },
        ParsedPathFrame::Hook { .. } => {
            hooked = true;
        },
        _ => {},
    }
    match step {
        Some(step_id) => {
            frames.set(
                at - 1,
                ParsedPathFrame::Call {
                    step_id: Some(step_id),
                    callee_flow_id,
                    callee_ir_hash_prefix: prefix,
                },
            );
            assert(frame_views(frames@) =~= call_frames(
                views,
                chars@.subrange(from as int, to as int),
            )->Ok_0);
            Ok(())
        },
        None => {
            if hooked {
                frames.insert(
                    at,
                    ParsedPathFrame::Call {
                        step_id: None,
                        callee_flow_id,
                        callee_ir_hash_prefix: prefix,
                    },
                );
                assert(frame_views(frames@) =~= call_frames(
                    views,
                    chars@.subrange(from as int, to as int),
                )->Ok_0);
                Ok(())
            } else {
                Err("a call→ segment must follow a step or hook segment".to_owned())
            }
        },
    }
}

fn parse_hook_name(chars: &Vec<char>, from: usize, to: usize) -> (r: Option<HandlerHook>)
    requires
        from <= to <= chars@.len(),
    ensures
        r == hook_named(chars@.subrange(from as int, to as int)),
{
    if is_word(chars, from, to, "onFail") {
        Some(HandlerHook::OnFail)
    } else if is_word(chars, from, to, "onUnknown") {
        Some(HandlerHook::OnUnknown)
    } else if is_word(chars, from, to, "onError") {
        Some(HandlerHook::OnError)
    } else if is_word(chars, from, to, "onResumeDrift") {
        Some(HandlerHook::OnResumeDrift)
    } else {
        None
    }
}

fn parse_phase_name(chars: &Vec<char>, from: usize, to: usize) -> (r: Option<Phase>)
    requires
        from <= to <= chars@.len(),
    ensures
        r == phase_named(chars@.subrange(from as int, to as int)),
{
    if is_word(chars, from, to, "preflight") {
        Some(Phase::Preflight)
    } else if is_word(chars, from, to, "act") {
        Some(Phase::Act)
    } else if is_word(chars, from, to, "observe") {
        Some(Phase::Observe)
    } else if is_word(chars, from, to, "assert") {
        Some(Phase::Assert)
    } else {
        None
    }
}

fn parse_hook_segment(chars: &Vec<char>, from: usize, to: usize) -> (r: Result<
    ParsedPathFrame,
    String,
>)
    requires
        from <= to <= chars@.len(),
        text::starts_with(chars@.subrange(from as int, to as int), "hook:"@),
    ensures
        match (r, hook_frame(chars@.subrange(from as int, to as int))) {
            (Ok(a), Ok(b)) => a@ == b,
            (Err(m), Err(n)) => m@ == n,
            _ => false,
        },
{
    let ghost segment = chars@.subrange(from as int, to as int);
    proof {
        reveal_strlit("hook:");
    }
    let start = from + 5;
    let ghost rest = segment.skip(5);
    assert(rest =~= chars@.subrange(start as int, to as int));
    let at = find_in(chars, start, to, ':');
    if at == to {
        let text = string_of(chars, from, to);
        return Err(
            concat(
                "a hook segment must be 'hook:<hookName>:<trigger>', got ",
                quote_text(text.as_str()).as_str(),
            ),
        );
    }
    assert(rest.take(at - start) =~= chars@.subrange(start as int, at as int));
    assert(rest.skip(at - start + 1) =~= chars@.subrange(at + 1, to as int));
    match parse_hook_name(chars, start, at) {
        None => {
            let text = string_of(chars, start, at);
            Err(concat("unknown hook name ", quote_text(text.as_str()).as_str()))
        },
        Some(hook) => match parse_unsigned(chars, at + 1, to) {
            None => {
                let text = string_of(chars, at + 1, to);
                Err(
                    concat("hook trigger must be a number, got ", quote_text(text.as_str()).as_str()),
                )
            },
            Some(trigger) => if trigger == 0 {
                Err("hook trigger must be at least 1".to_owned())
            } else {
                Ok(ParsedPathFrame::Hook { hook, trigger })
            },
        },
    }
}

fn class_end(class: CharClass, chars: &Vec<char>, from: usize, to: usize) -> (r: usize)
    requires
        from <= to <= chars@.len(),
    ensures
        from <= r <= to,
        r - from == class_len(class, chars@.subrange(from as int, to as int)),
{
    let ghost s = chars@.subrange(from as int, to as int);
    let mut i: usize = from;
    while i < to && class_has(class, chars[i])
        invariant
            from <= i <= to <= chars@.len(),
            s == chars@.subrange(from as int, to as int),
            forall|j: int| 0 <= j < i - from ==> primitives::in_class(class, #[trigger] s[j]),
        decreases to - i,
    {
        assert(s[i - from] == chars@[i as int]);
        i = i + 1;
    }
    proof {
        if i < to {
            assert(s[i - from] == chars@[i as int]);
        }
        lemma_class_len_is(class, s, i - from);
    }
    i
}

fn id_end(chars: &Vec<char>, from: usize, to: usize) -> (r: usize)
    requires
        from <= to <= chars@.len(),
    ensures
        from <= r <= to,
        r - from == id_len(chars@.subrange(from as int, to as int)),
{
    let ghost s = chars@.subrange(from as int, to as int);
    let mut i: usize = from;
    while i < to && (class_has(CharClass::Step, chars[i]) || chars[i] == ':')
        invariant
            from <= i <= to <= chars@.len(),
            s == chars@.subrange(from as int, to as int),
            forall|j: int| 0 <= j < i - from ==> is_id_char(#[trigger] s[j]),
        decreases to - i,
    {
        assert(s[i - from] == chars@[i as int]);
        i = i + 1;
    }
    proof {
        if i < to {
            assert(s[i - from] == chars@[i as int]);
        }
        lemma_id_len_is(s, i - from);
    }
    i
}

fn parse_iteration(chars: &Vec<char>, from: usize, to: usize) -> (r: Result<
    ParsedPathFrame,
    String,
>)
    requires
        from <= to <= chars@.len(),
    ensures
        match (r, iteration_frame(chars@.subrange(from as int, to as int))) {
            (Ok(a), Ok(b)) => a@ == b,
            (Err(m), Err(n)) => m@ == n,
            _ => false,
        },
{
    let ghost body = chars@.subrange(from as int, to as int);
    let colon = find_in(chars, from, to, ':');
    assert(body.take(colon - from) =~= chars@.subrange(from as int, colon as int));
    match parse_unsigned(chars, from, colon) {
        None => {
            let text = string_of(chars, from, colon);
            Err(
                concat(
                    "iteration index must be a number, got ",
                    quote_text(text.as_str()).as_str(),
                ),
            )
        },
        Some(index) => {
            if colon == to {
                Ok(ParsedPathFrame::Iteration { index, key: None })
            } else if colon + 1 == to {
                Err("iteration key must not be empty".to_owned())
            } else {
                assert(body.skip(colon - from + 1) =~= chars@.subrange(colon + 1, to as int));
                Ok(
                    ParsedPathFrame::Iteration {
                        index,
                        key: Some(string_of(chars, colon + 1, to)),
                    },
                )
            }
        },
    }
}

/// `pushed` frames in front of the result of reading the rest.
spec fn continued(
    pushed: Seq<FrameV>,
    rest: Result<Seq<FrameV>, Seq<char>>,
) -> Result<Seq<FrameV>, Seq<char>> {
    match rest {
        Ok(frames) => Ok(pushed + frames),
        Err(m) => Err(m),
    }
}

proof fn lemma_continued(
    pushed: Seq<FrameV>,
    frame: FrameV,
    rest: Result<Seq<FrameV>, Seq<char>>,
)
    ensures
        continued(pushed, before_all(frame, rest)) == continued(pushed.push(frame), rest),
{
    if let Ok(frames) = rest {
        assert(pushed + (seq![frame] + frames) =~= pushed.push(frame) + frames);
    }
}

fn parse_step_segment(
    chars: &Vec<char>,
    from: usize,
    to: usize,
    frames: &mut Vec<ParsedPathFrame>,
) -> (r: Result<(), String>)
    requires
        from <= to <= chars@.len(),
    ensures
        match (r, step_frames(chars@.subrange(from as int, to as int))) {
            (Ok(_), Ok(b)) => frame_views(final(frames)@) == frame_views(old(frames)@) + b,
            (Err(m), Err(n)) => m@ == n,
            _ => false,
        },
{
    let ghost segment = chars@.subrange(from as int, to as int);
    let ghost start_views = frame_views(frames@);
    let end = id_end(chars, from, to);
    if end == from {
        let text = string_of(chars, from, to);
        return Err(concat("expected a step id, got ", quote_text(text.as_str()).as_str()));
    }
    let id = string_of(chars, from, end);
    assert(segment.take(end - from) =~= id@);
    let step_id = match StepId::new(id.as_str()) {
        Ok(step_id) => step_id,
        Err(e) => {
            return Err(concat("invalid step id: ", e.message().as_str()));
        },
    };
    frames.push(ParsedPathFrame::Step { step_id });
    assert(frame_views(frames@) =~= start_views.push(FrameV::Step { step_id: id@ }));
    assert(segment.skip(end - from) =~= chars@.subrange(end as int, to as int));
    let ghost goal = suffix_frames(segment, segment.skip(end - from), false);
    let ghost mut pushed: Seq<FrameV> = Seq::empty();
    let mut at: usize = end;
    let mut after_attempt: bool = false;
    proof {
        assert(start_views.push(FrameV::Step { step_id: id@ }) =~= start_views.push(
            FrameV::Step { step_id: id@ },
        ) + pushed);
        if let Ok(fs) = goal {
            assert(pushed + fs =~= fs);
        }
    }
    while at < to
        invariant
            from <= end <= at <= to <= chars@.len(),
            segment == chars@.subrange(from as int, to as int),
            frame_views(frames@) == start_views.push(FrameV::Step { step_id: id@ }) + pushed,
            goal == continued(
                pushed,
                suffix_frames(segment, chars@.subrange(at as int, to as int), after_attempt),
            ),
            goal == suffix_frames(segment, segment.skip(end - from), false),
            end - from == id_len(segment),
            end > from,
            primitives::step_id_fault(segment.take(end - from)) is None,
            id@ == segment.take(end - from),
        decreases to - at,
    {
        let ghost rest = chars@.subrange(at as int, to as int);
        let ghost before = frames@;
        let next = chars[at];
        assert(rest[0] == next);
        if next == '#' {
            assert(rest.skip(1) =~= chars@.subrange(at + 1, to as int));
            let stop = class_end(CharClass::Digit, chars, at + 1, to);
            assert(rest.subrange(1, stop - at) =~= chars@.subrange(at + 1, stop as int));
            if stop == at + 1 {
                return Err("'#' must be followed by an attempt number".to_owned());
            }
            match parse_unsigned(chars, at + 1, stop) {
                None | Some(0) => {
                    let text = string_of(chars, at + 1, stop);
                    return Err(
                        concat(
                            "attempt number out of range: ",
                            quote_text(text.as_str()).as_str(),
                        ),
                    );
                },
                Some(n) => {
                    frames.push(ParsedPathFrame::Attempt { n });
                    assert(rest.skip(stop - at) =~= chars@.subrange(stop as int, to as int));
                    proof {
                        lemma_continued(
                            pushed,
                            FrameV::Attempt { n },
                            suffix_frames(segment, rest.skip(stop - at), true),
                        );
                        pushed = pushed.push(FrameV::Attempt { n });
                    }
                    at = stop;
                    after_attempt = true;
                },
            }
        } else if next == ':' {
            if !after_attempt {
                return Err(
                    "a ':<phase>' suffix is only valid directly after an attempt '#n'".to_owned(),
                );
            }
            assert(rest.skip(1) =~= chars@.subrange(at + 1, to as int));
            let stop = class_end(CharClass::Lower, chars, at + 1, to);
            assert(rest.subrange(1, stop - at) =~= chars@.subrange(at + 1, stop as int));
            match parse_phase_name(chars, at + 1, stop) {
                None => {
                    let text = string_of(chars, at + 1, stop);
                    return Err(concat("unknown phase ", quote_text(text.as_str()).as_str()));
                },
                Some(phase) => {
                    frames.push(ParsedPathFrame::Phase { phase });
                    assert(rest.skip(stop - at) =~= chars@.subrange(stop as int, to as int));
                    proof {
                        lemma_continued(
                            pushed,
                            FrameV::Phase { phase },
                            suffix_frames(segment, rest.skip(stop - at), false),
                        );
                        pushed = pushed.push(FrameV::Phase { phase });
                    }
                    at = stop;
                    after_attempt = false;
                },
            }
        } else if next == '[' {
            let close = find_in(chars, at, to, ']');
            if close == to {
                return Err("unterminated '[' iteration suffix".to_owned());
            }
            assert(rest.subrange(1, close - at) =~= chars@.subrange(at + 1, close as int));
            match parse_iteration(chars, at + 1, close) {
                Err(message) => {
                    return Err(message);
                },
                Ok(frame) => {
                    let ghost view = frame@;
                    frames.push(frame);
                    assert(rest.skip(close - at + 1) =~= chars@.subrange(close + 1, to as int));
                    proof {
                        lemma_continued(
                            pushed,
                            view,
                            suffix_frames(segment, rest.skip(close - at + 1), false),
                        );
                        pushed = pushed.push(view);
                    }
                    at = close + 1;
                    after_attempt = false;
                },
            }
        } else if next == '!' {
            assert(rest.skip(1) =~= chars@.subrange(at + 1, to as int));
            let text = string_of(chars, at + 1, to);
            match AssertId::new(text.as_str()) {
                Err(e) => {
                    return Err(concat("invalid assertion id: ", e.message().as_str()));
                },
                Ok(assert_id) => {
                    let ghost view = FrameV::Assertion { assert_id: assert_id@ };
                    frames.push(ParsedPathFrame::Assertion { assert_id });
                    proof {
                        let empty = chars@.subrange(to as int, to as int);
                        assert(suffix_frames(segment, empty, false) == Ok::<
                            Seq<FrameV>,
                            Seq<char>,
                        >(Seq::empty()));
                        assert(seq![view] + Seq::<FrameV>::empty() =~= seq![view]);
                        lemma_continued(pushed, view, suffix_frames(segment, empty, false));
                        pushed = pushed.push(view);
                    }
                    at = to;
                    after_attempt = false;
                },
            }
        } else {
            let text = string_of(chars, from, to);
            let head = concat3(
                "unexpected character ",
                quote_char(next).as_str(),
                " in step segment ",
            );
            return Err(concat(head.as_str(), quote_text(text.as_str()).as_str()));
        }
        assert(frame_views(frames@) =~= frame_views(before).push(frame_views(frames@).last()));
        assert(frame_views(frames@) =~= start_views.push(FrameV::Step { step_id: id@ }) + pushed);
    }
    proof {
        let empty = chars@.subrange(at as int, to as int);
        assert(empty.len() == 0);
        assert(goal == Ok::<Seq<FrameV>, Seq<char>>(pushed + Seq::empty()));
        assert(pushed + Seq::<FrameV>::empty() =~= pushed);
        assert(start_views.push(FrameV::Step { step_id: id@ }) + pushed =~= start_views + (seq![
            FrameV::Step { step_id: id@ },
        ] + pushed));
    }
    Ok(())
}

fn parse_error(chars: &Vec<char>, start: usize, message: String) -> (r: RunPathParseError)
    requires
        start <= chars@.len(),
    ensures
        r@ == (PathFaultV { offset: text::byte_len(chars@.take(start as int)), message: message@ }),
{
    assert(chars@.subrange(0, start as int) =~= chars@.take(start as int));
    RunPathParseError { offset: text_byte_len(string_of(chars, 0, start).as_str()), message }
}

fn can_go_on(frames: &Vec<ParsedPathFrame>) -> (r: bool)
    ensures
        r == is_open(frame_views(frames@)),
{
    let n = frames.len();
    if n == 0 {
        return true;
    }
    assert(frame_views(frames@).last() == frames@[n - 1]@);
    !matches!(frames[n - 1], ParsedPathFrame::Assertion { .. })
}

fn parse_segment(
    chars: &Vec<char>,
    from: usize,
    to: usize,
    first: bool,
    frames: &mut Vec<ParsedPathFrame>,
) -> (r: Result<(), String>)
    requires
        from <= to <= chars@.len(),
    ensures
        match (
            r,
            with_segment(frame_views(old(frames)@), chars@.subrange(from as int, to as int), first),
        ) {
            (Ok(_), Ok(b)) => frame_views(final(frames)@) == b,
            (Err(m), Err(n)) => m@ == n,
            _ => false,
        },
{
    let ghost before = frame_views(frames@);
    let ghost segment = chars@.subrange(from as int, to as int);
    if first {
        let (name, prefix) = match parse_name_at_hash(chars, from, to, "flow root") {
            Ok(parts) => parts,
            Err(message) => {
                return Err(message);
            },
        };
        match FlowId::new(name.as_str()) {
            Err(e) => Err(concat("invalid flow id: ", e.message().as_str())),
            Ok(flow_id) => {
                frames.push(ParsedPathFrame::Flow { flow_id, ir_hash_prefix: prefix });
                assert(frame_views(frames@) =~= before.push(
                    FrameV::Flow { flow_id: name@, prefix: prefix@ },
                ));
                Ok(())
            },
        }
    } else if has_prefix(chars, from, to, "call→") {
        proof {
            reveal_strlit("call→");
        }
        assert(segment.skip(5) =~= chars@.subrange(from + 5, to as int));
        parse_call_segment(chars, from + 5, to, frames)
    } else if !can_go_on(frames) {
        Err("an assertion ends its path".to_owned())
    } else if has_prefix(chars, from, to, "hook:") {
        match parse_hook_segment(chars, from, to) {
            Ok(frame) => {
                let ghost view = frame@;
                frames.push(frame);
                assert(frame_views(frames@) =~= before.push(view));
                Ok(())
            },
            Err(message) => Err(message),
        }
    } else {
        parse_step_segment(chars, from, to, frames)
    }
}

/// Parses the canonical text of a run path back to its frames, as far as the
/// text shows them. A text that rendering would not give is refused.
pub fn parse_run_path(input: &str) -> (r: Result<Vec<ParsedPathFrame>, RunPathParseError>)
    ensures
        match (r, parsed(input@)) {
            (Ok(frames), Ok(views)) => frame_views(frames@) == views,
            (Err(e), Err(fault)) => e@ == fault,
            _ => false,
        },
{
    let chars = chars_of(input);
    let n = chars.len();
    if n == 0 {
        let message = "empty RunPath string".to_owned();
        return Err(RunPathParseError { offset: 0, message });
    }
    let mut frames: Vec<ParsedPathFrame> = Vec::new();
    let mut start: usize = 0;
    let mut done: bool = false;
    assert(frame_views(frames@) =~= Seq::<FrameV>::empty());
    while !done
        invariant
            0 <= start <= n,
            n == chars@.len(),
            n > 0,
            chars@ == input@,
            !done ==> parsed(input@) == parsed_from(input@, start as int, frame_views(frames@)),
            done ==> parsed(input@) == Ok::<Seq<FrameV>, PathFaultV>(frame_views(frames@)),
        decreases (if done { 0int } else { 1int }), n - start,
    {
        let end = find_in(&chars, start, n, '/');
        proof {
            crate::text::lemma_find_from(input@, '/', start as int);
            let f = text::find_from(input@, '/', start as int);
            if f < end {
                assert(chars@[f] != '/');
            }
            if end < f {
                assert(input@[end as int] != '/');
            }
        }
        match parse_segment(&chars, start, end, start == 0, &mut frames) {
            Err(message) => {
                return Err(parse_error(&chars, start, message));
            },
            Ok(_) => {},
        }
        if end < n {
            start = end + 1;
        } else {
            done = true;
        }
    }
    Ok(frames)
}

impl Wire for PathFrame {
    open spec fn wire_json(&self) -> JsonV {
        match self {
            PathFrame::Flow { flow_id, ir_hash } => Members::none()
                .with("kind"@, JsonV::Text("flow"@))
                .with("flowId"@, flow_id.wire_json())
                .with("irHash"@, ir_hash.wire_json())
                .object(),
            PathFrame::Step { step_id } => Members::none()
                .with("kind"@, JsonV::Text("step"@))
                .with("stepId"@, step_id.wire_json())
                .object(),
            PathFrame::Call { step_id, callee_flow_id, callee_ir_hash } => Members::none()
                .with("kind"@, JsonV::Text("call"@))
                .with_some("stepId"@, wire::wire_some(*step_id))
                .with("calleeFlowId"@, callee_flow_id.wire_json())
                .with("calleeIrHash"@, callee_ir_hash.wire_json())
                .object(),
            PathFrame::Iteration { index, key } => Members::none()
                .with("kind"@, JsonV::Text("iteration"@))
                .with("index"@, index.wire_json())
                .with_some("key"@, wire::wire_some(*key))
                .object(),
            PathFrame::Hook { hook, trigger } => Members::none()
                .with("kind"@, JsonV::Text("hook"@))
                .with("hook"@, hook.wire_json())
                .with("trigger"@, trigger.wire_json())
                .object(),
            PathFrame::Attempt { n } => Members::none()
                .with("kind"@, JsonV::Text("attempt"@))
                .with("n"@, n.wire_json())
                .object(),
            PathFrame::Phase { phase } => Members::none()
                .with("kind"@, JsonV::Text("phase"@))
                .with("phase"@, phase.wire_json())
                .object(),
            PathFrame::Assertion { assert_id } => Members::none()
                .with("kind"@, JsonV::Text("assertion"@))
                .with("assertId"@, assert_id.wire_json())
                .object(),
        }
    }

    fn to_json(&self) -> (r: Json) {
        match self {
            PathFrame::Flow { flow_id, ir_hash } => JsonMap::new()
                .with("kind", Json::text("flow"))
                .with("flowId", flow_id.to_json())
                .with("irHash", ir_hash.to_json())
                .object(),
            PathFrame::Step { step_id } => JsonMap::new()
                .with("kind", Json::text("step"))
                .with("stepId", step_id.to_json())
                .object(),
            PathFrame::Call { step_id, callee_flow_id, callee_ir_hash } => JsonMap::new()
                .with("kind", Json::text("call"))
                .with_some("stepId", some_json(step_id))
                .with("calleeFlowId", callee_flow_id.to_json())
                .with("calleeIrHash", callee_ir_hash.to_json())
                .object(),
            PathFrame::Iteration { index, key } => JsonMap::new()
                .with("kind", Json::text("iteration"))
                .with("index", index.to_json())
                .with_some("key", some_json(key))
                .object(),
            PathFrame::Hook { hook, trigger } => JsonMap::new()
                .with("kind", Json::text("hook"))
                .with("hook", hook.to_json())
                .with("trigger", trigger.to_json())
                .object(),
            PathFrame::Attempt { n } => JsonMap::new()
                .with("kind", Json::text("attempt"))
                .with("n", n.to_json())
                .object(),
            PathFrame::Phase { phase } => JsonMap::new()
                .with("kind", Json::text("phase"))
                .with("phase", phase.to_json())
                .object(),
            PathFrame::Assertion { assert_id } => JsonMap::new()
                .with("kind", Json::text("assertion"))
                .with("assertId", assert_id.to_json())
                .object(),
        }
    }
}

impl Duplicate for PathFrame {
    fn duplicate(&self) -> (r: Self) {
        match self {
            PathFrame::Flow { flow_id, ir_hash } => PathFrame::Flow {
                flow_id: flow_id.duplicate(),
                ir_hash: ir_hash.duplicate(),
            },
            PathFrame::Step { step_id } => PathFrame::Step { step_id: step_id.duplicate() },
            PathFrame::Call { step_id, callee_flow_id, callee_ir_hash } => PathFrame::Call {
                step_id: duplicate_some(step_id),
                callee_flow_id: callee_flow_id.duplicate(),
                callee_ir_hash: callee_ir_hash.duplicate(),
            },
            PathFrame::Iteration { index, key } => PathFrame::Iteration {
                index: index.duplicate(),
                key: duplicate_some(key),
            },
            PathFrame::Hook { hook, trigger } => PathFrame::Hook {
                hook: hook.duplicate(),
                trigger: trigger.duplicate(),
            },
            PathFrame::Attempt { n } => PathFrame::Attempt { n: n.duplicate() },
            PathFrame::Phase { phase } => PathFrame::Phase { phase: phase.duplicate() },
            PathFrame::Assertion { assert_id } => PathFrame::Assertion {
                assert_id: assert_id.duplicate(),
            },
        }
    }
}

} // verus!
