use vstd::prelude::*;

use crate::chat::{
    calls_view, clone_opt, ov, ChatResponseChunk, ChatResponseFunctionCall, ChatResponseToolCall,
    FunctionCallView, ToolCallView,
};
use crate::error::CognitionError;
use crate::message::{is_json, json_valid};

verus! {

/// A fragment of a tool call, addressed by its position in the turn. The
/// provider sends a call's id, type and name whole, in one fragment, and its
/// arguments in pieces: a later id, type or name replaces an earlier one,
/// while argument pieces are joined in arrival order.
pub struct ToolCallDelta {
    pub index: u32,
    pub id: Option<String>,
    pub call_type: Option<String>,
    pub name: Option<String>,
    pub arguments: Option<String>,
}

pub struct DeltaView {
    pub index: u32,
    pub id: Option<Seq<char>>,
    pub call_type: Option<Seq<char>>,
    pub name: Option<Seq<char>>,
    pub arguments: Option<Seq<char>>,
}

impl View for ToolCallDelta {
    type V = DeltaView;

    open spec fn view(&self) -> DeltaView {
        DeltaView {
            index: self.index,
            id: ov(self.id),
            call_type: ov(self.call_type),
            name: ov(self.name),
            arguments: ov(self.arguments),
        }
    }
}

/// One event read from the provider's stream.
pub enum DeltaEvent {
    /// New answer text.
    Content(String),
    /// Fragments of one or more tool calls.
    ToolCalls(Vec<ToolCallDelta>),
    /// The provider has nothing more to say.
    End,
    /// An event that is neither text nor a tool-call fragment.
    Unrecognized,
    /// The provider's stream broke off with an error.
    ProviderError,
}

/// What the caller does after handing an event to the assembler.
pub enum StepOutcome {
    /// Forward this chunk.
    Chunk(ChatResponseChunk),
    /// Read the next event.
    Continue,
    /// Stop reading and release the provider's stream.
    Finished,
    /// Stop reading; the turn failed.
    Failed(CognitionError),
}

/// The state of one streamed turn.
pub struct ChatAssembler {
    /// The answer text received so far.
    pub message: String,
    /// Tool calls under reconstruction, by position.
    pub tool_calls: Vec<ChatResponseToolCall>,
    pub message_id: Option<u128>,
    /// Whether any event has been seen.
    pub started: bool,
    /// Whether the turn is over, by its end, a failure or a cancellation.
    pub closed: bool,
}

/// The first value if it is set, else the second.
pub open spec fn pick(new: Option<Seq<char>>, old: Option<Seq<char>>) -> Option<Seq<char>> {
    if new is Some { new } else { old }
}

/// Appends an argument fragment to what has arrived before it.
pub open spec fn join(old: Option<Seq<char>>, frag: Option<Seq<char>>) -> Option<Seq<char>> {
    match (old, frag) {
        (None, f) => f,
        (Some(a), None) => Some(a),
        (Some(a), Some(b)) => Some(a + b),
    }
}

pub open spec fn empty_call() -> ToolCallView {
    ToolCallView { id: None, call_type: None, function: None }
}

/// A tool call after one more fragment for it.
pub open spec fn merge_call(c: ToolCallView, d: DeltaView) -> ToolCallView {
    ToolCallView {
        id: pick(d.id, c.id),
        call_type: pick(d.call_type, c.call_type),
        function: if d.name is None && d.arguments is None {
            c.function
        } else {
            let (n, a) = match c.function {
                Some(f) => (f.name, f.arguments),
                None => (None, None),
            };
            Some(FunctionCallView { name: pick(d.name, n), arguments: join(a, d.arguments) })
        },
    }
}

/// The calls after one fragment: the list grows with empty calls until the
/// fragment's position exists, then that call takes the fragment.
pub open spec fn apply_delta(calls: Seq<ToolCallView>, d: DeltaView) -> Seq<ToolCallView> {
    let i = d.index as int;
    let padded = if i < calls.len() {
        calls
    } else {
        calls + Seq::new((i + 1 - calls.len()) as nat, |k: int| empty_call())
    };
    padded.update(i, merge_call(padded[i], d))
}

/// The calls after a sequence of fragments, taken in arrival order.
pub open spec fn apply_deltas(calls: Seq<ToolCallView>, ds: Seq<ToolCallDelta>) -> Seq<ToolCallView>
    decreases ds.len(),
{
    if ds.len() == 0 {
        calls
    } else {
        apply_deltas(apply_delta(calls, ds[0]@), ds.drop_first())
    }
}

fn join_fragments(old: &Option<String>, frag: &Option<String>) -> (r: Option<String>)
    ensures
        ov(r) == join(ov(*old), ov(*frag)),
{
    match old {
        None => clone_opt(frag),
        Some(a) => match frag {
            None => Some(a.clone()),
            Some(b) => {
                let mut s = a.clone();
                s.append(b.as_str());
                Some(s)
            },
        },
    }
}

fn merge_tool_call(c: &ChatResponseToolCall, d: &ToolCallDelta) -> (r: ChatResponseToolCall)
    ensures
        r@ == merge_call(c@, d@),
{
    let id = if d.id.is_some() { clone_opt(&d.id) } else { clone_opt(&c.id) };
    let call_type = if d.call_type.is_some() {
        clone_opt(&d.call_type)
    } else {
        clone_opt(&c.call_type)
    };
    let function = if d.name.is_none() && d.arguments.is_none() {
        match &c.function {
            Some(f) => Some(ChatResponseFunctionCall { name: clone_opt(&f.name), arguments: clone_opt(&f.arguments) }),
            None => None,
        }
    } else {
        let none: Option<String> = None;
        let (n, a) = match &c.function {
            Some(f) => (&f.name, &f.arguments),
            None => (&none, &none),
        };
        let name = if d.name.is_some() { clone_opt(&d.name) } else { clone_opt(n) };
        Some(ChatResponseFunctionCall { name, arguments: join_fragments(a, &d.arguments) })
    };
    ChatResponseToolCall { id, call_type, function }
}

/// Folds one tool-call fragment into the calls under reconstruction.
pub fn apply_tool_delta(calls: &mut Vec<ChatResponseToolCall>, d: &ToolCallDelta)
    ensures
        calls_view(final(calls)@) == apply_delta(calls_view(old(calls)@), d@),
{
    let i = d.index as usize;
    let ghost c0 = calls_view(old(calls)@);
    let ghost padded = if (i as int) < c0.len() {
        c0
    } else {
        c0 + Seq::new((i + 1 - c0.len()) as nat, |k: int| empty_call())
    };
    while calls.len() <= i
        invariant
            c0 == calls_view(old(calls)@),
            c0.len() == old(calls)@.len(),
            old(calls)@.len() <= calls@.len(),
            calls@.len() <= i + 1 || calls@.len() == old(calls)@.len(),
            forall|k: int| 0 <= k < calls@.len() ==> #[trigger] calls@[k]@ == (
                if k < c0.len() { c0[k] } else { empty_call() }),
        decreases i + 1 - calls@.len(),
    {
        let e = ChatResponseToolCall { id: None, call_type: None, function: None };
        assert(e@ == empty_call());
        let ghost before = calls@;
        calls.push(e);
        assert(forall|k: int| 0 <= k < before.len() ==> calls@[k] == before[k]);
    }
    assert(calls_view(calls@) =~= padded);
    let merged = merge_tool_call(&calls[i], d);
    calls.set(i, merged);
    assert(calls_view(calls@) =~= padded.update(i as int, merge_call(padded[i as int], d@)));
}

/// Folds a batch of fragments, in order, into the calls under reconstruction.
pub fn apply_tool_deltas(calls: &mut Vec<ChatResponseToolCall>, ds: &Vec<ToolCallDelta>)
    ensures
        calls_view(final(calls)@) == apply_deltas(calls_view(old(calls)@), ds@),
{
    let mut j: usize = 0;
    assert(ds@.skip(0) =~= ds@);
    while j < ds.len()
        invariant
            j <= ds@.len(),
            apply_deltas(calls_view(old(calls)@), ds@) == apply_deltas(calls_view(calls@), ds@.skip(j as int)),
        decreases ds@.len() - j,
    {
        apply_tool_delta(calls, &ds[j]);
        assert(ds@.skip(j as int).drop_first() =~= ds@.skip(j + 1));
        j = j + 1;
    }
    assert(ds@.skip(j as int) =~= Seq::<ToolCallDelta>::empty());
}

/// The step taken on an event by a turn that is still open.
pub open spec fn open_step(s0: ChatAssembler, ev: DeltaEvent, s1: ChatAssembler, r: StepOutcome) -> bool {
    &&& s1.message_id == s0.message_id
    &&& s1.started
    &&& match ev {
        DeltaEvent::Content(t) => {
            &&& s1.message@ == s0.message@ + t@
            &&& calls_view(s1.tool_calls@) == calls_view(s0.tool_calls@)
            &&& !s1.closed
            &&& match r {
                StepOutcome::Chunk(c) => {
                    &&& c.delta@ == t@
                    &&& c.message@ == s1.message@
                    &&& c.message_id == s0.message_id
                    &&& c.tool_calls is None
                },
                _ => false,
            }
        },
        DeltaEvent::ToolCalls(ds) => {
            &&& s1.message@ == s0.message@
            &&& calls_view(s1.tool_calls@) == apply_deltas(calls_view(s0.tool_calls@), ds@)
            &&& !s1.closed
            &&& r is Continue
        },
        DeltaEvent::End => {
            &&& s1.message@ == s0.message@
            &&& calls_view(s1.tool_calls@) == calls_view(s0.tool_calls@)
            &&& s1.closed
            &&& r is Finished
        },
        DeltaEvent::ProviderError => {
            &&& s1.message@ == s0.message@
            &&& calls_view(s1.tool_calls@) == calls_view(s0.tool_calls@)
            &&& s1.closed
            &&& r == StepOutcome::Failed(CognitionError::ProviderFailure)
        },
        DeltaEvent::Unrecognized => {
            &&& s1.message@ == s0.message@
            &&& calls_view(s1.tool_calls@) == calls_view(s0.tool_calls@)
            &&& if s0.started {
                !s1.closed && r is Continue
            } else {
                s1.closed && r == StepOutcome::Failed(CognitionError::ProviderFailure)
            }
        },
    }
}

fn clone_call(c: &ChatResponseToolCall) -> (r: ChatResponseToolCall)
    ensures
        r@ == c@,
{
    ChatResponseToolCall {
        id: clone_opt(&c.id),
        call_type: clone_opt(&c.call_type),
        function: match &c.function {
            Some(f) => Some(ChatResponseFunctionCall { name: clone_opt(&f.name), arguments: clone_opt(&f.arguments) }),
            None => None,
        },
    }
}

fn clone_calls(v: &Vec<ChatResponseToolCall>) -> (r: Vec<ChatResponseToolCall>)
    ensures
        calls_view(r@) == calls_view(v@),
{
    let mut out: Vec<ChatResponseToolCall> = Vec::new();
    let mut i: usize = 0;
    while i < v.len()
        invariant
            i <= v@.len(),
            out@.len() == i,
            forall|j: int| 0 <= j < i ==> (#[trigger] out@[j])@ == v@[j]@,
        decreases v@.len() - i,
    {
        out.push(clone_call(&v[i]));
        i = i + 1;
    }
    assert(calls_view(out@) =~= calls_view(v@));
    out
}

impl ChatAssembler {
    /// The closing chunk of an incrementally forwarded turn that rebuilt tool
    /// calls: no new text, the whole answer, and the calls as they stand.
    /// A turn without tool calls has none.
    pub fn tool_call_chunk(&self) -> (r: Option<ChatResponseChunk>)
        ensures
            self.tool_calls@.len() == 0 ==> r is None,
            self.tool_calls@.len() > 0 ==> match r {
                Some(c) => {
                    &&& c.delta@ == Seq::<char>::empty()
                    &&& c.message@ == self.message@
                    &&& c.message_id == self.message_id
                    &&& match c.tool_calls {
                        Some(v) => calls_view(v@) == calls_view(self.tool_calls@),
                        None => false,
                    }
                },
                None => false,
            },
    {
        if self.tool_calls.len() == 0 {
            None
        } else {
            Some(
                ChatResponseChunk {
                    delta: String::new(),
                    message: self.message.clone(),
                    message_id: self.message_id,
                    tool_calls: Some(clone_calls(&self.tool_calls)),
                },
            )
        }
    }

    /// A fresh turn whose chunks carry `message_id`.
    pub fn new(message_id: Option<u128>) -> (r: ChatAssembler)
        ensures
            r.message@ == Seq::<char>::empty(),
            r.tool_calls@.len() == 0,
            r.message_id == message_id,
            !r.started,
            !r.closed,
    {
        ChatAssembler { message: String::new(), tool_calls: Vec::new(), message_id, started: false, closed: false }
    }

    /// Stops the turn: no event handed in afterwards yields a chunk.
    pub fn cancel(&mut self)
        ensures
            final(self).closed,
            final(self).message@ == old(self).message@,
            final(self).message_id == old(self).message_id,
            final(self).started == old(self).started,
            calls_view(final(self).tool_calls@) == calls_view(old(self).tool_calls@),
    {
        self.closed = true;
    }

    /// Takes one provider event and says what to do next. Text extends the
    /// answer and yields a chunk; tool-call fragments are accumulated by
    /// position; the end signal closes the turn without a chunk; an event of
    /// no known shape is skipped, unless it is the first one. A closed turn
    /// ignores every event.
    pub fn on_event(&mut self, ev: &DeltaEvent) -> (r: StepOutcome)
        ensures
            old(self).closed ==> r is Finished && *final(self) == *old(self),
            !old(self).closed ==> open_step(*old(self), *ev, *final(self), r),
    {
        if self.closed {
            return StepOutcome::Finished;
        }
        let first = !self.started;
        self.started = true;
        match ev {
            DeltaEvent::Content(t) => {
                self.message.append(t.as_str());
                StepOutcome::Chunk(
                    ChatResponseChunk {
                        delta: t.clone(),
                        message: self.message.clone(),
                        message_id: self.message_id,
                        tool_calls: None,
                    },
                )
            },
            DeltaEvent::ToolCalls(ds) => {
                apply_tool_deltas(&mut self.tool_calls, ds);
                StepOutcome::Continue
            },
            DeltaEvent::End => {
                self.closed = true;
                StepOutcome::Finished
            },
            DeltaEvent::ProviderError => {
                self.closed = true;
                StepOutcome::Failed(CognitionError::ProviderFailure)
            },
            DeltaEvent::Unrecognized => {
                if first {
                    self.closed = true;
                    StepOutcome::Failed(CognitionError::ProviderFailure)
                } else {
                    StepOutcome::Continue
                }
            },
        }
    }
}

/// The texts of the content events that come before the first end signal.
pub open spec fn texts_of(evs: Seq<DeltaEvent>) -> Seq<Seq<char>>
    decreases evs.len(),
{
    if evs.len() == 0 {
        Seq::empty()
    } else {
        match evs[0] {
            DeltaEvent::Content(t) => seq![t@] + texts_of(evs.drop_first()),
            DeltaEvent::End => Seq::empty(),
            DeltaEvent::ProviderError => Seq::empty(),
            _ => texts_of(evs.drop_first()),
        }
    }
}

/// The tool-call fragments that come before the first end signal, in order.
pub open spec fn tool_deltas_of(evs: Seq<DeltaEvent>) -> Seq<ToolCallDelta>
    decreases evs.len(),
{
    if evs.len() == 0 {
        Seq::empty()
    } else {
        match evs[0] {
            DeltaEvent::ToolCalls(ds) => ds@ + tool_deltas_of(evs.drop_first()),
            DeltaEvent::End => Seq::empty(),
            DeltaEvent::ProviderError => Seq::empty(),
            _ => tool_deltas_of(evs.drop_first()),
        }
    }
}

/// The texts joined in order.
pub open spec fn concat_all(texts: Seq<Seq<char>>) -> Seq<char>
    decreases texts.len(),
{
    if texts.len() == 0 {
        Seq::empty()
    } else {
        concat_all(texts.drop_last()) + texts.last()
    }
}

/// Whether the provider reports an error before its end signal.
pub open spec fn errs_before_end(evs: Seq<DeltaEvent>) -> bool
    decreases evs.len(),
{
    if evs.len() == 0 {
        false
    } else {
        match evs[0] {
            DeltaEvent::End => false,
            DeltaEvent::ProviderError => true,
            _ => errs_before_end(evs.drop_first()),
        }
    }
}

/// A turn that fails: its first event has no known shape, or the provider
/// reports an error before the end.
pub open spec fn stream_fails(evs: Seq<DeltaEvent>) -> bool {
    starts_malformed(evs) || errs_before_end(evs)
}

/// A stream whose very first event has no known shape.
pub open spec fn starts_malformed(evs: Seq<DeltaEvent>) -> bool {
    evs.len() > 0 && evs[0] is Unrecognized
}

/// The chunks for these texts: one per text, each with the text as its
/// delta and all texts up to it as its message.
pub open spec fn chunks_for(chunks: Seq<ChatResponseChunk>, texts: Seq<Seq<char>>, message_id: Option<u128>) -> bool {
    &&& chunks.len() == texts.len()
    &&& forall|k: int|
        0 <= k < chunks.len() ==> {
            &&& (#[trigger] chunks[k]).delta@ == texts[k]
            &&& chunks[k].message@ == concat_all(texts.take(k + 1))
            &&& chunks[k].message_id == message_id
            &&& chunks[k].tool_calls is None
        }
}

/// Everything one streamed turn produced.
pub struct AssembledTurn {
    pub chunks: Vec<ChatResponseChunk>,
    pub tool_calls: Vec<ChatResponseToolCall>,
}

/// Runs a whole turn over a finished list of provider events: the chunks in
/// the order they would be forwarded, and the tool calls as they stand at the
/// end of the stream.
pub fn assemble(events: &Vec<DeltaEvent>, message_id: Option<u128>) -> (r: Result<AssembledTurn, CognitionError>)
    ensures
        r is Err <==> stream_fails(events@),
        match r {
            Ok(t) => {
                &&& chunks_for(t.chunks@, texts_of(events@), message_id)
                &&& calls_view(t.tool_calls@) == apply_deltas(Seq::empty(), tool_deltas_of(events@))
            },
            Err(e) => e == CognitionError::ProviderFailure,
        },
{
    let mut a = ChatAssembler::new(message_id);
    let mut chunks: Vec<ChatResponseChunk> = Vec::new();
    let ghost evs = events@;
    let ghost mut done: Seq<Seq<char>> = Seq::empty();
    let mut k: usize = 0;
    assert(evs.skip(0) =~= evs);
    assert(calls_view(a.tool_calls@) =~= Seq::<ToolCallView>::empty());
    while k < events.len() && !a.closed
        invariant
            evs == events@,
            k <= evs.len(),
            a.started == (k > 0),
            k == 0 ==> !a.closed,
            a.message_id == message_id,
            k > 0 ==> !starts_malformed(evs),
            errs_before_end(evs) == (!a.closed && errs_before_end(evs.skip(k as int))),
            a.message@ == concat_all(done),
            chunks_for(chunks@, done, message_id),
            texts_of(evs) == done + (if a.closed { Seq::empty() } else { texts_of(evs.skip(k as int)) }),
            apply_deltas(Seq::empty(), tool_deltas_of(evs)) == apply_deltas(
                calls_view(a.tool_calls@),
                if a.closed { Seq::empty() } else { tool_deltas_of(evs.skip(k as int)) },
            ),
        decreases evs.len() - k,
    {
        let ev = &events[k];
        let ghost rest = evs.skip(k as int);
        assert(rest[0] == evs[k as int]);
        assert(rest.drop_first() =~= evs.skip(k + 1));
        let ghost cv0 = calls_view(a.tool_calls@);
        let step = a.on_event(ev);
        match step {
            StepOutcome::Chunk(c) => {
                let ghost t = c.delta@;
                let ghost done1 = done.push(t);
                assert(done1.drop_last() =~= done);
                assert(done + (seq![t] + texts_of(evs.skip(k + 1))) =~= done1 + texts_of(evs.skip(k + 1)));
                assert forall|j: int| 0 <= j < done.len() implies #[trigger] done1.take(j + 1) =~= done.take(j + 1) by {}
                assert(done1.take(done.len() as int + 1) =~= done1);
                chunks.push(c);
                proof {
                    done = done1;
                }
            },
            StepOutcome::Continue => {
                match ev {
                    DeltaEvent::ToolCalls(ds) => {
                        proof {
                            lemma_apply_deltas_append(cv0, ds@, tool_deltas_of(evs.skip(k + 1)));
                        }
                    },
                    _ => {},
                }
            },
            StepOutcome::Finished => {
                assert(done + Seq::<Seq<char>>::empty() =~= done);
            },
            StepOutcome::Failed(e) => {
                return Err(e);
            },
        }
        k = k + 1;
    }
    if !a.closed {
        assert(evs.skip(k as int) =~= Seq::<DeltaEvent>::empty());
    }
    assert(done + Seq::<Seq<char>>::empty() =~= done);
    Ok(AssembledTurn { chunks, tool_calls: a.tool_calls })
}

/// Fragments applied one batch after another land where they would all in
/// one sequence.
pub proof fn lemma_apply_deltas_append(c: Seq<ToolCallView>, a: Seq<ToolCallDelta>, b: Seq<ToolCallDelta>)
    ensures
        apply_deltas(c, a + b) == apply_deltas(apply_deltas(c, a), b),
    decreases a.len(),
{
    if a.len() == 0 {
        assert(a + b =~= b);
    } else {
        assert((a + b).drop_first() =~= a.drop_first() + b);
        lemma_apply_deltas_append(apply_delta(c, a[0]@), a.drop_first(), b);
    }
}

/// The last chunk of a drained stream; a stream with no chunk is an error.
pub fn last_chunk(chunks: Vec<ChatResponseChunk>) -> (r: Result<ChatResponseChunk, CognitionError>)
    ensures
        chunks@.len() == 0 ==> r == Err::<ChatResponseChunk, CognitionError>(CognitionError::EmptyStream),
        chunks@.len() > 0 ==> r == Ok::<ChatResponseChunk, CognitionError>(chunks@.last()),
{
    let mut chunks = chunks;
    match chunks.pop() {
        Some(c) => Ok(c),
        None => Err(CognitionError::EmptyStream),
    }
}

/// The tool calls a turn ends with.
pub open spec fn final_calls(evs: Seq<DeltaEvent>) -> Seq<ToolCallView> {
    apply_deltas(Seq::empty(), tool_deltas_of(evs))
}

/// Runs a whole turn and keeps only its last chunk: the full answer, with
/// the last text received as its delta and the rebuilt tool calls, if any.
/// A turn with neither text nor tool calls is an empty stream.
pub fn drain_to_last(events: &Vec<DeltaEvent>, message_id: Option<u128>) -> (r: Result<ChatResponseChunk, CognitionError>)
    ensures
        stream_fails(events@) ==> r == Err::<ChatResponseChunk, CognitionError>(CognitionError::ProviderFailure),
        !stream_fails(events@) && texts_of(events@).len() == 0 && final_calls(events@).len() == 0 ==> r == Err::<
            ChatResponseChunk,
            CognitionError,
        >(CognitionError::EmptyStream),
        !stream_fails(events@) && (texts_of(events@).len() > 0 || final_calls(events@).len() > 0) ==> match r {
            Ok(c) => {
                &&& c.delta@ == (if texts_of(events@).len() > 0 {
                    texts_of(events@).last()
                } else {
                    Seq::empty()
                })
                &&& c.message@ == concat_all(texts_of(events@))
                &&& c.message_id == message_id
                &&& match c.tool_calls {
                    None => final_calls(events@).len() == 0,
                    Some(v) => final_calls(events@).len() > 0 && calls_view(v@) == final_calls(events@),
                }
            },
            Err(_) => false,
        },
{
    match assemble(events, message_id) {
        Err(e) => Err(e),
        Ok(t) => {
            let ghost texts = texts_of(events@);
            let AssembledTurn { chunks, tool_calls } = t;
            let has_calls = tool_calls.len() > 0;
            assert(calls_view(tool_calls@).len() == tool_calls@.len());
            let ghost n = chunks@.len() - 1;
            if chunks.len() > 0 {
                assert(texts.take(n + 1) =~= texts);
                assert(chunks@.last() == chunks@[n]);
            }
            match last_chunk(chunks) {
                Ok(c) => Ok(
                    ChatResponseChunk {
                        delta: c.delta,
                        message: c.message,
                        message_id: c.message_id,
                        tool_calls: if has_calls { Some(tool_calls) } else { None },
                    },
                ),
                Err(e) => {
                    if has_calls {
                        Ok(
                            ChatResponseChunk {
                                delta: String::new(),
                                message: String::new(),
                                message_id,
                                tool_calls: Some(tool_calls),
                            },
                        )
                    } else {
                        Err(e)
                    }
                },
            }
        },
    }
}

/// Within a turn each chunk's message extends the one before it: the
/// message of an earlier chunk is a prefix of that of any later one.
pub proof fn lemma_messages_grow(texts: Seq<Seq<char>>, i: int, j: int)
    requires
        0 <= i <= j <= texts.len(),
    ensures
        concat_all(texts.take(i)).len() <= concat_all(texts.take(j)).len(),
        concat_all(texts.take(i)) =~= concat_all(texts.take(j)).take(concat_all(texts.take(i)).len() as int),
    decreases j - i,
{
    if i < j {
        lemma_messages_grow(texts, i, j - 1);
        assert(texts.take(j).drop_last() =~= texts.take(j - 1));
        let a = concat_all(texts.take(j - 1));
        let b = concat_all(texts.take(j));
        assert(b == a + texts.take(j).last());
        assert(b.take(a.len() as int) =~= a);
    }
}

/// The arguments of a reconstructed tool call, for a caller about to use
/// it: they must be present and be one JSON value.
pub fn tool_call_arguments(call: &ChatResponseToolCall) -> (r: Result<String, CognitionError>)
    ensures
        match call@.function {
            Some(f) => match f.arguments {
                Some(a) => if json_valid(a) {
                    r is Ok && r->Ok_0@ == a
                } else {
                    r == Err::<String, CognitionError>(CognitionError::MalformedToolArguments)
                },
                None => r == Err::<String, CognitionError>(CognitionError::MalformedToolArguments),
            },
            None => r == Err::<String, CognitionError>(CognitionError::MalformedToolArguments),
        },
{
    match &call.function {
        Some(f) => match &f.arguments {
            Some(a) => {
                if is_json(a.as_str()) {
                    Ok(a.clone())
                } else {
                    Err(CognitionError::MalformedToolArguments)
                }
            },
            None => Err(CognitionError::MalformedToolArguments),
        },
        None => Err(CognitionError::MalformedToolArguments),
    }
}

/// The two ways of consuming a turn agree: the chunk that a drain keeps is
/// the last one forwarded incrementally, carrying the whole answer.
pub proof fn lemma_drain_is_last_chunk(chunks: Seq<ChatResponseChunk>, texts: Seq<Seq<char>>, message_id: Option<u128>)
    requires
        chunks_for(chunks, texts, message_id),
        texts.len() > 0,
    ensures
        chunks.last().delta@ == texts.last(),
        chunks.last().message@ == concat_all(texts),
{
    let n = chunks.len() - 1;
    assert(texts.take(n + 1) =~= texts);
    assert(chunks.last() == chunks[n]);
}

} // verus!
