//! The stream translator: turns the backend's chunk stream into the
//! outbound server-sent-event sequence, one event per backend item, in
//! arrival order, halting on the first error and otherwise closing with a
//! single terminal sentinel.

use vstd::prelude::*;

verus! {

/// One item pulled from the backend stream, after the chunk (if any) has
/// been put through serialization: either the serialization outcome of a
/// chunk, or a transport error with its summarized cause.
#[derive(Debug)]
pub enum BackendSignal {
    Chunk(Result<String, String>),
    Transport(String),
}

/// One outbound wire event. `Data` carries a serialized chunk document,
/// `ErrorEvent` a wire error payload, and `Done` is the terminal sentinel,
/// distinct from both.
#[derive(Debug)]
pub enum StreamEvent {
    Data(String),
    ErrorEvent(String),
    Done,
}

/// Mathematical model of a backend item.
pub enum SignalModel {
    Chunk(Result<Seq<char>, Seq<char>>),
    Transport(Seq<char>),
}

/// Mathematical model of an outbound event.
pub enum EventModel {
    Data(Seq<char>),
    ErrorEvent(Seq<char>),
    Done,
}

impl View for BackendSignal {
    type V = SignalModel;

    open spec fn view(&self) -> SignalModel {
        match self {
            BackendSignal::Chunk(Ok(json)) => SignalModel::Chunk(Ok(json@)),
            BackendSignal::Chunk(Err(cause)) => SignalModel::Chunk(Err(cause@)),
            BackendSignal::Transport(cause) => SignalModel::Transport(cause@),
        }
    }
}

impl View for StreamEvent {
    type V = EventModel;

    open spec fn view(&self) -> EventModel {
        match self {
            StreamEvent::Data(json) => EventModel::Data(json@),
            StreamEvent::ErrorEvent(payload) => EventModel::ErrorEvent(payload@),
            StreamEvent::Done => EventModel::Done,
        }
    }
}

/// The wire payload reporting that a chunk could not be serialized.
pub open spec fn ser_error_payload(cause: Seq<char>) -> Seq<char> {
    "{\"error\": \"Failed to serialize chunk: "@ + cause + "\"}"@
}

/// The wire payload reporting a backend transport error.
pub open spec fn transport_error_payload(cause: Seq<char>) -> Seq<char> {
    "{\"error\": \"Stream error: "@ + cause + "\"}"@
}

/// The one outbound event owed to one backend item.
pub open spec fn event_for(sig: SignalModel) -> EventModel {
    match sig {
        SignalModel::Chunk(Ok(json)) => EventModel::Data(json),
        SignalModel::Chunk(Err(cause)) => EventModel::ErrorEvent(ser_error_payload(cause)),
        SignalModel::Transport(cause) => EventModel::ErrorEvent(transport_error_payload(cause)),
    }
}

/// Whether the translator halts after this item: it does on anything but a
/// successfully serialized chunk.
pub open spec fn halts(sig: SignalModel) -> bool {
    !(sig matches SignalModel::Chunk(Ok(_)))
}

/// The full outbound event sequence owed to a backend stream that would
/// yield `sigs`: one event per item in arrival order up to and including
/// the first error, after which nothing more is read; a stream consumed to
/// exhaustion without error is closed by exactly one terminal sentinel.
pub open spec fn translated(sigs: Seq<SignalModel>) -> Seq<EventModel>
    decreases sigs.len(),
{
    if sigs.len() == 0 {
        seq![EventModel::Done]
    } else if halts(sigs[0]) {
        seq![event_for(sigs[0])]
    } else {
        seq![event_for(sigs[0])] + translated(sigs.drop_first())
    }
}

/// The views of a sequence of backend items.
pub open spec fn views_of_signals(v: Seq<BackendSignal>) -> Seq<SignalModel> {
    v.map_values(|s: BackendSignal| s@)
}

/// The views of a sequence of outbound events.
pub open spec fn views_of_events(v: Seq<StreamEvent>) -> Seq<EventModel> {
    v.map_values(|e: StreamEvent| e@)
}

/// One translator step: the event to emit for one backend item, and
/// whether the stream must halt after it (no further item is read).
pub fn translate_signal(sig: &BackendSignal) -> (r: (StreamEvent, bool))
    ensures
        r.0@ == event_for(sig@),
        r.1 == halts(sig@),
{
    match sig {
        BackendSignal::Chunk(Ok(json)) => (StreamEvent::Data(json.clone()), false),
        BackendSignal::Chunk(Err(cause)) => (
            StreamEvent::ErrorEvent(
                "{\"error\": \"Failed to serialize chunk: ".to_owned().concat(
                    cause.as_str(),
                ).concat("\"}"),
            ),
            true,
        ),
        BackendSignal::Transport(cause) => (
            StreamEvent::ErrorEvent(
                "{\"error\": \"Stream error: ".to_owned().concat(cause.as_str()).concat("\"}"),
            ),
            true,
        ),
    }
}

/// The terminal sentinel closing an error-free stream.
pub fn done_event() -> (e: StreamEvent)
    ensures
        e@ == EventModel::Done,
{
    StreamEvent::Done
}

/// The text placed on the wire for an event: the serialized chunk, the
/// error payload, or the literal end marker.
pub open spec fn payload_of(e: EventModel) -> Seq<char> {
    match e {
        EventModel::Data(json) => json,
        EventModel::ErrorEvent(payload) => payload,
        EventModel::Done => "[DONE]"@,
    }
}

/// The wire text of one outbound event.
pub fn event_payload(e: &StreamEvent) -> (r: String)
    ensures
        r@ == payload_of(e@),
{
    match e {
        StreamEvent::Data(json) => json.clone(),
        StreamEvent::ErrorEvent(payload) => payload.clone(),
        StreamEvent::Done => "[DONE]".to_owned(),
    }
}

/// Translates a whole backend stream at once. The lazy per-item drive of a
/// live request takes the same steps through [`translate_signal`]; this
/// form fixes the algorithm and carries the whole-stream contract.
pub fn translate_all(signals: Vec<BackendSignal>) -> (out: Vec<StreamEvent>)
    ensures
        views_of_events(out@) == translated(views_of_signals(signals@)),
{
    let ghost s_all: Seq<SignalModel> = views_of_signals(signals@);
    let n: usize = signals.len();
    let mut out: Vec<StreamEvent> = Vec::new();
    let mut i: usize = 0;
    let mut halted: bool = false;
    proof {
        assert(views_of_events(out@) =~= Seq::<EventModel>::empty());
        assert(s_all.subrange(0, n as int) =~= s_all);
        assert(views_of_events(out@) + translated(s_all) =~= translated(s_all));
    }
    while i < n && !halted
        invariant
            i <= n,
            n == signals.len(),
            s_all == views_of_signals(signals@),
            halted ==> views_of_events(out@) == translated(s_all),
            !halted ==> translated(s_all) == views_of_events(out@) + translated(
                s_all.subrange(i as int, n as int),
            ),
        decreases n - i,
    {
        let sig = &signals[i];
        proof {
            assert(sig@ == s_all[i as int]);
            assert(s_all.subrange(i as int, n as int)[0] == s_all[i as int]);
            assert(s_all.subrange(i as int, n as int).drop_first() =~= s_all.subrange(
                i + 1,
                n as int,
            ));
        }
        let (event, halt) = translate_signal(sig);
        proof {
            assert(views_of_events(out@.push(event)) =~= views_of_events(out@) + seq![event@]);
        }
        out.push(event);
        halted = halt;
        i = i + 1;
    }
    if !halted {
        proof {
            assert(s_all.subrange(i as int, n as int) =~= Seq::<SignalModel>::empty());
            assert(views_of_events(out@.push(StreamEvent::Done)) =~= views_of_events(out@)
                + seq![EventModel::Done]);
        }
        out.push(done_event());
    }
    out
}

/// The translator's state machine, over every possible backend stream:
/// the outbound sequence is never empty, every event before the last is a
/// data event (streaming is the only non-terminal state), and the last
/// event is either the terminal sentinel or one error event — the two
/// terminal states, after which nothing is emitted.
pub proof fn lemma_translator_shape(sigs: Seq<SignalModel>)
    ensures
        translated(sigs).len() >= 1,
        forall|i: int|
            0 <= i < translated(sigs).len() - 1 ==> (#[trigger] translated(sigs)[i]) is Data,
        translated(sigs).last() is Done || translated(sigs).last() is ErrorEvent,
    decreases sigs.len(),
{
    if sigs.len() == 0 {
    } else if halts(sigs[0]) {
    } else {
        lemma_translator_shape(sigs.drop_first());
        assert forall|i: int| 0 <= i < translated(sigs).len() - 1 implies (#[trigger] translated(
            sigs,
        )[i]) is Data by {
            if i > 0 {
                assert(translated(sigs)[i] == translated(sigs.drop_first())[i - 1]);
            }
        }
        assert(translated(sigs).last() == translated(sigs.drop_first()).last());
    }
}

/// An error-free backend stream of `n` chunks is answered by exactly `n`
/// data events, 1:1 in arrival order, followed by exactly one terminal
/// sentinel and nothing else; in particular the outbound sequence is never
/// empty and only its last event is the sentinel.
pub proof fn lemma_stream_complete(sigs: Seq<SignalModel>)
    requires
        forall|i: int| 0 <= i < sigs.len() ==> !halts(#[trigger] sigs[i]),
    ensures
        translated(sigs).len() == sigs.len() + 1,
        forall|i: int|
            0 <= i < sigs.len() ==> #[trigger] translated(sigs)[i] == event_for(sigs[i]),
        forall|i: int| 0 <= i < sigs.len() ==> #[trigger] translated(sigs)[i] is Data,
        translated(sigs)[sigs.len() as int] == EventModel::Done,
    decreases sigs.len(),
{
    if sigs.len() == 0 {
    } else {
        assert(!halts(sigs[0]));
        lemma_stream_complete(sigs.drop_first());
        assert forall|i: int| 0 <= i < sigs.len() implies #[trigger] translated(sigs)[i]
            == event_for(sigs[i]) by {
            if i > 0 {
                assert(translated(sigs)[i] == translated(sigs.drop_first())[i - 1]);
                assert(sigs.drop_first()[i - 1] == sigs[i]);
            }
        }
    }
}

/// A backend stream that fails on its `n`-th item, after `n` good chunks,
/// is answered by exactly `n` data events followed by exactly one error
/// event; nothing further is read and no terminal sentinel is ever sent.
pub proof fn lemma_stream_error_truncates(sigs: Seq<SignalModel>, n: int)
    requires
        0 <= n < sigs.len(),
        forall|i: int| 0 <= i < n ==> !halts(#[trigger] sigs[i]),
        halts(sigs[n]),
    ensures
        translated(sigs).len() == n + 1,
        forall|i: int| 0 <= i < n ==> #[trigger] translated(sigs)[i] == event_for(sigs[i]),
        forall|i: int| 0 <= i < n ==> #[trigger] translated(sigs)[i] is Data,
        translated(sigs)[n] is ErrorEvent,
        forall|i: int| 0 <= i <= n ==> !(#[trigger] translated(sigs)[i] is Done),
    decreases n,
{
    if n == 0 {
    } else {
        assert(!halts(sigs[0]));
        lemma_stream_error_truncates(sigs.drop_first(), n - 1);
        assert(sigs.drop_first()[n - 1] == sigs[n]);
        assert forall|i: int| 0 <= i < n implies #[trigger] translated(sigs)[i] == event_for(
            sigs[i],
        ) by {
            if i > 0 {
                assert(translated(sigs)[i] == translated(sigs.drop_first())[i - 1]);
                assert(sigs.drop_first()[i - 1] == sigs[i]);
            }
        }
    }
}

/// Declares the backend's opaque streaming chunk document so that it can
/// pass through the library.
#[verifier::external_type_specification]
#[verifier::external_body]
pub struct ExChatCompletionChunk(opensecret::ChatCompletionChunk);

/// The serialization outcome of a chunk document: its JSON text, or the
/// message saying why it has none. serde_json renders a document from its
/// contents alone, so the outcome is a function of the chunk itself.
pub uninterp spec fn chunk_json(c: opensecret::ChatCompletionChunk) -> Result<Seq<char>, Seq<char>>;

/// Relies on serde_json::to_string: renders the chunk document as JSON
/// text, or reports why it could not. The outcome is named by
/// [`chunk_json`], arm for arm.
#[verifier::external_body]
fn serialize_chunk(chunk: &opensecret::ChatCompletionChunk) -> (r: Result<String, String>)
    ensures
        match chunk_json(*chunk) {
            Ok(json) => r matches Ok(s) && s@ == json,
            Err(cause) => r matches Err(s) && s@ == cause,
        },
{
    match serde_json::to_string(chunk) {
        Ok(json) => Ok(json),
        Err(e) => Err(e.to_string()),
    }
}

/// One backend item that arrived as a chunk: put it through serialization
/// and hand the outcome to the translator as a chunk signal. The signal is
/// exactly the chunk's own serialization outcome, so the proved 1:1
/// correspondence of outbound events to backend items reaches the chunks
/// themselves.
pub fn chunk_signal(chunk: &opensecret::ChatCompletionChunk) -> (s: BackendSignal)
    ensures
        s@ == SignalModel::Chunk(chunk_json(*chunk)),
{
    BackendSignal::Chunk(serialize_chunk(chunk))
}

} // verus!
