//! The interaction trace: the last request that was sent and the responses
//! that came in since. The storage is a plain value; whoever shares it
//! between threads guards it with a lock of their own.

use vstd::prelude::*;
use vstd::string::*;
use crate::messages::join;
use crate::messages::texts;
use crate::messages::RequestMessage;
use crate::messages::ResponseMessage;
use crate::messages::DISPLAY_END;

verus! {

/// A request and the responses that have come in since it was sent.
#[derive(Clone, Debug, PartialEq)]
pub struct Interaction {
    /// The display form of the request.
    pub request: String,
    /// The display forms of the responses, oldest first.
    pub responses: Vec<String>,
}

/// The mathematical content of an [`Interaction`].
pub struct InteractionView {
    pub request: Seq<char>,
    pub responses: Seq<Seq<char>>,
}

impl View for Interaction {
    type V = InteractionView;

    open spec fn view(&self) -> InteractionView {
        InteractionView { request: self.request@, responses: texts(self.responses@) }
    }
}

impl InteractionView {
    /// The interaction that a request opens: no response yet.
    pub open spec fn opened(request: Seq<char>) -> InteractionView {
        InteractionView { request, responses: Seq::<Seq<char>>::empty() }
    }

    /// The interaction after one more response came in.
    pub open spec fn with_response(self, response: Seq<char>) -> InteractionView {
        InteractionView { responses: self.responses.push(response), ..self }
    }
}

fn copy_texts(v: &Vec<String>) -> (out: Vec<String>)
    ensures
        texts(out@) == texts(v@),
{
    let mut out: Vec<String> = Vec::new();
    let mut k: usize = 0;
    while k < v.len()
        invariant
            k <= v.len(),
            out.len() == k,
            forall|j: int| 0 <= j < k ==> out@[j]@ == v@[j]@,
        decreases v.len() - k,
    {
        out.push(v[k].clone());
        k += 1;
    }
    assert(texts(out@) =~= texts(v@));
    out
}

impl Interaction {
    /// The interaction that `request` opens.
    pub fn new(request: String) -> (r: Interaction)
        ensures
            r@ == InteractionView::opened(request@),
    {
        let r = Interaction { request, responses: Vec::new() };
        assert(texts(r.responses@) =~= Seq::<Seq<char>>::empty());
        r
    }

    /// Appends a response.
    pub fn add_response(&mut self, response: String)
        ensures
            final(self)@ == old(self)@.with_response(response@),
    {
        self.responses.push(response);
        assert(texts(self.responses@) =~= texts(old(self).responses@).push(response@));
    }

    /// A copy that later responses do not reach.
    pub fn snapshot(&self) -> (r: Interaction)
        ensures
            r@ == self@,
    {
        Interaction { request: self.request.clone(), responses: copy_texts(&self.responses) }
    }
}

/// The place that holds the current interaction, if there is one.
#[derive(Clone, Debug, PartialEq)]
pub struct TraceStorage {
    current: Option<Interaction>,
}

impl View for TraceStorage {
    type V = Option<InteractionView>;

    closed spec fn view(&self) -> Option<InteractionView> {
        match self.current {
            Some(interaction) => Some(interaction@),
            None => None,
        }
    }
}

impl TraceStorage {
    /// A storage that holds no interaction.
    pub fn new() -> (r: TraceStorage)
        ensures
            r@ is None,
    {
        TraceStorage { current: None }
    }
}

impl Default for TraceStorage {
    fn default() -> (r: TraceStorage)
        ensures
            r@ is None,
    {
        TraceStorage::new()
    }
}

/// Gets a snapshot of the last interaction, if any.
pub fn get_last_interaction(storage: &TraceStorage) -> (r: Option<Interaction>)
    ensures
        match r {
            Some(interaction) => storage@ == Some(interaction@),
            None => storage@ is None,
        },
{
    match &storage.current {
        Some(interaction) => Some(interaction.snapshot()),
        None => None,
    }
}

/// Starts a new interaction with the given request. Whatever was recorded
/// before is replaced, not merged.
pub fn start_new_interaction(storage: &mut TraceStorage, request: String)
    ensures
        final(storage)@ == Some(InteractionView::opened(request@)),
{
    storage.current = Some(Interaction::new(request));
}

/// Adds a response to the current interaction: its responses grow by exactly
/// this one. Without a current interaction the response is dropped.
pub fn add_response_to_current(storage: &mut TraceStorage, response: String)
    ensures
        final(storage)@ == match old(storage)@ {
            Some(interaction) => Some(interaction.with_response(response@)),
            None => None,
        },
{
    match &mut storage.current {
        Some(interaction) => {
            interaction.add_response(response);
        },
        None => {},
    }
}

/// Clears the current interaction.
pub fn clear(storage: &mut TraceStorage)
    ensures
        final(storage)@ is None,
{
    storage.current = None;
}

/// The hook of every send: the current interaction becomes a fresh one whose
/// request is the display form of the frame.
pub fn record_request(storage: &mut TraceStorage, message: &RequestMessage)
    ensures
        final(storage)@ == Some(InteractionView::opened(join(message@, DISPLAY_END))),
{
    start_new_interaction(storage, message.encode_simple());
}

/// The hook of every receive: the display form of the frame is appended to
/// the responses of the current interaction.
pub fn record_response(storage: &mut TraceStorage, message: &ResponseMessage)
    ensures
        final(storage)@ == match old(storage)@ {
            Some(interaction) => Some(
                interaction.with_response(join(message@.fields, DISPLAY_END)),
            ),
            None => None,
        },
{
    add_response_to_current(storage, message.encode_simple());
}

/// The last interaction, if any.
pub fn last_interaction(storage: &TraceStorage) -> (r: Option<Interaction>)
    ensures
        match r {
            Some(interaction) => storage@ == Some(interaction@),
            None => storage@ is None,
        },
{
    get_last_interaction(storage)
}

/// After a request and any number of responses, the trace holds that request
/// and exactly those responses, in the order they came.
pub open spec fn replay(request: Seq<char>, responses: Seq<Seq<char>>) -> Option<InteractionView>
    decreases responses.len(),
{
    if responses.len() == 0 {
        Some(InteractionView::opened(request))
    } else {
        match replay(request, responses.drop_last()) {
            Some(interaction) => Some(interaction.with_response(responses.last())),
            None => None,
        }
    }
}

/// Whatever the trace held before, after a send and then `responses`
/// receives the current interaction's request is the frame that was sent and
/// its responses are the frames received, one entry for each.
pub proof fn lemma_trace_follows_traffic(request: Seq<char>, responses: Seq<Seq<char>>)
    ensures
        replay(request, responses) == Some(InteractionView { request, responses }),
    decreases responses.len(),
{
    if responses.len() > 0 {
        lemma_trace_follows_traffic(request, responses.drop_last());
        assert(responses.drop_last().push(responses.last()) == responses);
    } else {
        assert(responses == Seq::<Seq<char>>::empty());
    }
}

} // verus!
