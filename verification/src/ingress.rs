//! The decisions of the ingress loop: what becomes of each frame that the
//! connection delivers. Reading frames and publishing events is the caller's
//! part; deciding is done here, one frame at a time and in arrival order.

use crate::decode::{decode_parsed, result_model, DecodeError};
use crate::event::{EventModel, OneEvent};
use crate::json::parsed_tree;
use crate::sevent::{PublishedModel, SEvent, SEventModel};
use crate::translate::{translate_event, TranslationError};
use vstd::prelude::*;

verus! {

/// Why the adapter's identifier could not be read or written.
#[derive(Debug, Clone, Copy, PartialEq, Eq, Structural)]
pub enum RegistryError {
    /// The identifier was asked for before the adapter was registered.
    NotRegistered,
    /// The adapter already has an identifier; it is never overwritten.
    AlreadyRegistered,
}

/// The identifier that the host's registry gives the adapter: written once,
/// read many times.
#[derive(Debug, Clone, Copy, PartialEq, Eq)]
pub struct AdapterId {
    id: Option<u64>,
}

impl View for AdapterId {
    type V = Option<u64>;

    closed spec fn view(&self) -> Option<u64> {
        self.id
    }
}

impl AdapterId {
    /// The identifier of an adapter that is not registered yet.
    pub fn new() -> (r: AdapterId)
        ensures
            r@ is None,
    {
        AdapterId { id: None }
    }

    /// Writes the identifier. The first write succeeds; every later one is
    /// rejected and changes nothing.
    pub fn set(&mut self, id: u64) -> (r: Result<(), RegistryError>)
        ensures
            old(self)@ is None ==> r is Ok && final(self)@ == Some(id),
            old(self)@ is Some ==> r == Err::<(), RegistryError>(RegistryError::AlreadyRegistered)
                && final(self)@ == old(self)@,
    {
        match self.id {
            None => {
                self.id = Some(id);
                Ok(())
            },
            Some(_) => Err(RegistryError::AlreadyRegistered),
        }
    }

    /// Reads the identifier.
    pub fn get(&self) -> (r: Result<u64, RegistryError>)
        ensures
            r == registered(self@),
    {
        match self.id {
            Some(id) => Ok(id),
            None => Err(RegistryError::NotRegistered),
        }
    }
}

/// The identifier of a registered adapter, or the error of asking too early.
pub open spec fn registered(adapter: Option<u64>) -> Result<u64, RegistryError> {
    match adapter {
        Some(id) => Ok(id),
        None => Err(RegistryError::NotRegistered),
    }
}

/// What one read from the connection delivered.
#[derive(Debug, Clone, PartialEq, Eq)]
pub enum Frame {
    /// A text frame, with its text.
    Text(String),
    /// A frame of any other kind.
    Other,
    /// The read failed.
    Failed,
}

/// The model of a [`Frame`].
pub enum FrameModel {
    Text(Seq<char>),
    Other,
    Failed,
}

impl View for Frame {
    type V = FrameModel;

    open spec fn view(&self) -> FrameModel {
        match self {
            Frame::Text(text) => FrameModel::Text(text@),
            Frame::Other => FrameModel::Other,
            Frame::Failed => FrameModel::Failed,
        }
    }
}

/// Why a frame led to no published event.
#[derive(Debug, Clone, Copy, PartialEq, Eq, Structural)]
pub enum IngressError {
    /// The read from the connection failed.
    Transport,
    /// The frame's text is no wire event.
    Decode(DecodeError),
    /// The wire event has no unified form.
    Translation(TranslationError),
    /// The adapter has no identifier to publish under.
    Registry(RegistryError),
}

/// What the caller is to do after a frame.
#[derive(Debug, Clone, PartialEq, Eq)]
pub enum Outcome {
    /// Publish this event.
    Publish(SEvent),
    /// Nothing: the frame was no text frame.
    Skip,
    /// Report this error and drop the frame.
    Report(IngressError),
}

/// The model of an [`Outcome`].
pub enum OutcomeModel {
    Publish(PublishedModel),
    Skip,
    Report(IngressError),
}

impl View for Outcome {
    type V = OutcomeModel;

    open spec fn view(&self) -> OutcomeModel {
        match self {
            Outcome::Publish(event) => OutcomeModel::Publish(event@),
            Outcome::Skip => OutcomeModel::Skip,
            Outcome::Report(e) => OutcomeModel::Report(*e),
        }
    }
}

/// What becomes of a decoded frame: a decode error is reported; an event is
/// translated, and a translation error is reported; only then is the
/// adapter's identifier asked for, and its absence reported; otherwise the
/// unified event is published under that identifier.
pub open spec fn decoded_outcome(
    decoded: Result<EventModel, DecodeError>,
    adapter: Option<u64>,
) -> OutcomeModel {
    match decoded {
        Err(e) => OutcomeModel::Report(IngressError::Decode(e)),
        Ok(event) => match translate_event(event) {
            Err(e) => OutcomeModel::Report(IngressError::Translation(e)),
            Ok(content) => match adapter {
                None => OutcomeModel::Report(IngressError::Registry(RegistryError::NotRegistered)),
                Some(id) => OutcomeModel::Publish(PublishedModel { content, from_adapter: id }),
            },
        },
    }
}

/// What becomes of a frame: a failed read is reported, a frame that is no
/// text frame is skipped, and a text frame is decoded and goes the way of
/// `decoded_outcome`.
pub open spec fn frame_outcome(frame: FrameModel, adapter: Option<u64>) -> OutcomeModel {
    match frame {
        FrameModel::Failed => OutcomeModel::Report(IngressError::Transport),
        FrameModel::Other => OutcomeModel::Skip,
        FrameModel::Text(text) => decoded_outcome(decode_parsed(parsed_tree(text)), adapter),
    }
}

/// The identity gate: nothing is published for an adapter that is not
/// registered, and what is published carries the adapter's identifier and the
/// unified form of the event that the frame's text describes.
pub proof fn lemma_publishing_needs_registration(frame: FrameModel, adapter: Option<u64>)
    ensures
        adapter is None ==> !(frame_outcome(frame, adapter) is Publish),
        frame_outcome(frame, adapter) matches OutcomeModel::Publish(event) ==> {
            &&& frame matches FrameModel::Text(text)
            &&& decode_parsed(parsed_tree(text)) matches Ok(decoded)
            &&& translate_event(decoded) == Ok::<SEventModel, TranslationError>(event.content)
            &&& adapter == Some(event.from_adapter)
        },
{
}

/// Decides what becomes of a decoded frame.
pub fn on_decoded(decoded: Result<OneEvent, DecodeError>, adapter: &AdapterId) -> (r: Outcome)
    ensures
        r@ == decoded_outcome(result_model(decoded), adapter@),
{
    let event: OneEvent = match decoded {
        Ok(event) => event,
        Err(e) => return Outcome::Report(IngressError::Decode(e)),
    };
    let content = match event.translate() {
        Ok(content) => content,
        Err(e) => return Outcome::Report(IngressError::Translation(e)),
    };
    match adapter.get() {
        Ok(id) => Outcome::Publish(SEvent { content, from_adapter: id }),
        Err(e) => Outcome::Report(IngressError::Registry(e)),
    }
}

/// Decides what becomes of a frame. Every frame has an outcome: no frame
/// stops the loop, whatever is wrong with it.
pub fn on_frame(frame: &Frame, adapter: &AdapterId) -> (r: Outcome)
    ensures
        r@ == frame_outcome(frame@, adapter@),
{
    match frame {
        Frame::Failed => Outcome::Report(IngressError::Transport),
        Frame::Other => Outcome::Skip,
        Frame::Text(text) => on_decoded(OneEvent::decode(text.as_str()), adapter),
    }
}

/// The state of the loop: waiting for the next frame, or holding the one
/// frame that is being processed.
#[derive(Debug, Clone, PartialEq, Eq)]
pub enum LoopState {
    Listening,
    Draining(Frame),
}

impl LoopState {
    /// The state in which the loop starts.
    pub fn start() -> (r: LoopState)
        ensures
            r is Listening,
    {
        LoopState::Listening
    }

    /// A frame arrives while the loop listens: the loop goes on to drain it.
    pub fn arrive(self, frame: Frame) -> (r: LoopState)
        requires
            self is Listening,
        ensures
            r == LoopState::Draining(frame),
    {
        LoopState::Draining(frame)
    }

    /// The frame at hand is processed: the loop listens again, whatever the
    /// outcome was.
    pub fn process(self, adapter: &AdapterId) -> (r: (LoopState, Outcome))
        requires
            self is Draining,
        ensures
            r.0 is Listening,
            r.1@ == frame_outcome(self->0@, adapter@),
    {
        match self {
            LoopState::Draining(frame) => (LoopState::Listening, on_frame(&frame, adapter)),
            LoopState::Listening => (LoopState::Listening, Outcome::Skip),
        }
    }
}

/// Processes the frames in arrival order and gives the outcome of each: as
/// many outcomes as frames, the outcome at each position that of the frame at
/// that position, whatever became of the frames before it.
pub fn drain(frames: &Vec<Frame>, adapter: &AdapterId) -> (r: Vec<Outcome>)
    ensures
        r.len() == frames.len(),
        forall|i: int|
            0 <= i < frames.len() ==> (#[trigger] r[i])@ == frame_outcome(frames[i]@, adapter@),
{
    let mut outcomes: Vec<Outcome> = Vec::new();
    let mut state: LoopState = LoopState::start();
    let mut i: usize = 0;
    while i < frames.len()
        invariant
            0 <= i <= frames.len(),
            outcomes.len() == i,
            state is Listening,
            forall|j: int|
                0 <= j < i ==> (#[trigger] outcomes[j])@ == frame_outcome(frames[j]@, adapter@),
        decreases frames.len() - i,
    {
        let frame: Frame = copy_frame(&frames[i]);
        let (next, outcome) = state.arrive(frame).process(adapter);
        state = next;
        outcomes.push(outcome);
        i = i + 1;
    }
    outcomes
}

/// A copy of a frame.
fn copy_frame(frame: &Frame) -> (r: Frame)
    ensures
        r@ == frame@,
{
    match frame {
        Frame::Text(text) => Frame::Text(text.clone()),
        Frame::Other => Frame::Other,
        Frame::Failed => Frame::Failed,
    }
}

/// The events to publish among the outcomes, in the order of the outcomes.
pub open spec fn published(outcomes: Seq<OutcomeModel>) -> Seq<PublishedModel>
    decreases outcomes.len(),
{
    if outcomes.len() == 0 {
        Seq::empty()
    } else {
        match outcomes.last() {
            OutcomeModel::Publish(event) => published(outcomes.drop_last()).push(event),
            _ => published(outcomes.drop_last()),
        }
    }
}

/// The outcomes of a sequence of frames, one for one.
pub open spec fn outcomes_of(frames: Seq<FrameModel>, adapter: Option<u64>) -> Seq<OutcomeModel> {
    Seq::new(frames.len(), |i: int| frame_outcome(frames[i], adapter))
}

/// An outcome that publishes nothing adds nothing to what is published and
/// leaves the order of the rest as it was.
pub proof fn lemma_published_without(
    before: Seq<OutcomeModel>,
    outcome: OutcomeModel,
    after: Seq<OutcomeModel>,
)
    requires
        !(outcome is Publish),
    ensures
        published(before + seq![outcome] + after) == published(before + after),
    decreases after.len(),
{
    let with = before + seq![outcome] + after;
    let without = before + after;
    if after.len() == 0 {
        assert(with.drop_last() =~= before);
    } else {
        let shorter = after.drop_last();
        lemma_published_without(before, outcome, shorter);
        assert(with.drop_last() =~= before + seq![outcome] + shorter);
        assert(without.drop_last() =~= before + shorter);
    }
}

/// Failure isolation: a frame that is reported or skipped leaves what is
/// published for the frames around it unchanged, in content and in order.
pub proof fn lemma_failed_frame_is_isolated(
    before: Seq<FrameModel>,
    frame: FrameModel,
    after: Seq<FrameModel>,
    adapter: Option<u64>,
)
    requires
        !(frame_outcome(frame, adapter) is Publish),
    ensures
        published(outcomes_of(before + seq![frame] + after, adapter)) == published(
            outcomes_of(before + after, adapter),
        ),
{
    let outcome = frame_outcome(frame, adapter);
    let left = outcomes_of(before, adapter);
    let right = outcomes_of(after, adapter);
    assert(outcomes_of(before + seq![frame] + after, adapter) =~= left + seq![outcome] + right);
    assert(outcomes_of(before + after, adapter) =~= left + right);
    lemma_published_without(left, outcome, right);
}

} // verus!
