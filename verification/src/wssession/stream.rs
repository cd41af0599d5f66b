//! The stream loop: what to do next on a stream connection, given what just
//! happened on it.
//!
//! The loop itself runs where the connection lives. It performs the action
//! that [`StreamLoop::step`] hands out, reports what came of it as the next
//! event, and so on until the action is to stop. Each action is one thing to
//! do and is answered by one event: what follows is decided here. The loop never connects
//! twice and never tries again: one [`StreamLoop`] is one connection.

use crate::address::{address_of, normalize};
use crate::error::{viewed, Error, ErrorView};
use crate::text::optional_text;
use vstd::prelude::*;

verus! {

/// A frame that arrived on the connection.
#[derive(Debug, Clone, PartialEq, Eq)]
pub enum Frame {
    /// A text frame: one event, as JSON text.
    Text(String),
    /// A binary frame. The protocol gives it no meaning.
    Binary(Vec<u8>),
    /// A ping, a pong or a raw frame: of no concern to the caller.
    Control,
    /// The peer closes the connection.
    Close,
}

/// What happened on the connection.
#[derive(Debug, Clone, PartialEq, Eq)]
pub enum StreamEvent {
    /// The connection is open.
    Connected,
    /// The message handed out for sending is sent and flushed.
    Sent,
    /// A frame arrived.
    Received(Frame),
    /// The frame handler has taken what was handed out for it.
    Delivered,
    /// The connection has delivered its last frame.
    Ended,
    /// Connecting, sending or reading failed, as described.
    Failed(String),
}

/// What is handed to the caller's frame handler.
#[derive(Debug, Clone, PartialEq, Eq)]
pub enum Delivery {
    /// The text of a text frame, as it came.
    Text(String),
    /// The size of a binary frame in bytes.
    Binary(usize),
}

/// What to do next.
#[derive(Debug, PartialEq, Eq)]
pub enum StreamAction {
    /// Open the connection to this address.
    Connect(String),
    /// Send this text as one text frame and flush it.
    Send(String),
    /// Read the next frame.
    Read,
    /// Hand this to the frame handler.
    Deliver(Delivery),
    /// Stop. The loop ends with this result.
    Stop(Result<(), Error>),
}

/// Where the loop stands.
#[derive(Debug, Clone, Copy, PartialEq, Eq, Structural)]
pub enum StreamPhase {
    /// The connection is being opened.
    Connecting,
    /// The first message is being sent.
    Subscribing,
    /// Frames are being read.
    Reading,
    /// The data of a frame is with the frame handler.
    Delivering,
    /// The loop has ended.
    Finished,
}

/// What a [`Delivery`] holds, as sequences.
pub enum DeliveryView {
    Text(Seq<char>),
    Binary(nat),
}

/// What a [`StreamAction`] holds, as sequences.
pub enum StreamActionView {
    Connect(Seq<char>),
    Send(Seq<char>),
    Read,
    Deliver(DeliveryView),
    Stop(Result<(), ErrorView>),
}

impl View for StreamAction {
    type V = StreamActionView;

    open spec fn view(&self) -> StreamActionView {
        match self {
            StreamAction::Connect(url) => StreamActionView::Connect(url@),
            StreamAction::Send(message) => StreamActionView::Send(message@),
            StreamAction::Read => StreamActionView::Read,
            StreamAction::Deliver(Delivery::Text(text)) => StreamActionView::Deliver(
                DeliveryView::Text(text@),
            ),
            StreamAction::Deliver(Delivery::Binary(size)) => StreamActionView::Deliver(
                DeliveryView::Binary(*size as nat),
            ),
            StreamAction::Stop(Ok(_)) => StreamActionView::Stop(Ok(())),
            StreamAction::Stop(Err(error)) => StreamActionView::Stop(Err(error@)),
        }
    }
}

/// What a [`StreamEvent`] holds, as sequences.
pub enum StreamEventView {
    Connected,
    Sent,
    Text(Seq<char>),
    Binary(nat),
    Control,
    Close,
    Delivered,
    Ended,
    Failed(Seq<char>),
}

impl View for StreamEvent {
    type V = StreamEventView;

    open spec fn view(&self) -> StreamEventView {
        match self {
            StreamEvent::Connected => StreamEventView::Connected,
            StreamEvent::Sent => StreamEventView::Sent,
            StreamEvent::Received(Frame::Text(text)) => StreamEventView::Text(text@),
            StreamEvent::Received(Frame::Binary(bytes)) => StreamEventView::Binary(bytes@.len()),
            StreamEvent::Received(Frame::Control) => StreamEventView::Control,
            StreamEvent::Received(Frame::Close) => StreamEventView::Close,
            StreamEvent::Delivered => StreamEventView::Delivered,
            StreamEvent::Ended => StreamEventView::Ended,
            StreamEvent::Failed(message) => StreamEventView::Failed(message@),
        }
    }
}

/// The state of a loop, as the contracts see it.
pub struct StreamLoopView {
    pub phase: StreamPhase,
    pub url: Seq<char>,
    pub initial_message: Option<Seq<char>>,
}

/// The error for an event that cannot happen in the phase in which it is
/// reported.
pub open spec fn out_of_turn() -> ErrorView {
    ErrorView::UnexpectedError("event out of turn"@)
}

/// The phase after an event and the action that answers it.
///
/// While connecting, the opening of the connection leads to sending the
/// first message, where there is one, and to reading otherwise. A message
/// that is sent leads to reading. While reading, the data of a text or
/// binary frame is handed out for the frame handler, and once the handler
/// has taken it, reading goes on; a frame of no concern is passed over; a
/// close frame or the end of the connection ends the loop in success. A
/// failure ends the loop, in whatever phase, with a `WebSocketError`. An
/// event that does not belong to the phase ends the loop as well.
pub open spec fn transition(state: StreamLoopView, event: StreamEventView) -> (
    StreamPhase,
    StreamActionView,
) {
    match (state.phase, event) {
        (StreamPhase::Finished, _) => (StreamPhase::Finished, StreamActionView::Stop(
            Err(out_of_turn()),
        )),
        (_, StreamEventView::Failed(message)) => (StreamPhase::Finished, StreamActionView::Stop(
            Err(ErrorView::WebSocketError(message)),
        )),
        (StreamPhase::Connecting, StreamEventView::Connected) => match state.initial_message {
            Some(message) => (StreamPhase::Subscribing, StreamActionView::Send(message)),
            None => (StreamPhase::Reading, StreamActionView::Read),
        },
        (StreamPhase::Subscribing, StreamEventView::Sent) => (
            StreamPhase::Reading,
            StreamActionView::Read,
        ),
        (StreamPhase::Reading, StreamEventView::Text(text)) => (
            StreamPhase::Delivering,
            StreamActionView::Deliver(DeliveryView::Text(text)),
        ),
        (StreamPhase::Reading, StreamEventView::Binary(size)) => (
            StreamPhase::Delivering,
            StreamActionView::Deliver(DeliveryView::Binary(size)),
        ),
        (StreamPhase::Delivering, StreamEventView::Delivered) => (
            StreamPhase::Reading,
            StreamActionView::Read,
        ),
        (StreamPhase::Reading, StreamEventView::Control) => (
            StreamPhase::Reading,
            StreamActionView::Read,
        ),
        (StreamPhase::Reading, StreamEventView::Close) => (
            StreamPhase::Finished,
            StreamActionView::Stop(Ok(())),
        ),
        (StreamPhase::Reading, StreamEventView::Ended) => (
            StreamPhase::Finished,
            StreamActionView::Stop(Ok(())),
        ),
        _ => (StreamPhase::Finished, StreamActionView::Stop(Err(out_of_turn()))),
    }
}

/// A run as it starts: connecting to the normal form of the address, with
/// the first message, if there is one, yet to be sent. An address that is no
/// absolute URL gives no run.
pub open spec fn started(endpoint_url: Seq<char>, initial_message: Option<Seq<char>>) -> Result<
    StreamLoopView,
    ErrorView,
> {
    match address_of(endpoint_url) {
        Ok(url) => Ok(StreamLoopView { phase: StreamPhase::Connecting, url, initial_message }),
        Err(error) => Err(error),
    }
}

/// One run of the stream loop on one connection.
#[derive(Debug)]
pub struct StreamLoop {
    phase: StreamPhase,
    url: String,
    initial_message: Option<String>,
}

impl View for StreamLoop {
    type V = StreamLoopView;

    closed spec fn view(&self) -> StreamLoopView {
        StreamLoopView {
            phase: self.phase,
            url: self.url@,
            initial_message: optional_text(self.initial_message),
        }
    }
}

impl StreamLoop {
    /// Prepares a run against the given address. A market stream passes the
    /// subscription message as `initial_message`; an account stream passes
    /// none and only listens. The address must be an absolute URL; the run
    /// connects to its normal form.
    pub fn start(endpoint_url: &str, initial_message: Option<String>) -> (result: Result<
        StreamLoop,
        Error,
    >)
        ensures
            viewed(result) == started(endpoint_url@, optional_text(initial_message)),
    {
        match normalize(endpoint_url) {
            Ok(url) => Ok(StreamLoop { phase: StreamPhase::Connecting, url, initial_message }),
            Err(error) => Err(error),
        }
    }

    /// The first action of a run: connect.
    pub fn first_action(&self) -> (action: StreamAction)
        ensures
            action@ == StreamActionView::Connect(self@.url),
    {
        StreamAction::Connect(self.url.clone())
    }

    /// Where the loop stands.
    pub fn phase(&self) -> (phase: StreamPhase)
        ensures
            phase == self@.phase,
    {
        self.phase
    }

    /// Whether the loop has ended.
    pub fn is_finished(&self) -> (finished: bool)
        ensures
            finished == (self@.phase == StreamPhase::Finished),
    {
        match self.phase {
            StreamPhase::Finished => true,
            _ => false,
        }
    }

    /// Takes note of what happened and says what to do next.
    pub fn step(&mut self, event: StreamEvent) -> (action: StreamAction)
        ensures
            (final(self)@.phase, action@) == transition(old(self)@, event@),
            final(self)@.url == old(self)@.url,
            final(self)@.initial_message == old(self)@.initial_message,
    {
        match self.phase {
            StreamPhase::Finished => StreamAction::Stop(Err(unexpected_event())),
            phase => match event {
                StreamEvent::Failed(message) => {
                    self.phase = StreamPhase::Finished;
                    StreamAction::Stop(Err(Error::WebSocketError(message)))
                },
                StreamEvent::Connected => match phase {
                    StreamPhase::Connecting => match &self.initial_message {
                        Some(message) => {
                            self.phase = StreamPhase::Subscribing;
                            StreamAction::Send(message.clone())
                        },
                        None => {
                            self.phase = StreamPhase::Reading;
                            StreamAction::Read
                        },
                    },
                    _ => {
                        self.phase = StreamPhase::Finished;
                        StreamAction::Stop(Err(unexpected_event()))
                    },
                },
                StreamEvent::Sent => match phase {
                    StreamPhase::Subscribing => {
                        self.phase = StreamPhase::Reading;
                        StreamAction::Read
                    },
                    _ => {
                        self.phase = StreamPhase::Finished;
                        StreamAction::Stop(Err(unexpected_event()))
                    },
                },
                StreamEvent::Received(frame) => match phase {
                    StreamPhase::Reading => match frame {
                        Frame::Text(text) => {
                            self.phase = StreamPhase::Delivering;
                            StreamAction::Deliver(Delivery::Text(text))
                        },
                        Frame::Binary(bytes) => {
                            self.phase = StreamPhase::Delivering;
                            StreamAction::Deliver(Delivery::Binary(bytes.len()))
                        },
                        Frame::Control => StreamAction::Read,
                        Frame::Close => {
                            self.phase = StreamPhase::Finished;
                            StreamAction::Stop(Ok(()))
                        },
                    },
                    _ => {
                        self.phase = StreamPhase::Finished;
                        StreamAction::Stop(Err(unexpected_event()))
                    },
                },
                StreamEvent::Delivered => match phase {
                    StreamPhase::Delivering => {
                        self.phase = StreamPhase::Reading;
                        StreamAction::Read
                    },
                    _ => {
                        self.phase = StreamPhase::Finished;
                        StreamAction::Stop(Err(unexpected_event()))
                    },
                },
                StreamEvent::Ended => match phase {
                    StreamPhase::Reading => {
                        self.phase = StreamPhase::Finished;
                        StreamAction::Stop(Ok(()))
                    },
                    _ => {
                        self.phase = StreamPhase::Finished;
                        StreamAction::Stop(Err(unexpected_event()))
                    },
                },
            },
        }
    }
}

/// The error for an event that cannot happen in the phase in which it is
/// reported.
pub fn unexpected_event() -> (error: Error)
    ensures
        error@ == out_of_turn(),
{
    Error::UnexpectedError("event out of turn".to_owned())
}

/// The actions that answer a run of events, one for each, from the given
/// state on.
pub open spec fn actions(state: StreamLoopView, events: Seq<StreamEventView>) -> Seq<
    StreamActionView,
>
    decreases events.len(),
{
    if events.len() == 0 {
        Seq::empty()
    } else {
        let (phase, action) = transition(state, events[0]);
        seq![action] + actions(StreamLoopView { phase, ..state }, events.drop_first())
    }
}

/// The first message goes out before anything is read. A frame is read
/// only in four cases: the loop is reading already and passes a frame over;
/// the frame handler has just taken the data of the frame before; the first
/// message has just been sent; or the connection has just opened and there is
/// no first message. Data is handed out only for a text or binary frame that
/// was read. The message handed out for sending is the first message, and it
/// is handed out only when the connection opens.
pub proof fn lemma_subscription_precedes_reading(state: StreamLoopView, event: StreamEventView)
    ensures
        ({
            let action = transition(state, event).1;
            &&& action is Read ==> ((state.phase == StreamPhase::Reading && event is Control) || (
            state.phase == StreamPhase::Delivering && event is Delivered) || (state.phase
                == StreamPhase::Subscribing && event is Sent) || (state.phase
                == StreamPhase::Connecting && event is Connected && state.initial_message is None))
            &&& action is Send ==> (state.phase == StreamPhase::Connecting && event is Connected
                && state.initial_message == Some(action->Send_0))
            &&& action is Deliver ==> (state.phase == StreamPhase::Reading && (event is Text
                || event is Binary))
            &&& !(action is Connect)
        }),
{
}

/// Every error ends the loop: no failure is passed over. And the loop ends
/// only when it is told to stop.
pub proof fn lemma_failure_ends_the_loop(state: StreamLoopView, event: StreamEventView)
    ensures
        ({
            let (phase, action) = transition(state, event);
            &&& (event is Failed && state.phase != StreamPhase::Finished) ==> action
                == StreamActionView::Stop(Err(ErrorView::WebSocketError(event->Failed_0)))
            &&& action is Stop <==> phase == StreamPhase::Finished
        }),
{
}

/// Once the loop has ended, nothing is delivered, read or sent any more,
/// whatever is reported to it.
pub proof fn lemma_nothing_after_the_end(state: StreamLoopView, events: Seq<StreamEventView>)
    requires
        state.phase == StreamPhase::Finished,
    ensures
        actions(state, events).len() == events.len(),
        forall|i: int|
            0 <= i < events.len() ==> actions(state, events)[i] == StreamActionView::Stop(
                Err(out_of_turn()),
            ),
    decreases events.len(),
{
    if events.len() > 0 {
        lemma_nothing_after_the_end(state, events.drop_first());
    }
}

/// A loop that is reading and sees the connection close before any data
/// frame ends in success and never calls the frame handler.
pub proof fn lemma_close_before_data(state: StreamLoopView, events: Seq<StreamEventView>)
    requires
        state.phase == StreamPhase::Reading,
        events.len() > 0,
        events[0] is Close,
    ensures
        actions(state, events).len() == events.len(),
        actions(state, events)[0] == StreamActionView::Stop(Ok(())),
        forall|i: int| 0 <= i < events.len() ==> !(actions(state, events)[i] is Deliver),
{
    lemma_nothing_after_the_end(
        StreamLoopView { phase: StreamPhase::Finished, ..state },
        events.drop_first(),
    );
}

/// The phase in which a run of events leaves the loop.
pub open spec fn phase_after(state: StreamLoopView, events: Seq<StreamEventView>) -> StreamPhase
    decreases events.len(),
{
    if events.len() == 0 {
        state.phase
    } else {
        phase_after(
            StreamLoopView { phase: transition(state, events[0]).0, ..state },
            events.drop_first(),
        )
    }
}

/// What is handed to the frame handler by a run of actions, in its order.
pub open spec fn deliveries(actions: Seq<StreamActionView>) -> Seq<DeliveryView>
    decreases actions.len(),
{
    if actions.len() == 0 {
        Seq::empty()
    } else {
        (match actions[0] {
            StreamActionView::Deliver(delivery) => seq![delivery],
            _ => Seq::empty(),
        }) + deliveries(actions.drop_first())
    }
}

/// The data in a run of frames, in its order: the text of each text frame
/// and the size of each binary frame.
pub open spec fn data(frames: Seq<StreamEventView>) -> Seq<DeliveryView>
    decreases frames.len(),
{
    if frames.len() == 0 {
        Seq::empty()
    } else {
        (match frames[0] {
            StreamEventView::Text(text) => seq![DeliveryView::Text(text)],
            StreamEventView::Binary(size) => seq![DeliveryView::Binary(size)],
            _ => Seq::empty(),
        }) + data(frames.drop_first())
    }
}

/// Whether an event is a frame after which reading goes on.
pub open spec fn is_passing_frame(event: StreamEventView) -> bool {
    event is Text || event is Binary || event is Control
}

/// Whether an event ends a loop that is reading.
pub open spec fn is_ending(event: StreamEventView) -> bool {
    event is Close || event is Ended || event is Failed
}

/// The actions for one run of events after another are the actions for the
/// first run, then those for the second from where the first left the loop.
pub proof fn lemma_actions_in_sequence(
    state: StreamLoopView,
    first: Seq<StreamEventView>,
    second: Seq<StreamEventView>,
)
    ensures
        actions(state, first + second) == actions(state, first) + actions(
            StreamLoopView { phase: phase_after(state, first), ..state },
            second,
        ),
    decreases first.len(),
{
    if first.len() == 0 {
        assert(first + second =~= second);
        assert(StreamLoopView { phase: state.phase, ..state } == state);
    } else {
        let next = StreamLoopView { phase: transition(state, first[0]).0, ..state };
        assert((first + second).drop_first() =~= first.drop_first() + second);
        lemma_actions_in_sequence(next, first.drop_first(), second);
        assert(StreamLoopView { phase: phase_after(next, first.drop_first()), ..next }
            == StreamLoopView { phase: phase_after(state, first), ..state });
        assert(actions(state, first + second) =~= actions(state, first) + actions(
            StreamLoopView { phase: phase_after(state, first), ..state },
            second,
        ));
    }
}

/// What is delivered by one run of actions after another.
pub proof fn lemma_deliveries_in_sequence(
    first: Seq<StreamActionView>,
    second: Seq<StreamActionView>,
)
    ensures
        deliveries(first + second) == deliveries(first) + deliveries(second),
    decreases first.len(),
{
    if first.len() == 0 {
        assert(first + second =~= second);
    } else {
        assert((first + second).drop_first() =~= first.drop_first() + second);
        lemma_deliveries_in_sequence(first.drop_first(), second);
    }
}

/// What a loop that reads reports for a frame: the frame as it arrives, and
/// after a text or binary frame that the frame handler has taken its data.
pub open spec fn report_of(frame: StreamEventView) -> Seq<StreamEventView> {
    if frame is Text || frame is Binary {
        seq![frame, StreamEventView::Delivered]
    } else {
        seq![frame]
    }
}

/// What a loop that reads reports for a run of frames, in their order.
pub open spec fn reports(frames: Seq<StreamEventView>) -> Seq<StreamEventView>
    decreases frames.len(),
{
    if frames.len() == 0 {
        Seq::empty()
    } else {
        report_of(frames[0]) + reports(frames.drop_first())
    }
}

/// The phase after one run of events and then another is the phase after
/// the second, from where the first left the loop.
pub proof fn lemma_phase_in_sequence(
    state: StreamLoopView,
    first: Seq<StreamEventView>,
    second: Seq<StreamEventView>,
)
    ensures
        phase_after(state, first + second) == phase_after(
            StreamLoopView { phase: phase_after(state, first), ..state },
            second,
        ),
    decreases first.len(),
{
    if first.len() == 0 {
        assert(first + second =~= second);
        assert(StreamLoopView { phase: state.phase, ..state } == state);
    } else {
        let next = StreamLoopView { phase: transition(state, first[0]).0, ..state };
        assert((first + second).drop_first() =~= first.drop_first() + second);
        lemma_phase_in_sequence(next, first.drop_first(), second);
        assert(StreamLoopView { phase: phase_after(next, first.drop_first()), ..next }
            == StreamLoopView { phase: phase_after(state, first), ..state });
    }
}

/// One event is answered by the action of its transition and leaves the
/// loop in the phase of its transition.
pub proof fn lemma_one_event(state: StreamLoopView, event: StreamEventView)
    ensures
        actions(state, seq![event]) == seq![transition(state, event).1],
        phase_after(state, seq![event]) == transition(state, event).0,
{
    let next = StreamLoopView { phase: transition(state, event).0, ..state };
    assert(seq![event].drop_first() =~= Seq::<StreamEventView>::empty());
    assert(actions(next, seq![event].drop_first()) =~= Seq::<StreamActionView>::empty());
    assert(actions(state, seq![event]) =~= seq![transition(state, event).1]);
    assert(phase_after(next, seq![event].drop_first()) == next.phase);
}

/// One action hands out its data, where it is a delivery, and nothing else.
pub proof fn lemma_one_action(action: StreamActionView)
    ensures
        deliveries(seq![action]) == (match action {
            StreamActionView::Deliver(delivery) => seq![delivery],
            _ => Seq::empty(),
        }),
{
    assert(seq![action].drop_first() =~= Seq::<StreamActionView>::empty());
    assert(deliveries(seq![action].drop_first()) =~= Seq::<DeliveryView>::empty());
    assert(deliveries(seq![action]) =~= (match action {
        StreamActionView::Deliver(delivery) => seq![delivery],
        _ => Seq::empty(),
    }));
}

/// The data of a run of frames is the data of its first frame, then the
/// data of the rest.
pub proof fn lemma_data_of_first(frames: Seq<StreamEventView>)
    requires
        frames.len() > 0,
    ensures
        data(frames) == data(seq![frames[0]]) + data(frames.drop_first()),
{
    let one = seq![frames[0]];
    assert(one.drop_first() =~= Seq::<StreamEventView>::empty());
    assert(data(one.drop_first()) =~= Seq::<DeliveryView>::empty());
    assert(data(one) + data(frames.drop_first()) =~= data(frames));
}

/// A loop that reads one frame hands out its data, if it has any, and
/// nothing else, and reads on once the handler has taken it.
pub proof fn lemma_reading_one_frame(state: StreamLoopView, frame: StreamEventView)
    requires
        state.phase == StreamPhase::Reading,
        is_passing_frame(frame),
    ensures
        deliveries(actions(state, report_of(frame))) == data(seq![frame]),
        phase_after(state, report_of(frame)) == StreamPhase::Reading,
{
    lemma_one_event(state, frame);
    lemma_one_action(transition(state, frame).1);
    assert(seq![frame].drop_first() =~= Seq::<StreamEventView>::empty());
    assert(data(seq![frame].drop_first()) =~= Seq::<DeliveryView>::empty());
    if frame is Text || frame is Binary {
        let delivering = StreamLoopView { phase: StreamPhase::Delivering, ..state };
        let taken = seq![StreamEventView::Delivered];
        assert(report_of(frame) =~= seq![frame] + taken);
        lemma_one_event(delivering, StreamEventView::Delivered);
        lemma_one_action(StreamActionView::Read);
        lemma_actions_in_sequence(state, seq![frame], taken);
        lemma_phase_in_sequence(state, seq![frame], taken);
        lemma_deliveries_in_sequence(actions(state, seq![frame]), actions(delivering, taken));
        assert(deliveries(actions(state, report_of(frame))) =~= data(seq![frame]));
    } else {
        assert(report_of(frame) =~= seq![frame]);
        assert(deliveries(actions(state, report_of(frame))) =~= data(seq![frame]));
    }
}

/// While the loop reads, the data of every text and binary frame is handed
/// out for the frame handler, in the order of arrival, and nothing else is;
/// the loop goes on reading.
pub proof fn lemma_reading_delivers_the_data(state: StreamLoopView, frames: Seq<StreamEventView>)
    requires
        state.phase == StreamPhase::Reading,
        forall|i: int| 0 <= i < frames.len() ==> is_passing_frame(#[trigger] frames[i]),
    ensures
        deliveries(actions(state, reports(frames))) == data(frames),
        phase_after(state, reports(frames)) == StreamPhase::Reading,
    decreases frames.len(),
{
    if frames.len() > 0 {
        let head = report_of(frames[0]);
        let rest = reports(frames.drop_first());
        assert(is_passing_frame(frames[0]));
        assert forall|i: int| 0 <= i < frames.drop_first().len() implies is_passing_frame(
            #[trigger] frames.drop_first()[i],
        ) by {
            assert(frames.drop_first()[i] == frames[i + 1]);
        }
        lemma_reading_one_frame(state, frames[0]);
        lemma_reading_delivers_the_data(state, frames.drop_first());
        lemma_actions_in_sequence(state, head, rest);
        lemma_phase_in_sequence(state, head, rest);
        assert(StreamLoopView { phase: StreamPhase::Reading, ..state } == state);
        lemma_deliveries_in_sequence(actions(state, head), actions(state, rest));
        lemma_data_of_first(frames);
    }
}

/// The whole of a stream. A loop that reads frames and then sees the
/// connection close, end or fail hands the frame handler the data of the
/// frames that came before, in their order, and nothing of what is reported
/// after; it answers the closing event by stopping, in success unless the
/// event is a failure.
pub proof fn lemma_stream_delivers_the_data_until_it_ends(
    state: StreamLoopView,
    frames: Seq<StreamEventView>,
    ending: StreamEventView,
    later: Seq<StreamEventView>,
)
    requires
        state.phase == StreamPhase::Reading,
        forall|i: int| 0 <= i < frames.len() ==> is_passing_frame(#[trigger] frames[i]),
        is_ending(ending),
    ensures
        deliveries(actions(state, reports(frames) + seq![ending] + later)) == data(frames),
        actions(state, reports(frames) + seq![ending] + later)[reports(frames).len() as int] == (
        if ending is Failed {
            StreamActionView::Stop(Err(ErrorView::WebSocketError(ending->Failed_0)))
        } else {
            StreamActionView::Stop(Ok(()))
        }),
{
    let reported = reports(frames);
    let reading = StreamLoopView { phase: StreamPhase::Reading, ..state };
    let finished = StreamLoopView { phase: StreamPhase::Finished, ..state };
    assert(reading == state);
    lemma_reading_delivers_the_data(state, frames);
    lemma_actions_in_sequence(state, reported, seq![ending] + later);
    assert(reported + seq![ending] + later =~= reported + (seq![ending] + later));
    let tail = actions(reading, seq![ending] + later);
    assert((seq![ending] + later).drop_first() =~= later);
    assert(tail =~= seq![transition(reading, ending).1] + actions(finished, later));
    lemma_nothing_after_the_end(finished, later);
    lemma_deliveries_in_sequence(actions(state, reported), tail);
    assert(deliveries(actions(finished, later)) =~= Seq::<DeliveryView>::empty()) by {
        lemma_no_deliveries_among_stops(actions(finished, later));
    }
    assert(deliveries(tail) =~= Seq::<DeliveryView>::empty()) by {
        let stop = seq![transition(reading, ending).1];
        lemma_deliveries_in_sequence(stop, actions(finished, later));
        assert(stop[0] is Stop);
        lemma_no_deliveries_among_stops(stop);
    }
    assert(actions(state, reported).len() == reported.len()) by {
        lemma_one_action_per_event(state, reported);
    }
}

/// Each event is answered by one action.
pub proof fn lemma_one_action_per_event(state: StreamLoopView, events: Seq<StreamEventView>)
    ensures
        actions(state, events).len() == events.len(),
    decreases events.len(),
{
    if events.len() > 0 {
        lemma_one_action_per_event(
            StreamLoopView { phase: transition(state, events[0]).0, ..state },
            events.drop_first(),
        );
    }
}

/// Actions that are all to stop deliver nothing.
pub proof fn lemma_no_deliveries_among_stops(stops: Seq<StreamActionView>)
    requires
        forall|i: int| 0 <= i < stops.len() ==> (#[trigger] stops[i]) is Stop,
    ensures
        deliveries(stops) == Seq::<DeliveryView>::empty(),
    decreases stops.len(),
{
    if stops.len() > 0 {
        assert(stops[0] is Stop);
        assert forall|i: int| 0 <= i < stops.drop_first().len() implies (
        #[trigger] stops.drop_first()[i]) is Stop by {
            assert(stops.drop_first()[i] == stops[i + 1]);
        }
        lemma_no_deliveries_among_stops(stops.drop_first());
    }
}

} // verus!
