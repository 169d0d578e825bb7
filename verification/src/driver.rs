//! The protocol engine: calibration handshake, start of measurement and the
//! measurement stream, as a machine that is told what the transport did and
//! answers with what the transport is to do next.

use crate::channel::Channel;
use crate::data::DataView;
use crate::data::PoweneticsData;
use crate::error::ErrorView;
use crate::error::PoweneticsError;
use crate::frame::calibrate_command;
use crate::frame::calibrate_command_of;
use crate::frame::check_marker;
use crate::frame::check_ready;
use crate::frame::fixed_command;
use crate::frame::has_marker;
use crate::frame::is_ready;
use crate::frame::read_sequence;
use crate::frame::sequence_of;
use crate::frame::BEGIN_STREAMING;
use crate::frame::FINALIZE_CALIBRATION;
use crate::frame::FRAME_LEN;
use crate::frame::RESET_CALIBRATION;
use crate::message::marker_message;
use crate::message::marker_text;
use crate::message::ready_message;
use crate::message::ready_text;
use crate::message::reply_length_message;
use crate::message::reply_length_text;
use crate::message::sequence_message;
use crate::message::sequence_text;
use crate::message::unexpected_message;
use crate::message::unexpected_text;
use crate::time::wall_clock;
use crate::time::Timestamp;
use crate::transport::Request;
use crate::transport::RequestView;
use crate::transport::Response;
use crate::transport::ResponseView;
use vstd::prelude::*;

verus! {

/// How long the instrument is given to react to a command, in milliseconds.
pub const SETTLE_MILLIS: u64 = 1;

/// The length of the reply that refuses a calibration.
pub const ACK_LEN: usize = 2;

/// The sequence number of the first frame of a stream.
pub const FIRST_SEQUENCE: u16 = 1;

/// A consumer of readings. It is handed the snapshot after every accepted
/// frame and says whether measurement should stop.
pub trait PoweneticsSubscriber {
    /// Whether the subscriber, as it stands, may give `vote` when it is
    /// handed `p`. Unless a subscriber says otherwise, it may give any
    /// answer.
    open spec fn may_answer(&self, p: &PoweneticsData, vote: Result<bool, anyhow::Error>) -> bool {
        true
    }

    /// Takes note of the snapshot. `Ok(true)` asks for measurement to stop
    /// after this frame; an error ends it at once. The answer is one that
    /// the subscriber may give.
    fn update(&mut self, p: &PoweneticsData) -> (vote: Result<bool, anyhow::Error>)
        ensures
            old(self).may_answer(p, vote),
    ;
}

/// Where the engine stands in an exchange with the instrument: which
/// response it is waiting for.
#[derive(Clone, Copy, Debug, PartialEq, Eq, Structural)]
pub enum Stage {
    /// No exchange is under way.
    Idle,
    /// The calibration command is being written.
    CalibrateWrite,
    /// The instrument is given time to react to the calibration command.
    CalibratePause,
    /// The number of bytes sent in reply to the calibration command is awaited.
    CalibratePending,
    /// The reply to the calibration command is being read.
    CalibrateAck,
    /// The command that resets the calibration is being written.
    ResetWrite,
    /// The command that finalizes the calibration is being written.
    FinalizeWrite,
    /// The instrument is given time to react to the finalize command.
    FinalizePause,
    /// The number of bytes sent in reply to the finalize command is awaited.
    ReadyPending,
    /// The reply to the finalize command is being read.
    ReadyText,
    /// The command that begins streaming is being written.
    BeginWrite,
    /// Measurement frames are being read.
    Streaming,
}

/// What the engine answers: the next request, or the failure that ended the
/// exchange.
pub open spec fn reply_view(reply: Result<Request, PoweneticsError>) -> Result<
    RequestView,
    ErrorView,
> {
    match reply {
        Ok(request) => Ok(request@),
        Err(error) => Err(error@),
    }
}

/// The outcome of telling the engine what the transport did.
pub ghost enum Turn {
    /// The exchange went on, ended or failed without a word from the
    /// subscribers.
    Settled { state: DriverView, reply: Result<RequestView, ErrorView> },
    /// A frame was accepted and recorded; what follows is up to the
    /// subscribers.
    Accepted { state: DriverView },
}

/// The engine as a mathematical value.
pub ghost struct DriverView {
    pub data: DataView,
    pub started: bool,
    pub sequence: u16,
    pub stage: Stage,
    pub subscribers: nat,
}

impl DriverView {
    /// The engine as it is created: nothing measured, not started, no
    /// subscribers, no exchange under way.
    pub open spec fn fresh() -> DriverView {
        DriverView {
            data: DataView::fresh(),
            started: false,
            sequence: FIRST_SEQUENCE,
            stage: Stage::Idle,
            subscribers: 0,
        }
    }

    /// The engine with one more subscriber.
    pub open spec fn subscribed(self) -> DriverView {
        DriverView { subscribers: self.subscribers + 1, ..self }
    }

    /// The engine with no exchange under way.
    pub open spec fn halted(self) -> DriverView {
        DriverView { stage: Stage::Idle, ..self }
    }

    /// The exchange goes on with `request`, in stage `stage`.
    pub open spec fn proceed(self, stage: Stage, request: RequestView) -> Turn {
        Turn::Settled { state: DriverView { stage, ..self }, reply: Ok(request) }
    }

    /// The exchange ends well.
    pub open spec fn finish(self) -> Turn {
        Turn::Settled { state: self.halted(), reply: Ok(RequestView::Done) }
    }

    /// The exchange ends with `error`.
    pub open spec fn fail(self, error: ErrorView) -> Turn {
        Turn::Settled { state: self.halted(), reply: Err(error) }
    }

    /// The exchange ends because the response is not one that the pending
    /// request can have.
    pub open spec fn confused(self) -> Turn {
        self.fail(ErrorView::Protocol { message: unexpected_text() })
    }

    /// The request is refused and nothing changes.
    pub open spec fn refuse(self, error: ErrorView) -> Turn {
        Turn::Settled { state: self, reply: Err(error) }
    }

    /// What a call of [`Powenetics::calibrate`] comes to.
    pub open spec fn calibrate(self, channel: u8, reference: u32) -> Turn {
        if self.started {
            self.refuse(ErrorView::MeasurementAlreadyStarted)
        } else {
            self.proceed(
                Stage::CalibrateWrite,
                RequestView::Write(calibrate_command_of(channel, reference)),
            )
        }
    }

    /// What a call of [`Powenetics::reset_calibration`] comes to.
    pub open spec fn reset_calibration(self) -> Turn {
        if self.started {
            self.refuse(ErrorView::MeasurementAlreadyStarted)
        } else {
            self.proceed(Stage::ResetWrite, RequestView::Write(RESET_CALIBRATION@))
        }
    }

    /// What a call of [`Powenetics::start_measurement`] comes to.
    pub open spec fn start_measurement(self) -> Turn {
        if self.started {
            self.refuse(ErrorView::MeasurementAlreadyStarted)
        } else if self.subscribers == 0 {
            self.refuse(ErrorView::NoSubscribers)
        } else {
            self.proceed(Stage::FinalizeWrite, RequestView::Write(FINALIZE_CALIBRATION@))
        }
    }

    /// The engine once the command that begins streaming is on its way:
    /// started, and waiting for the first frame.
    pub open spec fn streaming(self) -> DriverView {
        DriverView { started: true, sequence: FIRST_SEQUENCE, stage: Stage::Streaming, ..self }
    }

    /// The sequence number expected after the present one: one more, wrapping
    /// round at 16 bits.
    pub open spec fn next_sequence(self) -> u16 {
        if self.sequence == u16::MAX {
            0
        } else {
            (self.sequence + 1) as u16
        }
    }

    /// What a frame received at `now` comes to. Its time is noted first. A
    /// frame without the marker or out of sequence ends the stream. Otherwise
    /// the next sequence number is expected and the readings are recorded; a
    /// clock that ran backwards ends the stream.
    pub open spec fn frame(self, frame: Seq<u8>, now: Timestamp) -> Turn {
        let stamped = DriverView { data: self.data.stamped(now), ..self };
        if !has_marker(frame) {
            stamped.fail(ErrorView::Protocol { message: marker_text(frame[0], frame[1]) })
        } else if sequence_of(frame) != self.sequence {
            stamped.fail(
                ErrorView::Protocol { message: sequence_text(self.sequence, sequence_of(frame)) },
            )
        } else {
            let recorded = DriverView {
                data: stamped.data.recorded(frame, now),
                sequence: self.next_sequence(),
                ..stamped
            };
            if stamped.data.accepts(now) {
                Turn::Accepted { state: recorded }
            } else {
                recorded.fail(ErrorView::SystemTime)
            }
        }
    }

    /// The engine after the frames have been accepted one after another,
    /// each at its time; `None` if one of them is not accepted.
    pub open spec fn streamed(self, frames: Seq<Seq<u8>>, times: Seq<Timestamp>) -> Option<
        DriverView,
    >
        decreases frames.len(),
    {
        if frames.len() == 0 {
            Some(self)
        } else {
            match self.streamed(frames.drop_last(), times.drop_last()) {
                Some(before) => match before.frame(frames.last(), times.last()) {
                    Turn::Accepted { state } => Some(state),
                    Turn::Settled { .. } => None,
                },
                None => None,
            }
        }
    }

    /// What a response received at `now` comes to.
    pub open spec fn receive(self, response: ResponseView, now: Timestamp) -> Turn {
        match response {
            ResponseView::Failed(error) => self.fail(ErrorView::Io(error)),
            ResponseView::PortFailed(error) => self.fail(ErrorView::SerialPort(error)),
            ResponseView::Written => match self.stage {
                Stage::CalibrateWrite => self.proceed(
                    Stage::CalibratePause,
                    RequestView::Pause(SETTLE_MILLIS),
                ),
                Stage::ResetWrite => self.finish(),
                Stage::FinalizeWrite => self.proceed(
                    Stage::FinalizePause,
                    RequestView::Pause(SETTLE_MILLIS),
                ),
                Stage::BeginWrite => Turn::Settled {
                    state: self.streaming(),
                    reply: Ok(RequestView::Read(FRAME_LEN)),
                },
                _ => self.confused(),
            },
            ResponseView::Paused => match self.stage {
                Stage::CalibratePause => self.proceed(
                    Stage::CalibratePending,
                    RequestView::Pending,
                ),
                Stage::FinalizePause => self.proceed(Stage::ReadyPending, RequestView::Pending),
                _ => self.confused(),
            },
            ResponseView::Pending(waiting) => match self.stage {
                Stage::CalibratePending => if waiting == 0 {
                    self.finish()
                } else if waiting == ACK_LEN {
                    self.proceed(Stage::CalibrateAck, RequestView::Read(ACK_LEN))
                } else {
                    self.fail(ErrorView::Protocol { message: reply_length_text(waiting) })
                },
                Stage::ReadyPending => if waiting == 0 {
                    self.proceed(Stage::BeginWrite, RequestView::Write(BEGIN_STREAMING@))
                } else {
                    self.proceed(Stage::ReadyText, RequestView::Read(waiting as usize))
                },
                _ => self.confused(),
            },
            ResponseView::Data(bytes) => match self.stage {
                Stage::CalibrateAck => if bytes.len() != ACK_LEN {
                    self.confused()
                } else if has_marker(bytes) {
                    self.fail(ErrorView::NoPowerOnChannel)
                } else {
                    self.fail(ErrorView::Protocol { message: marker_text(bytes[0], bytes[1]) })
                },
                Stage::ReadyText => if is_ready(bytes) {
                    self.proceed(Stage::BeginWrite, RequestView::Write(BEGIN_STREAMING@))
                } else {
                    self.fail(ErrorView::Protocol { message: ready_text(bytes) })
                },
                Stage::Streaming => if bytes.len() != FRAME_LEN {
                    self.confused()
                } else {
                    self.frame(bytes, now)
                },
                _ => self.confused(),
            },
        }
    }

    /// Whether `after` and `reply` are what the engine can come to when it
    /// is told of `response` at `now`. Where the subscribers are asked, three
    /// things can follow: none of them wants to stop, and the next frame is
    /// read; one of them wants to stop, and the exchange is over; or one of
    /// them fails, and the exchange ends with its error.
    pub open spec fn follows(
        self,
        response: ResponseView,
        now: Timestamp,
        after: DriverView,
        reply: Result<RequestView, ErrorView>,
    ) -> bool {
        match self.receive(response, now) {
            Turn::Settled { state, reply: expected } => after == state && reply == expected,
            Turn::Accepted { state } => {
                ||| after == state && reply == Ok::<RequestView, ErrorView>(
                    RequestView::Read(FRAME_LEN),
                )
                ||| after == state.halted() && reply == Ok::<RequestView, ErrorView>(
                    RequestView::Done,
                )
                ||| after == state.halted() && reply is Err && reply->Err_0 is Subscriber
            },
        }
    }
}

/// What one subscriber's answer does to the vote taken so far: a wish to
/// stop stands once it is made, and a failure ends the vote with the
/// subscriber's error.
pub open spec fn tallied(stop: bool, vote: Result<bool, anyhow::Error>) -> Result<
    bool,
    PoweneticsError,
> {
    match vote {
        Ok(wish) => Ok(wish || stop),
        Err(error) => Err(PoweneticsError::Subscriber(error)),
    }
}

/// Adds one subscriber's answer to the vote taken so far.
pub fn tally(stop: bool, vote: Result<bool, anyhow::Error>) -> (verdict: Result<
    bool,
    PoweneticsError,
>)
    ensures
        verdict == tallied(stop, vote),
{
    match vote {
        Ok(wish) => Ok(wish || stop),
        Err(error) => Err(PoweneticsError::Subscriber(error)),
    }
}

/// The verdict of a round: the answers are tallied in the order in which
/// they were given, from a vote in which nobody wants to stop.
pub open spec fn round_verdict(votes: Seq<Result<bool, anyhow::Error>>) -> Result<
    bool,
    PoweneticsError,
>
    decreases votes.len(),
{
    if votes.len() == 0 {
        Ok(false)
    } else {
        match round_verdict(votes.drop_last()) {
            Ok(stop) => tallied(stop, votes.last()),
            Err(error) => Err(error),
        }
    }
}

/// Whether `votes` can be the answers of one round among `asked`
/// subscribers: they answer one after the other, all of them unless one
/// fails, and nobody is asked after a failure.
pub open spec fn is_round(votes: Seq<Result<bool, anyhow::Error>>, asked: nat) -> bool {
    &&& votes.len() <= asked
    &&& forall|i: int| 0 <= i < votes.len() - 1 ==> (#[trigger] votes[i]) is Ok
    &&& votes.len() < asked ==> votes.len() > 0 && votes.last() is Err
}

/// What follows an accepted frame, given the verdict of the subscribers:
/// the next frame is read unless they want to stop or one of them failed.
pub open spec fn dispatched(verdict: Result<bool, PoweneticsError>) -> Result<
    RequestView,
    ErrorView,
> {
    match verdict {
        Ok(stop) => if stop {
            Ok(RequestView::Done)
        } else {
            Ok(RequestView::Read(FRAME_LEN))
        },
        Err(error) => Err(error@),
    }
}

/// Says what follows an accepted frame, given the verdict of the
/// subscribers.
pub fn after_dispatch(verdict: Result<bool, PoweneticsError>) -> (reply: Result<
    Request,
    PoweneticsError,
>)
    ensures
        reply_view(reply) == dispatched(verdict),
        verdict matches Err(error) ==> reply matches Err(same) && same == error,
{
    match verdict {
        Ok(stop) => if stop {
            Ok(Request::Done)
        } else {
            Ok(Request::Read(FRAME_LEN))
        },
        Err(error) => Err(error),
    }
}

/// A sequence grows by one when an element is pushed.
proof fn lemma_push_len<A>(s: Seq<A>, a: A)
    ensures
        s.push(a).len() == s.len() + 1,
{
}

/// The engine that drives one instrument.
pub struct Powenetics {
    subscriptions: Vec<Box<dyn PoweneticsSubscriber>>,
    data: PoweneticsData,
    started: bool,
    sequence: u16,
    stage: Stage,
}

impl View for Powenetics {
    type V = DriverView;

    closed spec fn view(&self) -> DriverView {
        DriverView {
            data: self.data@,
            started: self.started,
            sequence: self.sequence,
            stage: self.stage,
            subscribers: self.subscriptions@.len(),
        }
    }
}

/// Creates an engine for an instrument whose transport has just been opened.
pub fn new() -> (driver: Powenetics)
    ensures
        driver@ == DriverView::fresh(),
        driver.subscribers().len() == 0,
{
    Powenetics {
        subscriptions: Vec::new(),
        data: PoweneticsData::new(),
        started: false,
        sequence: FIRST_SEQUENCE,
        stage: Stage::Idle,
    }
}

impl Powenetics {
    /// Whether two engines have the same subscribers, standing as they
    /// stand, in the same order.
    pub open spec fn same_subscribers(&self, other: Powenetics) -> bool {
        self.subscribers() == other.subscribers()
    }

    /// The subscribers, in the order in which they were registered.
    pub closed spec fn subscribers(&self) -> Seq<Box<dyn PoweneticsSubscriber>> {
        self.subscriptions@
    }

    /// The snapshot, as the subscribers are handed it.
    pub closed spec fn snapshot(&self) -> PoweneticsData {
        self.data
    }

    /// The engine as a mathematical value counts the subscribers and views
    /// the snapshot.
    pub proof fn lemma_view(&self)
        ensures
            self@.subscribers == self.subscribers().len(),
            self@.data == self.snapshot()@,
    {
    }

    /// Whether the subscribers, as they stand and in the order of
    /// registration, may give the answers `votes` when they are handed
    /// `snapshot`: the first subscriber the first answer, and so on.
    pub open spec fn may_vote(
        &self,
        snapshot: PoweneticsData,
        votes: Seq<Result<bool, anyhow::Error>>,
    ) -> bool {
        forall|i: int|
            0 <= i < votes.len() && i < self.subscribers().len() ==> (
            #[trigger] self.subscribers()[i]).may_answer(&snapshot, votes[i])
    }

    /// Whether `reply` is what a round of the subscribers comes to, when the
    /// engine stood as `self` before the round and stands as `after` behind
    /// it: every subscriber, in the order of registration, is handed the
    /// snapshot and gives an answer that it may give, until one of them
    /// fails; the answers are tallied, and the verdict decides what follows.
    pub open spec fn voted(&self, after: Powenetics, reply: Result<RequestView, ErrorView>) -> bool {
        exists|votes: Seq<Result<bool, anyhow::Error>>|
            #![trigger is_round(votes, self.subscribers().len())]
            {
                &&& is_round(votes, self.subscribers().len())
                &&& self.may_vote(after.snapshot(), votes)
                &&& reply == dispatched(round_verdict(votes))
            }
    }

    /// Whether the engine, told of `response` at `now`, can come to stand as
    /// `after` and to answer `reply`: both are what the response comes to,
    /// and where a frame is accepted, the reply is what a round of the
    /// subscribers comes to.
    pub open spec fn advanced(
        &self,
        response: ResponseView,
        now: Timestamp,
        after: Powenetics,
        reply: Result<RequestView, ErrorView>,
    ) -> bool {
        &&& self@.follows(response, now, after@, reply)
        &&& self@.receive(response, now) is Accepted ==> self.voted(after, reply)
        &&& self@.receive(response, now) is Settled ==> after.same_subscribers(*self)
        &&& after.subscribers().len() == self.subscribers().len()
    }

    /// Registers a subscriber; subscribers are notified in the order in which
    /// they were registered.
    pub fn subscribe(&mut self, cb: Box<dyn PoweneticsSubscriber>)
        ensures
            final(self)@ == old(self)@.subscribed(),
            final(self).subscribers() == old(self).subscribers().push(cb),
            final(self).snapshot() == old(self).snapshot(),
    {
        self.subscriptions.push(cb);
        proof {
            lemma_push_len(old(self).subscriptions@, cb);
        }
    }

    /// The snapshot as of the most recent frame.
    pub fn data(&self) -> (data: &PoweneticsData)
        ensures
            data@ == self@.data,
            data@.well_formed(),
    {
        proof {
            use_type_invariant(&self.data);
            self.data.lemma_well_formed();
        }
        &self.data
    }

    /// Whether measurement has begun.
    pub fn started(&self) -> (started: bool)
        ensures
            started == self@.started,
    {
        self.started
    }

    /// Where the engine stands in its exchange with the instrument.
    pub fn stage(&self) -> (stage: Stage)
        ensures
            stage == self@.stage,
    {
        self.stage
    }

    /// Begins the calibration of a channel against a reference current.
    /// Refused with [`PoweneticsError::MeasurementAlreadyStarted`], and
    /// without any request, once measurement has begun.
    pub fn calibrate(&mut self, channel: &Channel, reference: u32) -> (reply: Result<
        Request,
        PoweneticsError,
    >)
        ensures
            old(self)@.calibrate(channel@.id, reference) == (Turn::Settled {
                state: final(self)@,
                reply: reply_view(reply),
            }),
            final(self).same_subscribers(*old(self)),
    {
        if self.started {
            return Err(PoweneticsError::MeasurementAlreadyStarted);
        }
        self.stage = Stage::CalibrateWrite;
        Ok(Request::Write(calibrate_command(channel.id(), reference)))
    }

    /// Begins the reset of the stored calibration. Refused with
    /// [`PoweneticsError::MeasurementAlreadyStarted`], and without any
    /// request, once measurement has begun.
    pub fn reset_calibration(&mut self) -> (reply: Result<Request, PoweneticsError>)
        ensures
            old(self)@.reset_calibration() == (Turn::Settled {
                state: final(self)@,
                reply: reply_view(reply),
            }),
            final(self).same_subscribers(*old(self)),
    {
        if self.started {
            return Err(PoweneticsError::MeasurementAlreadyStarted);
        }
        self.stage = Stage::ResetWrite;
        Ok(Request::Write(fixed_command(RESET_CALIBRATION)))
    }

    /// Begins measurement: calibration is finalized, the instrument is told
    /// to stream, and frames are read until a subscriber wants to stop.
    /// Refused with [`PoweneticsError::MeasurementAlreadyStarted`] once
    /// measurement has begun and with [`PoweneticsError::NoSubscribers`]
    /// while nobody has subscribed, either way without any request.
    pub fn start_measurement(&mut self) -> (reply: Result<Request, PoweneticsError>)
        ensures
            old(self)@.start_measurement() == (Turn::Settled {
                state: final(self)@,
                reply: reply_view(reply),
            }),
            final(self).same_subscribers(*old(self)),
    {
        if self.started {
            return Err(PoweneticsError::MeasurementAlreadyStarted);
        }
        if self.subscriptions.len() == 0 {
            return Err(PoweneticsError::NoSubscribers);
        }
        self.stage = Stage::FinalizeWrite;
        Ok(Request::Write(fixed_command(FINALIZE_CALIBRATION)))
    }

    /// Ends the exchange with `error`.
    fn fail(&mut self, error: PoweneticsError) -> (reply: Result<Request, PoweneticsError>)
        ensures
            final(self)@ == old(self)@.halted(),
            final(self).same_subscribers(*old(self)),
            reply matches Err(same) && same == error,
    {
        self.stage = Stage::Idle;
        Err(error)
    }

    /// Ends the exchange because the response is not one that the pending
    /// request can have.
    fn confused(&mut self) -> (reply: Result<Request, PoweneticsError>)
        ensures
            old(self)@.confused() == (Turn::Settled {
                state: final(self)@,
                reply: reply_view(reply),
            }),
            final(self).same_subscribers(*old(self)),
    {
        self.fail(PoweneticsError::Protocol { message: unexpected_message() })
    }

    /// Goes on with `request`, in stage `stage`.
    fn proceed(&mut self, stage: Stage, request: Request) -> (reply: Result<
        Request,
        PoweneticsError,
    >)
        ensures
            old(self)@.proceed(stage, request@) == (Turn::Settled {
                state: final(self)@,
                reply: reply_view(reply),
            }),
            final(self).same_subscribers(*old(self)),
    {
        self.stage = stage;
        Ok(request)
    }

    /// Hands the snapshot to every subscriber, in the order of registration,
    /// and says whether any of them wants to stop. The first failure ends the
    /// round: the subscribers after it are not asked.
    fn dispatch(&mut self) -> (verdict: Result<bool, PoweneticsError>)
        ensures
            final(self)@ == old(self)@,
            verdict matches Err(error) ==> error is Subscriber,
            final(self).subscribers().len() == old(self).subscribers().len(),
            final(self).snapshot() == old(self).snapshot(),
            exists|votes: Seq<Result<bool, anyhow::Error>>|
                #![trigger is_round(votes, old(self).subscribers().len())]
                {
                    &&& is_round(votes, old(self).subscribers().len())
                    &&& old(self).may_vote(old(self).snapshot(), votes)
                    &&& verdict == round_verdict(votes)
                },
    {
        let mut stop = false;
        let mut i: usize = 0;
        let ghost mut votes: Seq<Result<bool, anyhow::Error>> = Seq::empty();
        while i < self.subscriptions.len()
            invariant
                self@ == old(self)@,
                self.data == old(self).data,
                self.subscriptions@.len() == old(self).subscriptions@.len(),
                i <= self.subscriptions@.len(),
                votes.len() == i,
                forall|j: int| 0 <= j < i ==> (#[trigger] votes[j]) is Ok,
                forall|j: int|
                    i <= j < self.subscriptions@.len() ==> self.subscriptions@[j] == old(
                        self,
                    ).subscriptions@[j],
                old(self).may_vote(old(self).snapshot(), votes),
                round_verdict(votes) == Ok::<bool, PoweneticsError>(stop),
            decreases self.subscriptions.len() - i,
        {
            let vote = self.subscriptions[i].update(&self.data);
            proof {
                assert(votes.push(vote).drop_last() =~= votes);
                votes = votes.push(vote);
            }
            match tally(stop, vote) {
                Ok(wish) => {
                    stop = wish;
                },
                Err(error) => {
                    assert(is_round(votes, old(self).subscribers().len()));
                    return Err(error);
                },
            }
            i += 1;
        }
        assert(is_round(votes, old(self).subscribers().len()));
        Ok(stop)
    }

    /// Handles one measurement frame received at `now`.
    fn frame(&mut self, frame: &[u8], now: Timestamp) -> (reply: Result<Request, PoweneticsError>)
        requires
            frame@.len() == FRAME_LEN,
            old(self)@.stage == Stage::Streaming,
        ensures
            old(self)@.follows(ResponseView::Data(frame@), now, final(self)@, reply_view(reply)),
            old(self)@.frame(frame@, now) is Accepted ==> old(self).voted(
                *final(self),
                reply_view(reply),
            ),
            old(self)@.frame(frame@, now) is Settled ==> final(self).same_subscribers(*old(self)),
            final(self).subscribers().len() == old(self).subscribers().len(),
    {
        self.data.stamp(now);
        if !check_marker(frame) {
            return self.fail(
                PoweneticsError::Protocol { message: marker_message(frame[0], frame[1]) },
            );
        }
        let received = read_sequence(frame);
        if received != self.sequence {
            return self.fail(
                PoweneticsError::Protocol { message: sequence_message(self.sequence, received) },
            );
        }
        self.sequence = self.sequence.wrapping_add(1);
        match self.data.record(frame, now) {
            Err(error) => {
                return self.fail(error);
            },
            Ok(()) => {},
        }
        let ghost asked = *self;
        let verdict = self.dispatch();
        let reply = after_dispatch(verdict);
        if let Ok(Request::Read(_)) = reply {
        } else {
            self.stage = Stage::Idle;
        }
        proof {
            assert(asked.subscribers() == old(self).subscribers());
            let votes = choose|votes: Seq<Result<bool, anyhow::Error>>|
                #![trigger is_round(votes, asked.subscribers().len())]
                {
                    &&& is_round(votes, asked.subscribers().len())
                    &&& asked.may_vote(asked.snapshot(), votes)
                    &&& verdict == round_verdict(votes)
                };
            assert(is_round(votes, old(self).subscribers().len()));
            assert(old(self).may_vote(self.snapshot(), votes));
        }
        reply
    }

    /// Tells the engine what came of its last request, at the time `now`, and
    /// learns what to do next. The time matters only where the response
    /// carries a measurement frame: it becomes the time of the snapshot.
    pub fn advance_at(&mut self, response: Response, now: Timestamp) -> (reply: Result<
        Request,
        PoweneticsError,
    >)
        ensures
            old(self).advanced(response@, now, *final(self), reply_view(reply)),
    {
        match response {
            Response::Failed(error) => self.fail(PoweneticsError::Io(error)),
            Response::PortFailed(error) => self.fail(PoweneticsError::SerialPort(error)),
            Response::Written => match self.stage {
                Stage::CalibrateWrite => self.proceed(
                    Stage::CalibratePause,
                    Request::Pause(SETTLE_MILLIS),
                ),
                Stage::ResetWrite => self.proceed(Stage::Idle, Request::Done),
                Stage::FinalizeWrite => self.proceed(
                    Stage::FinalizePause,
                    Request::Pause(SETTLE_MILLIS),
                ),
                Stage::BeginWrite => {
                    self.started = true;
                    self.sequence = FIRST_SEQUENCE;
                    self.proceed(Stage::Streaming, Request::Read(FRAME_LEN))
                },
                _ => self.confused(),
            },
            Response::Paused => match self.stage {
                Stage::CalibratePause => self.proceed(Stage::CalibratePending, Request::Pending),
                Stage::FinalizePause => self.proceed(Stage::ReadyPending, Request::Pending),
                _ => self.confused(),
            },
            Response::Pending(waiting) => match self.stage {
                Stage::CalibratePending => if waiting == 0 {
                    self.proceed(Stage::Idle, Request::Done)
                } else if waiting == 2 {
                    self.proceed(Stage::CalibrateAck, Request::Read(ACK_LEN))
                } else {
                    self.fail(PoweneticsError::Protocol { message: reply_length_message(waiting) })
                },
                Stage::ReadyPending => if waiting == 0 {
                    self.proceed(
                        Stage::BeginWrite,
                        Request::Write(fixed_command(BEGIN_STREAMING)),
                    )
                } else {
                    self.proceed(Stage::ReadyText, Request::Read(waiting as usize))
                },
                _ => self.confused(),
            },
            Response::Data(bytes) => match self.stage {
                Stage::CalibrateAck => if bytes.len() != ACK_LEN {
                    self.confused()
                } else if check_marker(bytes.as_slice()) {
                    self.fail(PoweneticsError::NoPowerOnChannel)
                } else {
                    self.fail(
                        PoweneticsError::Protocol { message: marker_message(bytes[0], bytes[1]) },
                    )
                },
                Stage::ReadyText => if check_ready(bytes.as_slice()) {
                    self.proceed(
                        Stage::BeginWrite,
                        Request::Write(fixed_command(BEGIN_STREAMING)),
                    )
                } else {
                    self.fail(
                        PoweneticsError::Protocol { message: ready_message(bytes.as_slice()) },
                    )
                },
                Stage::Streaming => if bytes.len() != FRAME_LEN {
                    self.confused()
                } else {
                    self.frame(bytes.as_slice(), now)
                },
                _ => self.confused(),
            },
        }
    }

    /// Tells the engine what came of its last request and learns what to do
    /// next. A measurement frame is taken to have been received now, by the
    /// wall clock; if the clock cannot be read, the stream ends with
    /// [`PoweneticsError::SystemTime`].
    pub fn advance(&mut self, response: Response) -> (reply: Result<Request, PoweneticsError>)
        ensures
            (exists|now: Timestamp| #[trigger]
                old(self).advanced(response@, now, *final(self), reply_view(reply))) || (old(
                self,
            )@.stage == Stage::Streaming && response@ is Data && final(self)@ == old(
                self,
            )@.halted() && reply_view(reply) == Err::<RequestView, ErrorView>(
                ErrorView::SystemTime,
            )),
    {
        let timed = match (&response, self.stage) {
            (Response::Data(_), Stage::Streaming) => true,
            _ => false,
        };
        if timed {
            match wall_clock() {
                Some(now) => self.advance_at(response, now),
                None => self.fail(PoweneticsError::SystemTime),
            }
        } else {
            self.advance_at(response, Timestamp::epoch())
        }
    }
}

} // verus!
