//! The sensor task.
//!
//! The task brings the sensor up once, has its pending messages drained on
//! every invocation, and at a fixed cadence turns the latest orientation
//! into a telemetry frame that it puts into the channel. The sensor and the
//! clock are not in here: each invocation reports to [`I2cTask::step`] what
//! has happened and carries out the action that comes back.

use crate::cadence::{due, elapsed, is_due, reading_after, FRAME_PERIOD};
use crate::channel::{committed, try_write, CHANNEL_CAPACITY};
use crate::frame::{
    lemma_whole_frames_append, lemma_wire_layout, whole_frames, HatireData, FRAME_BEGIN, FRAME_END,
    FRAME_LEN,
};
use crate::text::{empty_text, fits, push_piece, text_bytes, text_of};
use vstd::prelude::*;
use vstd::string::{is_ascii_spec_bytes, StringSliceAdditionalSpecFns};

verus! {

/// Address of the sensor on its bus.
pub const SENSOR_ADDRESS: u8 = 0x4A;

/// Milliseconds to let the sensor settle before it is brought up.
pub const SETTLE_MILLIS: u32 = 1000;

/// Milliseconds between two reports of the sensor, for both kinds of report
/// that are switched on.
pub const REPORT_INTERVAL_MILLIS: u16 = 10;

/// Milliseconds to wait for a message while the pending ones are drained.
pub const DRAIN_TIMEOUT_MILLIS: u8 = 1;

/// How far the sensor has been brought up.
#[derive(Clone, Copy, Debug, PartialEq, Eq, Structural)]
pub enum SensorPhase {
    /// Nothing has been done yet.
    Uninitialized,
    /// The task has asked for the sensor to be brought up.
    Initializing,
    /// The sensor has been brought up, whether or not it took its settings.
    Running,
}

/// What the surroundings report to the task.
#[derive(Clone, Copy, Debug, PartialEq, Eq)]
pub enum SensorEvent {
    /// The run loop invokes the task; the clock reads `now`.
    Invoked { now: u64 },
    /// The sensor has been brought up, or has refused: the task goes on
    /// either way. `now` is the reading of this invocation.
    InitFinished { now: u64 },
    /// The pending messages have been drained and the latest pose has been
    /// looked up. `rotation` holds the Euler angles in degrees where the
    /// sensor had an orientation to give, `translation` the position in
    /// centimetres, each as the bit pattern of a single-precision number.
    /// `now` is the reading of this invocation.
    Sampled { now: u64, rotation: Option<[u32; 3]>, translation: [u32; 3] },
}

/// What the task asks its surroundings to do next.
#[derive(Clone, Copy, Debug, PartialEq, Eq, Structural)]
pub enum SensorAction {
    /// Let the sensor settle, bring it up and switch on its two reports, then
    /// report `InitFinished`.
    Initialize,
    /// Drain the sensor's pending messages; the invocation then ends.
    Drain,
    /// Drain the sensor's pending messages, look up the latest pose and
    /// report `Sampled`.
    DrainAndSample,
    /// Nothing; the invocation ends.
    Idle,
}

/// What one event leads to.
pub struct Transition {
    pub phase: SensorPhase,
    pub last_emitted: u64,
    pub action: SensorAction,
    /// The frame that is handed to the channel, if any.
    pub frame: Option<HatireData>,
}

/// The frame for a pose. Without an orientation the angles stay zero.
pub open spec fn pose_frame_spec(rotation: Option<[u32; 3]>, translation: [u32; 3]) -> HatireData {
    HatireData {
        begin: FRAME_BEGIN,
        code: 0,
        rot: match rotation {
            Some(angles) => angles,
            None => [0u32, 0u32, 0u32],
        },
        trans: translation,
        end: FRAME_END,
    }
}

/// What is left to do in an invocation once the sensor is up: a frame is
/// asked for only when the cadence says so.
pub open spec fn poll_action_spec(now: u64, last_emitted: u64) -> SensorAction {
    if due(now, last_emitted, FRAME_PERIOD) {
        SensorAction::DrainAndSample
    } else {
        SensorAction::Drain
    }
}

/// The task's rules: where an event leads from a phase and the reading at
/// which the last frame went out. An event that does not fit the phase
/// changes nothing.
pub open spec fn transition(phase: SensorPhase, last_emitted: u64, event: SensorEvent) -> Transition {
    match event {
        SensorEvent::Invoked { now } => match phase {
            SensorPhase::Running => Transition {
                phase,
                last_emitted,
                action: poll_action_spec(now, last_emitted),
                frame: None,
            },
            _ => Transition {
                phase: SensorPhase::Initializing,
                last_emitted,
                action: SensorAction::Initialize,
                frame: None,
            },
        },
        SensorEvent::InitFinished { now } => match phase {
            SensorPhase::Initializing => Transition {
                phase: SensorPhase::Running,
                last_emitted,
                action: poll_action_spec(now, last_emitted),
                frame: None,
            },
            _ => Transition { phase, last_emitted, action: SensorAction::Idle, frame: None },
        },
        SensorEvent::Sampled { now, rotation, translation } => {
            if phase == SensorPhase::Running && due(now, last_emitted, FRAME_PERIOD) {
                Transition {
                    phase,
                    last_emitted: now,
                    action: SensorAction::Idle,
                    frame: Some(pose_frame_spec(rotation, translation)),
                }
            } else {
                Transition { phase, last_emitted, action: SensorAction::Idle, frame: None }
            }
        },
    }
}

/// The line that reports how a step of the bring-up went: the step's title,
/// then ` Complete` or ` Failed: ` with the failure's description, then a
/// line feed. The line is put together piece by piece and ends in front of
/// the first piece that would take it beyond the capacity of a text.
pub open spec fn status_line(title: Seq<u8>, failure: Option<Seq<u8>>) -> Seq<u8> {
    let start = Seq::<u8>::empty();
    if !fits(start, title) {
        start
    } else {
        match failure {
            None => if fits(title, " Complete\n".spec_bytes()) {
                title + " Complete\n".spec_bytes()
            } else {
                title
            },
            Some(detail) => {
                let named = title + " Failed: ".spec_bytes();
                if !fits(title, " Failed: ".spec_bytes()) {
                    title
                } else if !fits(named, detail) {
                    named
                } else if !fits(named + detail, "\n".spec_bytes()) {
                    named + detail
                } else {
                    named + detail + "\n".spec_bytes()
                }
            },
        }
    }
}

/// The bytes of the failure's description, where a step failed.
pub open spec fn failure_of(result: Result<(), &str>) -> Option<Seq<u8>> {
    match result {
        Ok(_) => None,
        Err(detail) => Some(detail.spec_bytes()),
    }
}

/// Puts together the line that reports how a step of the bring-up went.
/// `result` holds the failure's description where the step failed.
pub fn status_text(result: Result<(), &str>, title: &str) -> (text: arrayvec::ArrayString<128>)
    ensures
        text_of(text) == status_line(title.spec_bytes(), failure_of(result)),
{
    let mut text = empty_text();
    if push_piece(&mut text, title) {
        match result {
            Err(detail) => {
                if push_piece(&mut text, " Failed: ") && push_piece(&mut text, detail) {
                    let _ = push_piece(&mut text, "\n");
                }
            },
            Ok(_) => {
                let _ = push_piece(&mut text, " Complete\n");
            },
        }
    }
    proof {
        assert(text_of(text) =~= status_line(title.spec_bytes(), failure_of(result)));
    }
    text
}

/// The frame for a pose. Without an orientation the angles stay zero.
pub fn pose_frame(rotation: Option<[u32; 3]>, translation: [u32; 3]) -> (frame: HatireData)
    ensures
        frame == pose_frame_spec(rotation, translation),
{
    let mut frame = HatireData::new();
    if let Some(angles) = rotation {
        frame.rot = angles;
    }
    frame.trans = translation;
    proof {
        assert(frame.rot =~= pose_frame_spec(rotation, translation).rot);
    }
    frame
}

fn poll_action(now: u64, last_emitted: u64) -> (action: SensorAction)
    ensures
        action == poll_action_spec(now, last_emitted),
{
    if is_due(now, last_emitted, FRAME_PERIOD) {
        SensorAction::DrainAndSample
    } else {
        SensorAction::Drain
    }
}

/// The sensor task: the writing end of the channel, the phase, and the
/// reading at which the last frame went out.
pub struct I2cTask<'a> {
    producer: bbqueue::Producer<'a, 128>,
    send_counter: u64,
    phase: SensorPhase,
}

impl<'a> I2cTask<'a> {
    /// How far the sensor has been brought up.
    pub closed spec fn phase(&self) -> SensorPhase {
        self.phase
    }

    /// The clock reading at which the last frame went out.
    pub closed spec fn last_emitted(&self) -> u64 {
        self.send_counter
    }

    /// Every byte that the task has put into the channel, oldest first.
    pub closed spec fn sent(&self) -> Seq<u8> {
        committed(self.producer)
    }

    /// A task that has not touched the sensor yet. `counter` is the clock
    /// reading from which the first period is counted.
    pub fn new(producer: bbqueue::Producer<'a, 128>, counter: u64) -> (task: Self)
        ensures
            task.phase() == SensorPhase::Uninitialized,
            task.last_emitted() == counter,
            task.sent() == committed(producer),
    {
        Self { producer, send_counter: counter, phase: SensorPhase::Uninitialized }
    }

    /// Puts a text into the channel, all of it or, where the channel has no
    /// room, none of it.
    pub fn output_string(&mut self, out: &arrayvec::ArrayString<128>)
        ensures
            final(self).sent() == old(self).sent() + text_of(*out)
                || final(self).sent() == old(self).sent(),
            final(self).phase() == old(self).phase(),
            final(self).last_emitted() == old(self).last_emitted(),
    {
        let bytes = text_bytes(out);
        self.output_bytes(bytes);
    }

    /// Puts the line that reports how a step of the bring-up went into the
    /// channel, or drops it where the channel has no room. `result` holds the
    /// failure's description where the step failed. The line is the one that
    /// [`status_text`] puts together.
    pub fn print_result(&mut self, result: Result<(), &str>, title: &str)
        ensures
            ({
                let line = status_line(title.spec_bytes(), failure_of(result));
                let before = old(self).sent();
                let after = final(self).sent();
                after == before + line || after == before
            }),
            final(self).phase() == old(self).phase(),
            final(self).last_emitted() == old(self).last_emitted(),
    {
        let out_string = status_text(result, title);
        self.output_string(&out_string);
    }

    /// Puts bytes into the channel, all of them or, where the channel has no
    /// room, none of them. Bytes that find no room are dropped; more bytes
    /// than the channel can hold never find room.
    pub fn output_bytes(&mut self, out: &[u8])
        ensures
            final(self).sent() == old(self).sent() + out@
                || final(self).sent() == old(self).sent(),
            out@.len() > CHANNEL_CAPACITY ==> final(self).sent() == old(self).sent(),
            final(self).phase() == old(self).phase(),
            final(self).last_emitted() == old(self).last_emitted(),
    {
        let _ = try_write(&mut self.producer, out);
    }

    /// Takes one event and says what to do next.
    ///
    /// The phase, the reading of the last frame and the action follow
    /// [`transition`]. Where it names a frame, the frame's thirty bytes are
    /// handed to the channel: they go in as a whole, or are dropped where the
    /// channel has no room. Nothing else is ever put into the channel.
    pub fn step(&mut self, event: SensorEvent) -> (action: SensorAction)
        ensures
            ({
                let next = transition(old(self).phase(), old(self).last_emitted(), event);
                let before = old(self).sent();
                let after = final(self).sent();
                &&& final(self).phase() == next.phase
                &&& final(self).last_emitted() == next.last_emitted
                &&& action == next.action
                &&& match next.frame {
                    Some(frame) => after == before + frame.wire() || after == before,
                    None => after == before,
                }
            }),
    {
        match event {
            SensorEvent::Invoked { now } => match self.phase {
                SensorPhase::Running => poll_action(now, self.send_counter),
                _ => {
                    self.phase = SensorPhase::Initializing;
                    SensorAction::Initialize
                },
            },
            SensorEvent::InitFinished { now } => match self.phase {
                SensorPhase::Initializing => {
                    self.phase = SensorPhase::Running;
                    poll_action(now, self.send_counter)
                },
                _ => SensorAction::Idle,
            },
            SensorEvent::Sampled { now, rotation, translation } => {
                let running = match self.phase {
                    SensorPhase::Running => true,
                    _ => false,
                };
                if running && is_due(now, self.send_counter, FRAME_PERIOD) {
                    let frame = pose_frame(rotation, translation);
                    let bytes = frame.to_bytes();
                    self.output_bytes(bytes.as_slice());
                    self.send_counter = now;
                }
                SensorAction::Idle
            },
        }
    }

    /// How far the sensor has been brought up.
    pub fn current_phase(&self) -> (phase: SensorPhase)
        ensures
            phase == self.phase(),
    {
        self.phase
    }

    /// The clock reading at which the last frame went out.
    pub fn last_frame_at(&self) -> (reading: u64)
        ensures
            reading == self.last_emitted(),
    {
        self.send_counter
    }
}

/// The order of the phases.
pub open spec fn phase_rank(phase: SensorPhase) -> nat {
    match phase {
        SensorPhase::Uninitialized => 0,
        SensorPhase::Initializing => 1,
        SensorPhase::Running => 2,
    }
}

/// The phases are passed through in their order and never backwards, and a
/// running task stays running whatever is reported to it.
pub proof fn lemma_phase_moves_forward(phase: SensorPhase, last_emitted: u64, event: SensorEvent)
    ensures
        phase_rank(transition(phase, last_emitted, event).phase) >= phase_rank(phase),
        phase == SensorPhase::Running ==> transition(phase, last_emitted, event).phase
            == SensorPhase::Running,
{
}

/// A frame goes out only from a running task, only in answer to a sample, and
/// only when the counter has moved on by a full period since the last frame.
/// The reading of that sample is then the one from which the next period is
/// counted; without a frame that reading stays as it was.
pub proof fn lemma_frame_only_at_cadence(phase: SensorPhase, last_emitted: u64, event: SensorEvent)
    ensures
        ({
            let next = transition(phase, last_emitted, event);
            &&& next.frame is Some <==> phase == SensorPhase::Running && (event matches SensorEvent::Sampled { now, .. }
                && elapsed(now, last_emitted) >= FRAME_PERIOD)
            &&& next.frame is Some ==> (event matches SensorEvent::Sampled { now, .. }
                && next.last_emitted == now)
            &&& next.frame is None ==> next.last_emitted == last_emitted
        }),
{
}

/// The cadence holds across the counter's starting over: a sample taken when
/// the counter has moved on by `advance` ticks since the last frame gives a
/// frame exactly when `advance` has reached the period.
pub proof fn lemma_cadence_across_wrap(
    last_emitted: u64,
    advance: u64,
    rotation: Option<[u32; 3]>,
    translation: [u32; 3],
)
    ensures
        transition(
            SensorPhase::Running,
            last_emitted,
            SensorEvent::Sampled { now: reading_after(last_emitted, advance), rotation, translation },
        ).frame is Some <==> advance >= FRAME_PERIOD,
{
}

/// Every frame that goes out has both markers in place, takes exactly thirty
/// bytes, starts with the bytes `AA AA` and ends with the bytes `55 55`.
pub proof fn lemma_emitted_frame_layout(phase: SensorPhase, last_emitted: u64, event: SensorEvent)
    ensures
        transition(phase, last_emitted, event).frame matches Some(frame) ==> {
            &&& frame.well_formed()
            &&& frame.wire().len() == FRAME_LEN
            &&& frame.wire()[0] == 0xAA
            &&& frame.wire()[1] == 0xAA
            &&& frame.wire()[28] == 0x55
            &&& frame.wire()[29] == 0x55
        },
{
    if let Some(frame) = transition(phase, last_emitted, event).frame {
        lemma_wire_layout(frame);
    }
}

/// What [`I2cTask::step`] does to the channel keeps the bytes in it whole
/// frames: where `before` is a row of whole frames and `after` is what one
/// event may make of it, `after` is a row of whole frames too. Frames are
/// dropped whole or go in whole, and never out of their order.
pub proof fn lemma_step_keeps_whole_frames(
    before: Seq<u8>,
    after: Seq<u8>,
    phase: SensorPhase,
    last_emitted: u64,
    event: SensorEvent,
)
    requires
        whole_frames(before),
        match transition(phase, last_emitted, event).frame {
            Some(frame) => after == before + frame.wire() || after == before,
            None => after == before,
        },
    ensures
        whole_frames(after),
{
    if let Some(frame) = transition(phase, last_emitted, event).frame {
        lemma_whole_frames_append(before, frame);
    }
}

/// The fixed pieces of a status line, byte by byte: ` Complete` with its
/// line feed, ` Failed: `, and the line feed alone.
pub proof fn lemma_status_pieces()
    ensures
        " Complete\n".spec_bytes() == seq![
            0x20u8, 0x43u8, 0x6fu8, 0x6du8, 0x70u8, 0x6cu8, 0x65u8, 0x74u8, 0x65u8, 0x0au8,
        ],
        " Failed: ".spec_bytes() == seq![
            0x20u8, 0x46u8, 0x61u8, 0x69u8, 0x6cu8, 0x65u8, 0x64u8, 0x3au8, 0x20u8,
        ],
        "\n".spec_bytes() == seq![0x0au8],
{
    reveal_strlit(" Complete\n");
    reveal_strlit(" Failed: ");
    reveal_strlit("\n");
    is_ascii_spec_bytes(" Complete\n");
    is_ascii_spec_bytes(" Failed: ");
    is_ascii_spec_bytes("\n");
    assert(" Complete\n".spec_bytes() =~= seq![
        0x20u8, 0x43u8, 0x6fu8, 0x6du8, 0x70u8, 0x6cu8, 0x65u8, 0x74u8, 0x65u8, 0x0au8,
    ]);
    assert(" Failed: ".spec_bytes() =~= seq![
        0x20u8, 0x46u8, 0x61u8, 0x69u8, 0x6cu8, 0x65u8, 0x64u8, 0x3au8, 0x20u8,
    ]);
    assert("\n".spec_bytes() =~= seq![0x0au8]);
}

} // verus!
