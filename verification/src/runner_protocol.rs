//! Screensaver runner sessions: which sessions a presentation opens, the handshake that
//! brings each runner up (`Ready`, then `Init` answered by `Ack`), and the runner's
//! command loop.

use vstd::prelude::*;

use crate::layout::{desktop_exec, geometry_fits, virtual_desktop};
use crate::text::cat;
use crate::topology::OutputLayout;

verus! {

broadcast use vstd::string::group_string_axioms;

/// The pixel area one runner session renders, and the output it belongs to (0 for a
/// session that spans all outputs).
#[derive(Debug, Clone, Copy, PartialEq, Eq)]
pub struct SessionTarget {
    pub output_id: u32,
    pub width: u32,
    pub height: u32,
}

/// The sessions of a presentation: with independent rendering one per output, in order,
/// over that output's pixels; otherwise one session over the bounding box of all outputs.
pub open spec fn session_targets(independent: bool, layouts: Seq<OutputLayout>) -> Seq<SessionTarget> {
    if independent {
        layouts.map_values(|l: OutputLayout| SessionTarget { output_id: l.id, width: l.width, height: l.height })
    } else {
        seq![SessionTarget { output_id: 0, width: desktop_exec(layouts).2, height: desktop_exec(layouts).3 }]
    }
}

/// The sessions a presentation opens over these outputs.
pub fn plan_sessions(independent: bool, layouts: &Vec<OutputLayout>) -> (r: Vec<SessionTarget>)
    requires
        geometry_fits(layouts@),
    ensures
        r@ == session_targets(independent, layouts@),
{
    let mut r: Vec<SessionTarget> = Vec::new();
    if independent {
        let mut i: usize = 0;
        while i < layouts.len()
            invariant
                i <= layouts@.len(),
                r@ == layouts@.take(i as int).map_values(
                    |l: OutputLayout| SessionTarget { output_id: l.id, width: l.width, height: l.height },
                ),
            decreases layouts.len() - i,
        {
            let l = layouts[i];
            r.push(SessionTarget { output_id: l.id, width: l.width, height: l.height });
            assert(layouts@.take(i + 1) =~= layouts@.take(i as int).push(l));
            i = i + 1;
        }
        assert(layouts@.take(layouts@.len() as int) =~= layouts@);
    } else {
        let (_min_x, _min_y, total_w, total_h) = virtual_desktop(layouts);
        r.push(SessionTarget { output_id: 0, width: total_w, height: total_h });
        assert(r@ =~= session_targets(independent, layouts@));
    }
    r
}

/// A reply read from a runner's control socket. `Other` is any other reply, by its
/// description.
#[derive(Debug, Clone, PartialEq, Eq)]
pub enum RunnerReply {
    Ready,
    Ack,
    Other(String),
}

/// The reply as a spec value.
pub enum ReplyView {
    Ready,
    Ack,
    Other(Seq<char>),
}

impl View for RunnerReply {
    type V = ReplyView;

    open spec fn view(&self) -> ReplyView {
        match self {
            RunnerReply::Ready => ReplyView::Ready,
            RunnerReply::Ack => ReplyView::Ack,
            RunnerReply::Other(d) => ReplyView::Other(d@),
        }
    }
}

/// How a reply is described in an error message.
pub open spec fn reply_description(r: ReplyView) -> Seq<char> {
    match r {
        ReplyView::Ready => "Ready"@,
        ReplyView::Ack => "Ack"@,
        ReplyView::Other(d) => d,
    }
}

/// Where a runner's handshake stands: waiting for the runner to say it is ready, or for
/// its acknowledgement of `Init`.
#[derive(Debug, Clone, Copy, PartialEq, Eq)]
pub enum HandshakeStage {
    AwaitReady,
    AwaitAck,
}

/// What the daemon does after reading a reply.
#[derive(Debug, Clone, PartialEq, Eq)]
pub enum HandshakeStep {
    /// Send `Init` with the session's grid, then wait for `Ack`.
    SendInit { cols: u32, rows: u32 },
    /// The session is up.
    Established,
    /// Give up with this message.
    Fail(String),
}

pub enum StepView {
    SendInit { cols: u32, rows: u32 },
    Established,
    Fail(Seq<char>),
}

impl View for HandshakeStep {
    type V = StepView;

    open spec fn view(&self) -> StepView {
        match self {
            HandshakeStep::SendInit { cols, rows } => StepView::SendInit { cols: *cols, rows: *rows },
            HandshakeStep::Established => StepView::Established,
            HandshakeStep::Fail(m) => StepView::Fail(m@),
        }
    }
}

/// The step after reading `reply` (`Err` with the read error's text when reading failed):
/// `Ready` first, then `Ack`; anything else, or a failed read, ends the handshake.
pub open spec fn handshake(stage: HandshakeStage, reply: Result<ReplyView, Seq<char>>, cols: u32, rows: u32) -> StepView {
    match stage {
        HandshakeStage::AwaitReady => match reply {
            Ok(ReplyView::Ready) => StepView::SendInit { cols, rows },
            Ok(r) => StepView::Fail("unexpected connection message: "@ + reply_description(r)),
            Err(e) => StepView::Fail("failed to read connection message: "@ + e),
        },
        HandshakeStage::AwaitAck => match reply {
            Ok(ReplyView::Ack) => StepView::Established,
            Ok(r) => StepView::Fail("unexpected response to Init: "@ + reply_description(r)),
            Err(e) => StepView::Fail("failed to read Init Ack: "@ + e),
        },
    }
}

pub open spec fn reply_result_view(reply: &Result<RunnerReply, String>) -> Result<ReplyView, Seq<char>> {
    match reply {
        Ok(r) => Ok(r@),
        Err(e) => Err(e@),
    }
}

fn describe(r: &RunnerReply) -> (s: &str)
    ensures
        s@ == reply_description(r@),
{
    match r {
        RunnerReply::Ready => "Ready",
        RunnerReply::Ack => "Ack",
        RunnerReply::Other(d) => d.as_str(),
    }
}

/// The daemon's next step in a runner's handshake, for a session of `cols` by `rows`.
pub fn handshake_step(stage: HandshakeStage, reply: &Result<RunnerReply, String>, cols: u32, rows: u32) -> (r: HandshakeStep)
    ensures
        r@ == handshake(stage, reply_result_view(reply), cols, rows),
{
    match stage {
        HandshakeStage::AwaitReady => match reply {
            Ok(RunnerReply::Ready) => HandshakeStep::SendInit { cols, rows },
            Ok(other) => HandshakeStep::Fail(cat("unexpected connection message: ", describe(other))),
            Err(e) => HandshakeStep::Fail(cat("failed to read connection message: ", e.as_str())),
        },
        HandshakeStage::AwaitAck => match reply {
            Ok(RunnerReply::Ack) => HandshakeStep::Established,
            Ok(other) => HandshakeStep::Fail(cat("unexpected response to Init: ", describe(other))),
            Err(e) => HandshakeStep::Fail(cat("failed to read Init Ack: ", e.as_str())),
        },
    }
}

/// A command a runner reads from its control socket. The simulation rate is carried as
/// the bits of its binary32 value.
#[derive(Debug, Clone, Copy, PartialEq, Eq)]
pub enum RunnerCommand {
    Init { cols: u32, rows: u32 },
    TickAndDraw { dt_micros: u64 },
    SetSimulationRate { hz_bits: u32 },
    Stop,
}

/// Why reading a command failed: the daemon closed the socket, or another error, by its
/// text.
#[derive(Debug, Clone, PartialEq, Eq)]
pub enum ReadFailure {
    Closed,
    Error(String),
}

/// What a runner does with what it read.
#[derive(Debug, Clone, PartialEq, Eq)]
pub enum RunnerAction {
    /// Size the saver's grid, then answer `Ack`.
    InitGrid { cols: u32, rows: u32 },
    /// Advance the saver by this many microseconds, draw a frame into the shared
    /// memory, count it, then answer `FrameReady`.
    DrawFrame { dt_micros: u64 },
    /// Change the simulation rate, then answer `Ack`.
    SetRate { hz_bits: u32 },
    /// Leave the command loop: the session is over.
    Exit,
    /// Stop with this error.
    Fail(String),
}

pub enum RunnerActionView {
    InitGrid { cols: u32, rows: u32 },
    DrawFrame { dt_micros: u64 },
    SetRate { hz_bits: u32 },
    Exit,
    Fail(Seq<char>),
}

impl View for RunnerAction {
    type V = RunnerActionView;

    open spec fn view(&self) -> RunnerActionView {
        match self {
            RunnerAction::InitGrid { cols, rows } => RunnerActionView::InitGrid { cols: *cols, rows: *rows },
            RunnerAction::DrawFrame { dt_micros } => RunnerActionView::DrawFrame { dt_micros: *dt_micros },
            RunnerAction::SetRate { hz_bits } => RunnerActionView::SetRate { hz_bits: *hz_bits },
            RunnerAction::Exit => RunnerActionView::Exit,
            RunnerAction::Fail(m) => RunnerActionView::Fail(m@),
        }
    }
}

pub open spec fn read_view(read: &Result<RunnerCommand, ReadFailure>) -> Result<RunnerCommand, Option<Seq<char>>> {
    match read {
        Ok(c) => Ok(*c),
        Err(ReadFailure::Closed) => Err(None),
        Err(ReadFailure::Error(e)) => Err(Some(e@)),
    }
}

/// The runner's step for one read, and the frame counter after it: a drawn frame counts
/// one more (wrapping); a closed socket or `Stop` ends the loop; another read error fails.
pub open spec fn runner_step_of(read: Result<RunnerCommand, Option<Seq<char>>>, frames: u64) -> (RunnerActionView, u64) {
    match read {
        Ok(RunnerCommand::Init { cols, rows }) => (RunnerActionView::InitGrid { cols, rows }, frames),
        Ok(RunnerCommand::TickAndDraw { dt_micros }) => (
            RunnerActionView::DrawFrame { dt_micros },
            frames.wrapping_add(1),
        ),
        Ok(RunnerCommand::SetSimulationRate { hz_bits }) => (RunnerActionView::SetRate { hz_bits }, frames),
        Ok(RunnerCommand::Stop) => (RunnerActionView::Exit, frames),
        Err(None) => (RunnerActionView::Exit, frames),
        Err(Some(e)) => (RunnerActionView::Fail("failed to read IPC command: "@ + e), frames),
    }
}

/// One turn of a runner's command loop, given the frame counter of the shared memory.
pub fn runner_step(read: &Result<RunnerCommand, ReadFailure>, frames: u64) -> (r: (RunnerAction, u64))
    ensures
        (r.0@, r.1) == runner_step_of(read_view(read), frames),
{
    match read {
        Ok(RunnerCommand::Init { cols, rows }) => (RunnerAction::InitGrid { cols: *cols, rows: *rows }, frames),
        Ok(RunnerCommand::TickAndDraw { dt_micros }) => (
            RunnerAction::DrawFrame { dt_micros: *dt_micros },
            frames.wrapping_add(1),
        ),
        Ok(RunnerCommand::SetSimulationRate { hz_bits }) => (RunnerAction::SetRate { hz_bits: *hz_bits }, frames),
        Ok(RunnerCommand::Stop) => (RunnerAction::Exit, frames),
        Err(ReadFailure::Closed) => (RunnerAction::Exit, frames),
        Err(ReadFailure::Error(e)) => (RunnerAction::Fail(cat("failed to read IPC command: ", e.as_str())), frames),
    }
}

} // verus!
