use vstd::prelude::*;
use vstd::utf8::is_ascii_chars_encode_utf8;
use crate::display::{blank, overlaid, DisplayBuffer, Frame, TextAlignment};
use crate::fault::{Fault, Outcome};

verus! {

/// How long a frame stays on show before the next one is built, in milliseconds.
pub const HOLD_MILLIS: u32 = 1000;

/// Where the renderer stands in its protocol: the operation it waits on.
#[derive(Clone, Copy, Debug, PartialEq, Eq, Structural)]
pub enum Stage {
    ApplyPreset,
    Initialize,
    Clear,
    Draw,
    Flush,
    Hold,
}

/// What the host has to do next for the renderer.
#[derive(Clone, Copy, Debug, PartialEq, Eq, Structural)]
pub enum DeviceOp {
    /// Hand the device its fixed preset configuration.
    ApplyPreset,
    /// Perform the one-time initialization handshake.
    Initialize,
    /// Switch every pixel of the buffer off.
    Clear,
    /// Render the frame with this index into the buffer.
    Draw { frame: usize },
    /// Transmit the whole buffer to the device.
    Flush,
    /// Keep the frame on show for the display duration.
    Hold,
}

/// The renderer as a mathematical value.
pub struct RendererModel {
    pub frames: Seq<Frame>,
    pub cursor: usize,
    pub stage: Stage,
    pub fault: Option<Fault>,
    pub pixels: Seq<bool>,
}

/// The index of the frame that follows `cursor` in a cycle of `len` frames.
pub open spec fn next_cursor(cursor: usize, len: nat) -> usize {
    if cursor + 1 >= len {
        0
    } else {
        (cursor + 1) as usize
    }
}

impl RendererModel {
    /// There is at least one frame, the cursor points at one, and the
    /// sequence is no longer than a machine can index.
    pub open spec fn wf(self) -> bool {
        self.cursor < self.frames.len() <= usize::MAX
    }

    /// Every frame of the sequence is within the layout limits.
    pub open spec fn all_drawable(self) -> bool {
        forall|i: int| 0 <= i < self.frames.len() ==> (#[trigger] self.frames[i]).drawable()
    }

    /// The renderer before anything was done: the device awaits its preset.
    pub open spec fn initial(frames: Seq<Frame>) -> RendererModel {
        RendererModel {
            frames,
            cursor: 0,
            stage: Stage::ApplyPreset,
            fault: None,
            pixels: blank(),
        }
    }

    /// The operation the host has to perform in this state; `None` once a
    /// fault was recorded.
    pub open spec fn pending_op(self) -> Option<DeviceOp> {
        if self.fault.is_some() {
            None
        } else {
            Some(
                match self.stage {
                    Stage::ApplyPreset => DeviceOp::ApplyPreset,
                    Stage::Initialize => DeviceOp::Initialize,
                    Stage::Clear => DeviceOp::Clear,
                    Stage::Draw => DeviceOp::Draw { frame: self.cursor },
                    Stage::Flush => DeviceOp::Flush,
                    Stage::Hold => DeviceOp::Hold,
                },
            )
        }
    }

    /// The fault that a failure in this stage amounts to.
    pub open spec fn fault_of(stage: Stage) -> Fault {
        match stage {
            Stage::ApplyPreset => Fault::BusInitFailure,
            Stage::Initialize => Fault::BusInitFailure,
            _ => Fault::HardwareIOFailure,
        }
    }

    /// The state after the host reported `outcome` for the pending operation.
    pub open spec fn after(self, outcome: Outcome) -> RendererModel {
        if self.fault.is_some() {
            self
        } else if outcome == Outcome::Failed {
            RendererModel { fault: Some(Self::fault_of(self.stage)), ..self }
        } else {
            match self.stage {
                Stage::ApplyPreset => RendererModel { stage: Stage::Initialize, ..self },
                Stage::Initialize => RendererModel { stage: Stage::Clear, ..self },
                Stage::Clear => RendererModel { stage: Stage::Draw, pixels: blank(), ..self },
                Stage::Draw => if self.frames[self.cursor as int].drawable() {
                    RendererModel {
                        stage: Stage::Flush,
                        pixels: overlaid(self.pixels, self.frames[self.cursor as int].glyph_mask()),
                        ..self
                    }
                } else {
                    RendererModel { fault: Some(Fault::HardwareIOFailure), ..self }
                },
                Stage::Flush => RendererModel { stage: Stage::Hold, ..self },
                Stage::Hold => RendererModel {
                    stage: Stage::Clear,
                    cursor: next_cursor(self.cursor, self.frames.len()),
                    ..self
                },
            }
        }
    }

    /// The state after `n` operations in a row were reported done.
    pub open spec fn run(self, n: nat) -> RendererModel
        decreases n,
    {
        if n == 0 {
            self
        } else {
            self.after(Outcome::Done).run((n - 1) as nat)
        }
    }

    /// The image that is on show while frame `i` is held.
    pub open spec fn image_of(self, i: int) -> Seq<bool> {
        overlaid(blank(), self.frames[i].glyph_mask())
    }
}

/// Owner of the display buffer and of a fixed, non-empty sequence of frames,
/// which it shows one after the other, for ever.
#[derive(Debug)]
pub struct Renderer {
    pub frames: Vec<Frame>,
    pub cursor: usize,
    pub stage: Stage,
    pub fault: Option<Fault>,
    pub buffer: DisplayBuffer,
}

impl View for Renderer {
    type V = RendererModel;

    open spec fn view(&self) -> RendererModel {
        RendererModel {
            frames: self.frames@,
            cursor: self.cursor,
            stage: self.stage,
            fault: self.fault,
            pixels: self.buffer@,
        }
    }
}

impl Renderer {
    pub open spec fn wf(&self) -> bool {
        self@.wf()
    }

    /// Takes ownership of the frames. A renderer needs at least one frame.
    pub fn new(frames: Vec<Frame>) -> (r: Option<Renderer>)
        ensures
            r.is_some() <==> frames@.len() > 0,
            r.is_some() ==> r.unwrap().wf() && r.unwrap()@ == RendererModel::initial(frames@),
    {
        if frames.len() == 0 {
            None
        } else {
            Some(
                Renderer {
                    frames,
                    cursor: 0,
                    stage: Stage::ApplyPreset,
                    fault: None,
                    buffer: DisplayBuffer::new(),
                },
            )
        }
    }

    /// The frames that the board shows: four greetings in the house style.
    pub fn greeting_frames() -> (frames: Vec<Frame>)
        ensures
            frames@.len() == 4,
            frames@[0].text@ == "HELLO\nWORLD"@,
            frames@[1].text@ == "FROM"@,
            frames@[2].text@ == "RUST"@,
            frames@[3].text@ == ":)"@,
            forall|i: int|
                0 <= i < 4 ==> {
                    &&& (#[trigger] frames@[i]).x == 64
                    &&& frames@[i].y == 22
                    &&& frames@[i].alignment == TextAlignment::Center
                    &&& frames@[i].line_height_percent == 150
                    &&& frames@[i].drawable()
                },
    {
        proof {
            reveal_strlit("HELLO\nWORLD");
            reveal_strlit("FROM");
            reveal_strlit("RUST");
            reveal_strlit(":)");
            is_ascii_chars_encode_utf8("HELLO\nWORLD"@);
            is_ascii_chars_encode_utf8("FROM"@);
            is_ascii_chars_encode_utf8("RUST"@);
            is_ascii_chars_encode_utf8(":)"@);
        }
        let mut frames: Vec<Frame> = Vec::new();
        frames.push(Frame::banner("HELLO\nWORLD".to_owned()));
        frames.push(Frame::banner("FROM".to_owned()));
        frames.push(Frame::banner("RUST".to_owned()));
        frames.push(Frame::banner(":)".to_owned()));
        frames
    }

    pub fn pending(&self) -> (op: Option<DeviceOp>)
        ensures
            op == self@.pending_op(),
    {
        if self.fault.is_some() {
            None
        } else {
            Some(
                match self.stage {
                    Stage::ApplyPreset => DeviceOp::ApplyPreset,
                    Stage::Initialize => DeviceOp::Initialize,
                    Stage::Clear => DeviceOp::Clear,
                    Stage::Draw => DeviceOp::Draw { frame: self.cursor },
                    Stage::Flush => DeviceOp::Flush,
                    Stage::Hold => DeviceOp::Hold,
                },
            )
        }
    }

    /// The frame under the cursor.
    pub fn current_frame(&self) -> (f: &Frame)
        requires
            self.wf(),
        ensures
            *f == self@.frames[self@.cursor as int],
    {
        &self.frames[self.cursor]
    }

    /// Takes the outcome of the pending operation and answers with the next one.
    ///
    /// A reported failure is recorded as `BusInitFailure` while the device is
    /// being set up and as `HardwareIOFailure` afterwards; so is a frame that
    /// cannot be drawn. From then on the renderer answers with that fault and
    /// asks for nothing more: the frame is not tried again.
    pub fn advance(&mut self, outcome: Outcome) -> (next: Result<DeviceOp, Fault>)
        requires
            old(self).wf(),
        ensures
            final(self).wf(),
            final(self)@ == old(self)@.after(outcome),
            next == (match final(self)@.fault {
                Some(fault) => Err::<DeviceOp, Fault>(fault),
                None => Ok(final(self)@.pending_op().unwrap()),
            }),
            old(self)@.fault.is_none() && old(self).stage == Stage::Clear && outcome
                == Outcome::Done ==> final(self).buffer@ == blank(),
    {
        if self.fault.is_none() {
            match outcome {
                Outcome::Failed => {
                    self.fault = Some(
                        match self.stage {
                            Stage::ApplyPreset => Fault::BusInitFailure,
                            Stage::Initialize => Fault::BusInitFailure,
                            _ => Fault::HardwareIOFailure,
                        },
                    );
                },
                Outcome::Done => {
                    match self.stage {
                        Stage::ApplyPreset => {
                            self.stage = Stage::Initialize;
                        },
                        Stage::Initialize => {
                            self.stage = Stage::Clear;
                        },
                        Stage::Clear => {
                            self.buffer.clear();
                            self.stage = Stage::Draw;
                        },
                        Stage::Draw => {
                            match self.buffer.draw_frame(&self.frames[self.cursor]) {
                                Ok(_) => {
                                    self.stage = Stage::Flush;
                                },
                                Err(fault) => {
                                    self.fault = Some(fault);
                                },
                            }
                        },
                        Stage::Flush => {
                            self.stage = Stage::Hold;
                        },
                        Stage::Hold => {
                            let len: usize = self.frames.len();
                            let cursor: usize = self.cursor;
                            self.cursor = if cursor >= len - 1 {
                                0
                            } else {
                                cursor + 1
                            };
                            self.stage = Stage::Clear;
                        },
                    }
                },
            }
        }
        match self.fault {
            Some(fault) => Err(fault),
            None => Ok(
                match self.stage {
                    Stage::ApplyPreset => DeviceOp::ApplyPreset,
                    Stage::Initialize => DeviceOp::Initialize,
                    Stage::Clear => DeviceOp::Clear,
                    Stage::Draw => DeviceOp::Draw { frame: self.cursor },
                    Stage::Flush => DeviceOp::Flush,
                    Stage::Hold => DeviceOp::Hold,
                },
            ),
        }
    }
}

/// The device is configured and initialized, in this order, before the first
/// frame is started; the first frame is the first of the sequence.
pub proof fn lemma_setup_precedes_frames(frames: Seq<Frame>)
    ensures
        RendererModel::initial(frames).pending_op() == Some(DeviceOp::ApplyPreset),
        RendererModel::initial(frames).run(1).pending_op() == Some(DeviceOp::Initialize),
        RendererModel::initial(frames).run(2) == (RendererModel {
            stage: Stage::Clear,
            ..RendererModel::initial(frames)
        }),
{
    reveal_with_fuel(RendererModel::run, 3);
}

/// A fault is final: once one is recorded the renderer asks for nothing, the
/// operation that failed is not asked for again, and no report changes the state.
pub proof fn lemma_fault_is_final(r: RendererModel, later: Outcome)
    requires
        r.fault.is_none(),
    ensures
        r.after(Outcome::Failed).fault == Some(RendererModel::fault_of(r.stage)),
        r.after(Outcome::Failed).pending_op().is_none(),
        r.after(Outcome::Failed).pixels == r.pixels,
        r.after(Outcome::Failed).after(later) == r.after(Outcome::Failed),
{
}

/// Running `a + b` operations is running `a` and then `b`.
pub proof fn lemma_run_split(r: RendererModel, a: nat, b: nat)
    ensures
        r.run(a + b) == r.run(a).run(b),
    decreases a,
{
    if a > 0 {
        lemma_run_split(r.after(Outcome::Done), (a - 1) as nat, b);
    }
}

/// One frame, from its start: the renderer asks for clear, draw of the frame
/// under the cursor, flush and hold, in this order. Right after the clear
/// every pixel is off; what is flushed and held is the frame's glyphs on an
/// otherwise dark display; then the cursor moves on and the next frame starts.
pub proof fn lemma_frame_protocol(r: RendererModel)
    requires
        r.wf(),
        r.fault.is_none(),
        r.stage == Stage::Clear,
        r.frames[r.cursor as int].drawable(),
    ensures
        r.pending_op() == Some(DeviceOp::Clear),
        r.run(1).pending_op() == Some(DeviceOp::Draw { frame: r.cursor }),
        r.run(1).pixels == blank(),
        r.run(2).pending_op() == Some(DeviceOp::Flush),
        r.run(2).pixels == r.image_of(r.cursor as int),
        r.run(3).pending_op() == Some(DeviceOp::Hold),
        r.run(3).pixels == r.image_of(r.cursor as int),
        r.run(4) == (RendererModel {
            cursor: next_cursor(r.cursor, r.frames.len()),
            pixels: r.image_of(r.cursor as int),
            ..r
        }),
{
    reveal_with_fuel(RendererModel::run, 5);
}

/// After `m` whole frames, `m` no more than the length of the sequence, a
/// renderer that started a frame starts a frame again, `m` places further
/// on in the cycle.
pub proof fn lemma_after_frames(r: RendererModel, m: nat)
    requires
        r.wf(),
        r.fault.is_none(),
        r.stage == Stage::Clear,
        r.all_drawable(),
        m <= r.frames.len(),
    ensures
        r.run(4 * m).frames == r.frames,
        r.run(4 * m).stage == Stage::Clear,
        r.run(4 * m).fault.is_none(),
        r.run(4 * m).cursor == (if r.cursor + m < r.frames.len() {
            r.cursor + m
        } else {
            r.cursor + m - r.frames.len()
        }),
    decreases m,
{
    if m > 0 {
        let before = (m - 1) as nat;
        lemma_after_frames(r, before);
        lemma_run_split(r, 4 * before, 4);
        lemma_frame_protocol(r.run(4 * before));
    }
}

/// Cycling repeats itself. Take a renderer at the start of a frame, with `k`
/// frames. The operation it asks for after `4 * k + j` completed operations is
/// the one it asked for after `j`, and from the first clear on the whole state
/// is the same, buffer included: the second pass over the sequence produces
/// the operations and the images of the first.
pub proof fn lemma_cycle_repeats(r: RendererModel, j: nat)
    requires
        r.wf(),
        r.fault.is_none(),
        r.stage == Stage::Clear,
        r.all_drawable(),
    ensures
        r.run(4 * r.frames.len() + j).pending_op() == r.run(j).pending_op(),
        r.run(4 * r.frames.len() + j).cursor == r.run(j).cursor,
        j >= 1 ==> r.run(4 * r.frames.len() + j) == r.run(j),
{
    let k = r.frames.len();
    let s = r.run(4 * k);
    lemma_after_frames(r, k);
    lemma_run_split(r, 4 * k, j);
    if j >= 1 {
        assert(s.after(Outcome::Done) == r.after(Outcome::Done));
    }
}

} // verus!
