//! The frame-lifecycle state machine: acquire, record, submit, present,
//! and transparent recovery when the surface goes stale.
//!
//! The orchestrator owns the decisions of the per-frame protocol; the
//! caller performs each commanded operation against the device and feeds
//! the outcome back as the next input. Two frame slots cycle round-robin by
//! frame counter, and a slot's command buffer is re-recorded only after
//! that slot's "available" fence signal has been observed, so at most two
//! frames are ever in flight. When an acquire reports the surface out of
//! date, the frame is skipped and the swapchain marked invalid; the next
//! frame request then commands a rebuild before any acquire is retried. A
//! usable-but-suboptimal acquire renders the frame and still marks the
//! swapchain invalid; an out-of-date present is tolerated the same way.

use vstd::prelude::*;

verus! {

/// How many frame slots cycle round-robin: double buffering.
pub const SLOT_COUNT: u64 = 2;

/// Where the orchestrator stands inside one frame attempt.
#[derive(Copy, Clone, PartialEq, Eq, Structural, Debug)]
pub enum Phase {
    /// Between frames; ready for the next frame request.
    Ready,
    /// A swapchain rebuild was commanded and has not completed yet.
    Rebuilding,
    /// Waiting for the current slot's "available" fence.
    AwaitingFence,
    /// The fence signalled; an image acquire was commanded.
    AwaitingAcquire,
    /// An image is held; the slot's command buffer is being recorded.
    Recording,
    /// Recording ended; submission and present were commanded.
    Presenting,
}

/// What the caller reports back to the orchestrator.
#[derive(Copy, Clone, PartialEq, Eq, Structural, Debug)]
pub enum FrameInput {
    /// A new frame is requested.
    Begin,
    /// The commanded swapchain rebuild completed.
    Rebuilt,
    /// The current slot's "available" fence signalled.
    FenceSignaled,
    /// An image was acquired; `suboptimal` means it is usable but the
    /// surface no longer matches it exactly.
    Acquired { image: u32, suboptimal: bool },
    /// The acquire reported the surface out of date; no image is held.
    AcquireOutOfDate,
    /// The slot's command buffer was recorded for the held image.
    Recorded,
    /// The present call returned; `out_of_date` means the surface was
    /// reported stale, which is tolerated for this frame.
    Presented { out_of_date: bool },
}

/// What the caller must do next.
#[derive(Copy, Clone, PartialEq, Eq, Structural, Debug)]
pub enum FrameOp {
    /// Idle the device, tear down the per-image views and semaphores and
    /// then the swapchain object, and build a new swapchain.
    Rebuild,
    /// Block until the slot's "available" fence signals.
    WaitFence { slot: u64 },
    /// Acquire the next presentable image, signalling the slot's
    /// "image acquired" semaphore.
    Acquire { slot: u64 },
    /// Reset the slot's fence and record the draw commands for the image
    /// into the slot's command buffer.
    Record { slot: u64, image: u32 },
    /// Submit the slot's command buffer — waiting on the slot's "image
    /// acquired" semaphore, signalling the image's "render finished"
    /// semaphore and the slot's fence — then present the image waiting on
    /// "render finished".
    SubmitAndPresent { slot: u64, image: u32 },
    /// This frame attempt is over without anything rendered.
    Skip,
    /// This frame completed.
    Done,
}

/// Drives the per-frame protocol for one window's swapchain.
#[derive(Copy, Clone, PartialEq, Eq, Structural, Debug)]
pub struct Orchestrator {
    /// Whether the current swapchain may be used; when false, the next
    /// frame request commands a rebuild instead of rendering.
    pub swapchain_valid: bool,
    /// Counts completed frame attempts; only its parity matters.
    pub frame_counter: u64,
    /// Where the orchestrator stands inside the current frame attempt.
    pub phase: Phase,
    /// The image index held while recording and presenting.
    pub image_index: u32,
}

/// The frame slot a counter value selects.
pub open spec fn slot_of(counter: u64) -> u64 {
    counter % SLOT_COUNT
}

/// The counter value after one completed frame; wrapping is fine because
/// only the slot parity is ever read from it.
pub open spec fn next_frame_counter(counter: u64) -> u64 {
    if counter == u64::MAX {
        0
    } else {
        (counter + 1) as u64
    }
}

/// The whole protocol as one transition function: from a state and an
/// input to the next state and the commanded operation. An input that does
/// not belong to the current phase changes nothing and commands nothing.
pub open spec fn frame_step(s: Orchestrator, input: FrameInput) -> (Orchestrator, FrameOp) {
    match input {
        FrameInput::Begin => {
            if s.phase == Phase::Ready {
                if !s.swapchain_valid {
                    (Orchestrator { phase: Phase::Rebuilding, ..s }, FrameOp::Rebuild)
                } else {
                    (
                        Orchestrator { phase: Phase::AwaitingFence, ..s },
                        FrameOp::WaitFence { slot: slot_of(s.frame_counter) },
                    )
                }
            } else {
                (s, FrameOp::Skip)
            }
        },
        FrameInput::Rebuilt => {
            if s.phase == Phase::Rebuilding {
                (
                    Orchestrator { phase: Phase::Ready, swapchain_valid: true, ..s },
                    FrameOp::Skip,
                )
            } else {
                (s, FrameOp::Skip)
            }
        },
        FrameInput::FenceSignaled => {
            if s.phase == Phase::AwaitingFence {
                (
                    Orchestrator { phase: Phase::AwaitingAcquire, ..s },
                    FrameOp::Acquire { slot: slot_of(s.frame_counter) },
                )
            } else {
                (s, FrameOp::Skip)
            }
        },
        FrameInput::Acquired { image, suboptimal } => {
            if s.phase == Phase::AwaitingAcquire {
                (
                    Orchestrator {
                        phase: Phase::Recording,
                        image_index: image,
                        swapchain_valid: s.swapchain_valid && !suboptimal,
                        ..s
                    },
                    FrameOp::Record { slot: slot_of(s.frame_counter), image },
                )
            } else {
                (s, FrameOp::Skip)
            }
        },
        FrameInput::AcquireOutOfDate => {
            if s.phase == Phase::AwaitingAcquire {
                (
                    Orchestrator { phase: Phase::Ready, swapchain_valid: false, ..s },
                    FrameOp::Skip,
                )
            } else {
                (s, FrameOp::Skip)
            }
        },
        FrameInput::Recorded => {
            if s.phase == Phase::Recording {
                (
                    Orchestrator { phase: Phase::Presenting, ..s },
                    FrameOp::SubmitAndPresent {
                        slot: slot_of(s.frame_counter),
                        image: s.image_index,
                    },
                )
            } else {
                (s, FrameOp::Skip)
            }
        },
        FrameInput::Presented { out_of_date } => {
            if s.phase == Phase::Presenting {
                (
                    Orchestrator {
                        phase: Phase::Ready,
                        frame_counter: next_frame_counter(s.frame_counter),
                        swapchain_valid: s.swapchain_valid && !out_of_date,
                        ..s
                    },
                    FrameOp::Done,
                )
            } else {
                (s, FrameOp::Skip)
            }
        },
    }
}

impl Orchestrator {
    /// Starts before any swapchain exists, so the first frame request
    /// commands a rebuild.
    pub fn new() -> (r: Self)
        ensures
            r == (Orchestrator {
                swapchain_valid: false,
                frame_counter: 0,
                phase: Phase::Ready,
                image_index: 0,
            }),
    {
        Orchestrator {
            swapchain_valid: false,
            frame_counter: 0,
            phase: Phase::Ready,
            image_index: 0,
        }
    }

    /// The slot the current frame attempt uses.
    pub fn slot(&self) -> (r: u64)
        ensures
            r == slot_of(self.frame_counter),
            r < SLOT_COUNT,
    {
        self.frame_counter % SLOT_COUNT
    }

    /// Marks the swapchain stale, so the next frame request commands a
    /// rebuild.
    pub fn invalidate_swapchain(&mut self)
        ensures
            *final(self) == (Orchestrator { swapchain_valid: false, ..*old(self) }),
    {
        self.swapchain_valid = false;
    }

    /// Feeds one input to the protocol and returns what to do next,
    /// exactly as [`frame_step`] defines it.
    pub fn step(&mut self, input: FrameInput) -> (op: FrameOp)
        ensures
            (*final(self), op) == frame_step(*old(self), input),
    {
        match input {
            FrameInput::Begin => {
                if self.phase == Phase::Ready {
                    if !self.swapchain_valid {
                        self.phase = Phase::Rebuilding;
                        FrameOp::Rebuild
                    } else {
                        self.phase = Phase::AwaitingFence;
                        FrameOp::WaitFence { slot: self.slot() }
                    }
                } else {
                    FrameOp::Skip
                }
            },
            FrameInput::Rebuilt => {
                if self.phase == Phase::Rebuilding {
                    self.phase = Phase::Ready;
                    self.swapchain_valid = true;
                    FrameOp::Skip
                } else {
                    FrameOp::Skip
                }
            },
            FrameInput::FenceSignaled => {
                if self.phase == Phase::AwaitingFence {
                    self.phase = Phase::AwaitingAcquire;
                    FrameOp::Acquire { slot: self.slot() }
                } else {
                    FrameOp::Skip
                }
            },
            FrameInput::Acquired { image, suboptimal } => {
                if self.phase == Phase::AwaitingAcquire {
                    self.phase = Phase::Recording;
                    self.image_index = image;
                    if suboptimal {
                        self.swapchain_valid = false;
                    }
                    FrameOp::Record { slot: self.slot(), image }
                } else {
                    FrameOp::Skip
                }
            },
            FrameInput::AcquireOutOfDate => {
                if self.phase == Phase::AwaitingAcquire {
                    self.phase = Phase::Ready;
                    self.swapchain_valid = false;
                    FrameOp::Skip
                } else {
                    FrameOp::Skip
                }
            },
            FrameInput::Recorded => {
                if self.phase == Phase::Recording {
                    self.phase = Phase::Presenting;
                    FrameOp::SubmitAndPresent { slot: self.slot(), image: self.image_index }
                } else {
                    FrameOp::Skip
                }
            },
            FrameInput::Presented { out_of_date } => {
                if self.phase == Phase::Presenting {
                    self.phase = Phase::Ready;
                    if self.frame_counter == u64::MAX {
                        self.frame_counter = 0;
                    } else {
                        self.frame_counter = self.frame_counter + 1;
                    }
                    if out_of_date {
                        self.swapchain_valid = false;
                    }
                    FrameOp::Done
                } else {
                    FrameOp::Skip
                }
            },
        }
    }
}

/// Frame slots cycle round-robin: completing a frame always moves to the
/// other slot, wrap-around included.
pub proof fn lemma_slot_round_robin(counter: u64)
    ensures
        slot_of(next_frame_counter(counter)) != slot_of(counter),
{
}

/// Recording is fence-gated: the protocol commands recording a slot's
/// command buffer only on a successful acquire, an acquire is commanded
/// only right after that same slot's fence signal was observed, and the
/// fence wait itself is commanded only on a frame request with a valid
/// swapchain. The frame counter — and with it the slot — stands still from
/// the fence wait to the present, so all three concern the same slot.
pub proof fn lemma_fence_gates_recording(s: Orchestrator, input: FrameInput)
    ensures
        frame_step(s, input).1 matches FrameOp::Record { slot, .. } ==> {
            &&& s.phase == Phase::AwaitingAcquire
            &&& (input matches FrameInput::Acquired { .. })
            &&& slot == slot_of(s.frame_counter)
        },
        s.phase != Phase::AwaitingAcquire && frame_step(s, input).0.phase
            == Phase::AwaitingAcquire ==> {
            &&& s.phase == Phase::AwaitingFence
            &&& input == FrameInput::FenceSignaled
            &&& frame_step(s, input).1 == (FrameOp::Acquire { slot: slot_of(s.frame_counter) })
        },
        s.phase != Phase::AwaitingFence && frame_step(s, input).0.phase == Phase::AwaitingFence
            ==> {
            &&& s.phase == Phase::Ready
            &&& s.swapchain_valid
            &&& input == FrameInput::Begin
            &&& frame_step(s, input).1 == (FrameOp::WaitFence { slot: slot_of(s.frame_counter) })
        },
        frame_step(s, input).0.frame_counter != s.frame_counter ==> {
            &&& s.phase == Phase::Presenting
            &&& (input matches FrameInput::Presented { .. })
            &&& frame_step(s, input).0.frame_counter == next_frame_counter(s.frame_counter)
        },
{
}

/// Staleness is never lost before the rebuild: no input but the completed
/// rebuild itself turns an invalid swapchain back into a valid one.
pub proof fn lemma_invalid_until_rebuilt(s: Orchestrator, input: FrameInput)
    ensures
        !s.swapchain_valid && frame_step(s, input).0.swapchain_valid ==> (s.phase
            == Phase::Rebuilding && input == FrameInput::Rebuilt),
{
}

/// One whole frame, from any ready state with a valid swapchain: the
/// protocol runs fence wait, acquire, record, submit and present in that
/// order, all on the slot the counter selects and on the one acquired
/// image, and the next frame then uses the other slot.
pub proof fn lemma_frame_protocol_run(s: Orchestrator, image: u32, out_of_date: bool)
    requires
        s.phase == Phase::Ready,
        s.swapchain_valid,
    ensures
        ({
            let k = slot_of(s.frame_counter);
            let (s1, op1) = frame_step(s, FrameInput::Begin);
            let (s2, op2) = frame_step(s1, FrameInput::FenceSignaled);
            let (s3, op3) = frame_step(s2, FrameInput::Acquired { image, suboptimal: false });
            let (s4, op4) = frame_step(s3, FrameInput::Recorded);
            let (s5, op5) = frame_step(s4, FrameInput::Presented { out_of_date });
            &&& op1 == (FrameOp::WaitFence { slot: k })
            &&& op2 == (FrameOp::Acquire { slot: k })
            &&& op3 == (FrameOp::Record { slot: k, image })
            &&& op4 == (FrameOp::SubmitAndPresent { slot: k, image })
            &&& op5 == FrameOp::Done
            &&& s5.phase == Phase::Ready
            &&& s5.frame_counter == next_frame_counter(s.frame_counter)
            &&& slot_of(s5.frame_counter) != k
            &&& s5.swapchain_valid == !out_of_date
        }),
{
}

/// Recovery from a stale surface: when the first acquire reports the
/// surface out of date, nothing is recorded, the frame is skipped with the
/// counter untouched, the swapchain is marked invalid, and the next frame
/// request commands a rebuild before any acquire is retried.
pub proof fn lemma_out_of_date_recovery(s: Orchestrator)
    requires
        s.phase == Phase::Ready,
        s.swapchain_valid,
    ensures
        ({
            let k = slot_of(s.frame_counter);
            let (s1, op1) = frame_step(s, FrameInput::Begin);
            let (s2, op2) = frame_step(s1, FrameInput::FenceSignaled);
            let (s3, op3) = frame_step(s2, FrameInput::AcquireOutOfDate);
            let (s4, op4) = frame_step(s3, FrameInput::Begin);
            &&& op1 == (FrameOp::WaitFence { slot: k })
            &&& op2 == (FrameOp::Acquire { slot: k })
            &&& op3 == FrameOp::Skip
            &&& !s3.swapchain_valid
            &&& s3.phase == Phase::Ready
            &&& s3.frame_counter == s.frame_counter
            &&& op4 == FrameOp::Rebuild
        }),
{
}

} // verus!
