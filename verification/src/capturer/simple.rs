//! A capturer that owns its destination buffer and staging texture,
//! allocating both at construction from the DPI-adjusted geometry, and
//! that double-buffers cursor bitmaps so callers can ask whether the
//! cursor's shape actually changed since the previous capture.

use crate::capturer::custom::{required_buffer_size, spec_check_buffer};
use crate::duplicate_context::{
    copy_prefix, grow_write, lemma_grow_write_prefix, spec_readable_texture_desc, AcquireOutcome,
    AcquiredFrame, DuplicateContext, FrameLease, PointerShape, PointerShapeInfo, TextureDesc,
};
use crate::utils::{Dpi, FrameInfo, OutputDesc};
use crate::CaptureError;
use vstd::prelude::*;

verus! {

/// Captures the screen into a buffer of its own.
pub struct SimpleCapturer {
    buffer: Vec<u8>,
    ctx: DuplicateContext,
    texture_desc: TextureDesc,
    last_pointer_shape_buffer: Vec<u8>,
    last_pointer_shape_buffer_size: usize,
    pointer_shape_buffer: Vec<u8>,
    pointer_shape_buffer_size: usize,
}

impl SimpleCapturer {
    /// The destination buffer's contents.
    pub closed spec fn spec_buffer(self) -> Seq<u8> {
        self.buffer@
    }

    /// The session this capturer draws frames from.
    pub closed spec fn spec_ctx(self) -> DuplicateContext {
        self.ctx
    }

    /// The staging texture this capturer owns.
    pub closed spec fn spec_texture_desc(self) -> TextureDesc {
        self.texture_desc
    }

    /// The "current" cursor-bitmap slot's storage.
    pub closed spec fn spec_shape_buffer(self) -> Seq<u8> {
        self.pointer_shape_buffer@
    }

    /// The "current" slot's recorded valid length.
    pub closed spec fn spec_shape_size(self) -> int {
        self.pointer_shape_buffer_size as int
    }

    /// The "previous" cursor-bitmap slot's storage.
    pub closed spec fn spec_last_shape_buffer(self) -> Seq<u8> {
        self.last_pointer_shape_buffer@
    }

    /// The "previous" slot's recorded valid length.
    pub closed spec fn spec_last_shape_size(self) -> int {
        self.last_pointer_shape_buffer_size as int
    }

    /// Each recorded valid length stays within its backing storage.
    pub open spec fn wf(self) -> bool {
        &&& self.spec_shape_size() <= self.spec_shape_buffer().len()
        &&& self.spec_last_shape_size() <= self.spec_last_shape_buffer().len()
    }

    /// The cursor bitmap currently exposed: the valid prefix of the
    /// "current" slot.
    pub open spec fn current_shape(self) -> Seq<u8> {
        self.spec_shape_buffer().subrange(0, self.spec_shape_size())
    }

    /// The cursor bitmap that was exposed before the last swap: the valid
    /// prefix of the "previous" slot.
    pub open spec fn previous_shape(self) -> Seq<u8> {
        self.spec_last_shape_buffer().subrange(0, self.spec_last_shape_size())
    }

    /// Whether the exposed cursor bitmap differs, in length or in a byte
    /// of its valid prefix, from the one before it.
    pub open spec fn spec_pointer_shape_updated(self) -> bool {
        self.current_shape() != self.previous_shape()
    }

    /// Allocate a capturer for the given geometry and DPI scale: its
    /// destination buffer is zeroed and sized to exactly the required
    /// buffer bytes of the effective (DPI-adjusted) geometry.
    pub fn new(ctx: DuplicateContext, desc: &OutputDesc, dpi: Option<Dpi>) -> (r: SimpleCapturer)
        requires
            desc.wf(),
            desc.spec_pixel_buffer_size(dpi) <= usize::MAX,
        ensures
            r.wf(),
            r.spec_ctx() == ctx,
            r.spec_buffer().len() == desc.spec_pixel_buffer_size(dpi),
            forall|i: int| 0 <= i < r.spec_buffer().len() ==> r.spec_buffer()[i] == 0,
            r.spec_texture_desc() == spec_readable_texture_desc(*desc),
            r.spec_shape_buffer().len() == 0,
            r.spec_shape_size() == 0,
            r.spec_last_shape_buffer().len() == 0,
            r.spec_last_shape_size() == 0,
    {
        let texture_desc = ctx.create_readable_texture(desc);
        let size_wide = required_buffer_size(desc, dpi);
        let size = size_wide as usize;
        let mut buffer: Vec<u8> = Vec::new();
        let mut i: usize = 0;
        while i < size
            invariant
                i <= size,
                buffer@.len() == i,
                forall|k: int| 0 <= k < i ==> buffer@[k] == 0,
            decreases size - i,
        {
            buffer.push(0u8);
            i += 1;
        }
        SimpleCapturer {
            buffer,
            ctx,
            texture_desc,
            last_pointer_shape_buffer: Vec::new(),
            last_pointer_shape_buffer_size: 0,
            pointer_shape_buffer: Vec::new(),
            pointer_shape_buffer_size: 0,
        }
    }

    /// The destination buffer's current contents.
    pub fn buffer(&self) -> (r: &[u8])
        ensures
            r@ == self.spec_buffer(),
    {
        self.buffer.as_slice()
    }

    /// Mutable access to the destination buffer, for callers that consume
    /// the captured image in place.
    pub fn buffer_mut(&mut self) -> (r: &mut Vec<u8>)
        ensures
            (*r)@ == old(self).spec_buffer(),
            final(self).spec_buffer() == (*final(r))@,
            final(self).spec_ctx() == old(self).spec_ctx(),
            final(self).spec_texture_desc() == old(self).spec_texture_desc(),
            shape_state_unchanged(*old(self), *final(self)),
    {
        &mut self.buffer
    }

    /// Fail with `UndersizedBuffer` when the owned buffer is smaller than
    /// the current geometry requires; recomputed on every call, so a
    /// geometry or DPI change after construction is caught.
    pub fn check_buffer(&self, desc: &OutputDesc, dpi: Option<Dpi>) -> (r: Result<
        (),
        CaptureError,
    >)
        requires
            desc.wf(),
        ensures
            r == spec_check_buffer(self.spec_buffer().len() as int, *desc, dpi),
    {
        let required = required_buffer_size(desc, dpi);
        if (self.buffer.len() as u128) < required {
            Err(CaptureError::UndersizedBuffer)
        } else {
            Ok(())
        }
    }

    /// The cursor bitmap most recently swapped in: the valid prefix of the
    /// "current" slot, never its spare capacity.
    pub fn pointer_shape_buffer(&self) -> (r: &[u8])
        requires
            self.wf(),
        ensures
            r@ == self.current_shape(),
    {
        vstd::slice::slice_subrange(
            self.pointer_shape_buffer.as_slice(),
            0,
            self.pointer_shape_buffer_size,
        )
    }

    /// Whether the exposed cursor bitmap changed relative to the one
    /// before it: a size comparison, and only on equal sizes a
    /// byte-for-byte comparison of the valid prefixes.
    pub fn pointer_shape_updated(&self) -> (r: bool)
        requires
            self.wf(),
        ensures
            r == self.spec_pointer_shape_updated(),
    {
        if self.pointer_shape_buffer_size != self.last_pointer_shape_buffer_size {
            proof {
                assert(self.current_shape().len() != self.previous_shape().len());
            }
            true
        } else {
            let len = self.pointer_shape_buffer_size;
            let mut i: usize = 0;
            let mut all_eq: bool = true;
            while i < len
                invariant
                    i <= len,
                    len == self.spec_shape_size(),
                    len == self.spec_last_shape_size(),
                    self.wf(),
                    all_eq == (forall|k: int|
                        0 <= k < i ==> self.spec_shape_buffer()[k]
                            == self.spec_last_shape_buffer()[k]),
                decreases len - i,
            {
                if self.pointer_shape_buffer[i] != self.last_pointer_shape_buffer[i] {
                    all_eq = false;
                }
                i += 1;
            }
            proof {
                if all_eq {
                    assert(self.current_shape() =~= self.previous_shape());
                } else {
                    let k = choose|k: int|
                        0 <= k < len && self.spec_shape_buffer()[k]
                            != self.spec_last_shape_buffer()[k];
                    assert(self.current_shape()[k] != self.previous_shape()[k]);
                }
            }
            !all_eq
        }
    }

    /// Capture one frame into the owned buffer without checking its size.
    pub fn capture(&mut self, outcome: AcquireOutcome, lease: &mut FrameLease) -> (r: Result<
        FrameInfo,
        CaptureError,
    >)
        requires
            old(lease).is_idle(),
        ensures
            final(lease).is_idle(),
            final(self).spec_ctx() == old(self).spec_ctx(),
            final(self).spec_texture_desc() == old(self).spec_texture_desc(),
            shape_state_unchanged(*old(self), *final(self)),
            match outcome {
                AcquireOutcome::Frame(f) => r == Ok::<FrameInfo, CaptureError>(f.info)
                    && final(self).spec_buffer() == copy_prefix(old(self).spec_buffer(), f.data@),
                AcquireOutcome::Timeout => r == Err::<FrameInfo, CaptureError>(
                    CaptureError::FrameTimeout,
                ) && final(self).spec_buffer() == old(self).spec_buffer(),
                AcquireOutcome::AccessLost => r == Err::<FrameInfo, CaptureError>(
                    CaptureError::SessionLost,
                ) && final(self).spec_buffer() == old(self).spec_buffer(),
            },
    {
        let ctx = self.ctx;
        ctx.capture_frame(&mut self.buffer, outcome, lease)
    }

    /// Size-checked capture: `check_buffer` first, so an undersized buffer
    /// always fails with `UndersizedBuffer` before any copy is performed.
    pub fn safe_capture(
        &mut self,
        desc: &OutputDesc,
        dpi: Option<Dpi>,
        outcome: AcquireOutcome,
        lease: &mut FrameLease,
    ) -> (r: Result<FrameInfo, CaptureError>)
        requires
            desc.wf(),
            old(lease).is_idle(),
        ensures
            final(lease).is_idle(),
            final(self).spec_ctx() == old(self).spec_ctx(),
            final(self).spec_texture_desc() == old(self).spec_texture_desc(),
            shape_state_unchanged(*old(self), *final(self)),
            old(self).spec_buffer().len() < desc.spec_pixel_buffer_size(dpi) ==> r == Err::<
                FrameInfo,
                CaptureError,
            >(CaptureError::UndersizedBuffer) && final(self).spec_buffer() == old(
                self,
            ).spec_buffer(),
            old(self).spec_buffer().len() >= desc.spec_pixel_buffer_size(dpi) ==> match outcome {
                AcquireOutcome::Frame(f) => r == Ok::<FrameInfo, CaptureError>(f.info)
                    && final(self).spec_buffer() == copy_prefix(old(self).spec_buffer(), f.data@),
                AcquireOutcome::Timeout => r == Err::<FrameInfo, CaptureError>(
                    CaptureError::FrameTimeout,
                ) && final(self).spec_buffer() == old(self).spec_buffer(),
                AcquireOutcome::AccessLost => r == Err::<FrameInfo, CaptureError>(
                    CaptureError::SessionLost,
                ) && final(self).spec_buffer() == old(self).spec_buffer(),
            },
    {
        match self.check_buffer(desc, dpi) {
            Ok(()) => self.capture(outcome, lease),
            Err(e) => Err(e),
        }
    }

    /// Capture one frame and run the double-buffer policy on any new
    /// cursor bitmap: the bitmap is written into the "previous" slot, and
    /// only when the frame signals a mouse update is the new valid length
    /// recorded there and the two slots swapped, so the "current" slot
    /// exposes the fresh bitmap and the "previous" slot what was exposed
    /// before.
    pub fn capture_with_pointer_shape(&mut self, outcome: AcquireOutcome, lease: &mut FrameLease)
        -> (r: Result<(FrameInfo, Option<PointerShapeInfo>), CaptureError>)
        requires
            old(self).wf(),
            old(lease).is_idle(),
            match outcome {
                AcquireOutcome::Frame(f) => f.wf(),
                _ => true,
            },
        ensures
            final(self).wf(),
            final(lease).is_idle(),
            final(self).spec_ctx() == old(self).spec_ctx(),
            final(self).spec_texture_desc() == old(self).spec_texture_desc(),
            match outcome {
                AcquireOutcome::Frame(f) => {
                    &&& final(self).spec_buffer() == copy_prefix(old(self).spec_buffer(), f.data@)
                    &&& shape_transition(*old(self), f, *final(self))
                    &&& r == Ok::<(FrameInfo, Option<PointerShapeInfo>), CaptureError>(
                        (
                            f.info,
                            match f.pointer_shape {
                                Some(ps) => Some(ps.info),
                                None => None,
                            },
                        ),
                    )
                },
                AcquireOutcome::Timeout => r == Err::<
                    (FrameInfo, Option<PointerShapeInfo>),
                    CaptureError,
                >(CaptureError::FrameTimeout) && final(self).spec_buffer() == old(
                    self,
                ).spec_buffer() && shape_state_unchanged(*old(self), *final(self)),
                AcquireOutcome::AccessLost => r == Err::<
                    (FrameInfo, Option<PointerShapeInfo>),
                    CaptureError,
                >(CaptureError::SessionLost) && final(self).spec_buffer() == old(
                    self,
                ).spec_buffer() && shape_state_unchanged(*old(self), *final(self)),
            },
    {
        let ctx = self.ctx;
        let ghost g_outcome = outcome;
        let ghost pre_last = self.last_pointer_shape_buffer@;
        let res = ctx.capture_with_pointer_shape(
            &mut self.buffer,
            &mut self.last_pointer_shape_buffer,
            outcome,
            lease,
        );
        match res {
            Ok((frame_info, pointer_shape_info)) => {
                if frame_info.last_mouse_update_time == 0 {
                    // record the new bitmap's valid length into the
                    // "previous" slot, then swap the slots, so "current"
                    // holds the freshly written bitmap
                    self.last_pointer_shape_buffer_size = frame_info.pointer_shape_buffer_size
                        as usize;
                    core::mem::swap(
                        &mut self.pointer_shape_buffer,
                        &mut self.last_pointer_shape_buffer,
                    );
                    core::mem::swap(
                        &mut self.pointer_shape_buffer_size,
                        &mut self.last_pointer_shape_buffer_size,
                    );
                    proof {
                        if let AcquireOutcome::Frame(f) = g_outcome {
                            if let Some(ps) = f.pointer_shape {
                                lemma_grow_write_prefix(pre_last, ps.data@);
                            }
                        }
                    }
                }
                Ok((frame_info, pointer_shape_info))
            },
            Err(e) => Err(e),
        }
    }

    /// Size-checked variant of `capture_with_pointer_shape`: an undersized
    /// buffer always fails with `UndersizedBuffer` before any copy.
    pub fn safe_capture_with_pointer_shape(
        &mut self,
        desc: &OutputDesc,
        dpi: Option<Dpi>,
        outcome: AcquireOutcome,
        lease: &mut FrameLease,
    ) -> (r: Result<(FrameInfo, Option<PointerShapeInfo>), CaptureError>)
        requires
            desc.wf(),
            old(self).wf(),
            old(lease).is_idle(),
            match outcome {
                AcquireOutcome::Frame(f) => f.wf(),
                _ => true,
            },
        ensures
            final(self).wf(),
            final(lease).is_idle(),
            final(self).spec_ctx() == old(self).spec_ctx(),
            final(self).spec_texture_desc() == old(self).spec_texture_desc(),
            old(self).spec_buffer().len() < desc.spec_pixel_buffer_size(dpi) ==> r == Err::<
                (FrameInfo, Option<PointerShapeInfo>),
                CaptureError,
            >(CaptureError::UndersizedBuffer) && final(self).spec_buffer() == old(
                self,
            ).spec_buffer() && shape_state_unchanged(*old(self), *final(self)),
            old(self).spec_buffer().len() >= desc.spec_pixel_buffer_size(dpi) ==> match outcome {
                AcquireOutcome::Frame(f) => {
                    &&& final(self).spec_buffer() == copy_prefix(old(self).spec_buffer(), f.data@)
                    &&& shape_transition(*old(self), f, *final(self))
                    &&& r == Ok::<(FrameInfo, Option<PointerShapeInfo>), CaptureError>(
                        (
                            f.info,
                            match f.pointer_shape {
                                Some(ps) => Some(ps.info),
                                None => None,
                            },
                        ),
                    )
                },
                AcquireOutcome::Timeout => r == Err::<
                    (FrameInfo, Option<PointerShapeInfo>),
                    CaptureError,
                >(CaptureError::FrameTimeout) && final(self).spec_buffer() == old(
                    self,
                ).spec_buffer() && shape_state_unchanged(*old(self), *final(self)),
                AcquireOutcome::AccessLost => r == Err::<
                    (FrameInfo, Option<PointerShapeInfo>),
                    CaptureError,
                >(CaptureError::SessionLost) && final(self).spec_buffer() == old(
                    self,
                ).spec_buffer() && shape_state_unchanged(*old(self), *final(self)),
            },
    {
        match self.check_buffer(desc, dpi) {
            Ok(()) => self.capture_with_pointer_shape(outcome, lease),
            Err(e) => Err(e),
        }
    }
}

/// The four components of the double-buffered cursor-shape state equal
/// between two capturer states.
pub open spec fn shape_state_unchanged(a: SimpleCapturer, b: SimpleCapturer) -> bool {
    &&& b.spec_shape_buffer() == a.spec_shape_buffer()
    &&& b.spec_shape_size() == a.spec_shape_size()
    &&& b.spec_last_shape_buffer() == a.spec_last_shape_buffer()
    &&& b.spec_last_shape_size() == a.spec_last_shape_size()
}

/// The double-buffer policy, as a relation between the cursor-shape state
/// before a `capture_with_pointer_shape` call, the delivered frame, and
/// the state after: any new bitmap lands in the "previous" slot, and the
/// slots swap exactly when the frame signals a mouse update.
pub open spec fn shape_transition(pre: SimpleCapturer, f: AcquiredFrame, post: SimpleCapturer) -> bool {
    let written = match f.pointer_shape {
        Some(ps) => grow_write(pre.spec_last_shape_buffer(), ps.data@),
        None => pre.spec_last_shape_buffer(),
    };
    if f.info.spec_mouse_updated() {
        &&& post.spec_shape_buffer() == written
        &&& post.spec_shape_size() == f.info.pointer_shape_buffer_size as int
        &&& post.spec_last_shape_buffer() == pre.spec_shape_buffer()
        &&& post.spec_last_shape_size() == pre.spec_shape_size()
    } else {
        &&& post.spec_shape_buffer() == pre.spec_shape_buffer()
        &&& post.spec_shape_size() == pre.spec_shape_size()
        &&& post.spec_last_shape_buffer() == written
        &&& post.spec_last_shape_size() == pre.spec_last_shape_size()
    }
}

/// Law: a capture that reports no mouse update and carries no new cursor
/// bitmap leaves the whole double-buffered shape state as it was: the
/// exposed bitmap is byte-identical to the previous call's, and
/// `pointer_shape_updated` keeps its prior answer — in particular it stays
/// false when it was false.
pub proof fn lemma_shape_stable_without_mouse_update(
    pre: SimpleCapturer,
    f: AcquiredFrame,
    post: SimpleCapturer,
)
    requires
        f.wf(),
        !f.info.spec_mouse_updated(),
        f.pointer_shape is None,
        shape_transition(pre, f, post),
    ensures
        post.current_shape() == pre.current_shape(),
        post.previous_shape() == pre.previous_shape(),
        post.spec_pointer_shape_updated() == pre.spec_pointer_shape_updated(),
{
}

/// Law: after a capture in which the mouse's shape did change — a new
/// bitmap arrived with the mouse-update signal set, differing in length or
/// in a byte from the bitmap exposed before — `pointer_shape_updated`
/// answers true, the exposed bitmap is exactly the new one, and the
/// "previous" slot exposes what was current before.
pub proof fn lemma_shape_change_detected(
    pre: SimpleCapturer,
    f: AcquiredFrame,
    post: SimpleCapturer,
    ps: PointerShape,
)
    requires
        pre.wf(),
        f.wf(),
        f.info.spec_mouse_updated(),
        f.pointer_shape == Some(ps),
        ps.data@ != pre.current_shape(),
        shape_transition(pre, f, post),
    ensures
        post.current_shape() == ps.data@,
        post.previous_shape() == pre.current_shape(),
        post.spec_pointer_shape_updated(),
{
    lemma_grow_write_prefix(pre.spec_last_shape_buffer(), ps.data@);
}

/// Law: the outcome of a buffer check is a function of the buffer length,
/// the geometry and the DPI scale alone, so repeating the check without an
/// intervening geometry change can never change the outcome.
pub proof fn lemma_check_buffer_idempotent(
    len: int,
    desc: OutputDesc,
    dpi: Option<Dpi>,
    r1: Result<(), CaptureError>,
    r2: Result<(), CaptureError>,
)
    requires
        r1 == spec_check_buffer(len, desc, dpi),
        r2 == spec_check_buffer(len, desc, dpi),
    ensures
        r1 == r2,
{
}

impl DuplicateContext {
    /// A self-allocating capturer drawing from this session.
    pub fn simple_capturer(&self, desc: &OutputDesc, dpi: Option<Dpi>) -> (r: SimpleCapturer)
        requires
            desc.wf(),
            desc.spec_pixel_buffer_size(dpi) <= usize::MAX,
        ensures
            r.wf(),
            r.spec_ctx() == *self,
            r.spec_buffer().len() == desc.spec_pixel_buffer_size(dpi),
            r.spec_texture_desc() == spec_readable_texture_desc(*desc),
            r.spec_shape_buffer().len() == 0,
            r.spec_shape_size() == 0,
            r.spec_last_shape_buffer().len() == 0,
            r.spec_last_shape_size() == 0,
    {
        SimpleCapturer::new(*self, desc, dpi)
    }
}

} // verus!
