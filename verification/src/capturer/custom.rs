//! A capturer around a caller-supplied destination buffer and staging
//! texture; it never allocates screen storage of its own.

use crate::duplicate_context::{
    copy_prefix, spec_readable_texture_desc, AcquireOutcome, DuplicateContext, FrameLease,
    PointerShapeInfo, TextureDesc,
};
use crate::utils::{Dpi, FrameInfo, OutputDesc};
use crate::CaptureError;
use vstd::prelude::*;

verus! {

/// The outcome a buffer check owes for a given buffer length, geometry and
/// DPI scale: too small is refused as `UndersizedBuffer`, anything else
/// passes.  Recomputed from the current geometry on every check, never
/// cached.
pub open spec fn spec_check_buffer(len: int, desc: OutputDesc, dpi: Option<Dpi>) -> Result<
    (),
    CaptureError,
> {
    if len < desc.spec_pixel_buffer_size(dpi) {
        Err(CaptureError::UndersizedBuffer)
    } else {
        Ok(())
    }
}

/// The required buffer size for a geometry and DPI scale, computed without
/// any overflow restriction on the inputs.
pub fn required_buffer_size(desc: &OutputDesc, dpi: Option<Dpi>) -> (r: u128)
    requires
        desc.wf(),
    ensures
        r == desc.spec_pixel_buffer_size(dpi),
{
    let (dx, dy): (u32, u32) = match dpi {
        Some(d) => (d.x, d.y),
        None => (96u32, 96u32),
    };
    let w = (((desc.right as i64) - (desc.left as i64)) as u64) as u128;
    let h = (((desc.bottom as i64) - (desc.top as i64)) as u64) as u128;
    proof {
        let m: int = 0xffff_ffff;
        assert(w * (dx as u128) <= m * m) by (nonlinear_arith)
            requires
                w <= m,
                dx as u128 <= m,
        ;
        assert(h * (dy as u128) <= m * m) by (nonlinear_arith)
            requires
                h <= m,
                dy as u128 <= m,
        ;
    }
    let pw = w * (dx as u128) / 96;
    let ph = h * (dy as u128) / 96;
    proof {
        let m: int = 0xffff_ffff;
        vstd::arithmetic::div_mod::lemma_div_is_ordered(w * (dx as u128), m * m, 96);
        vstd::arithmetic::div_mod::lemma_div_is_ordered(h * (dy as u128), m * m, 96);
        assert(pw * ph <= (m * m / 96) * (m * m / 96)) by (nonlinear_arith)
            requires
                0 <= pw <= m * m / 96,
                0 <= ph <= m * m / 96,
        ;
    }
    pw * ph * 4
}

/// Every observable component of a capturer equal between two states:
/// nothing happened.
pub open spec fn unchanged_state(a: CustomCapturer, b: CustomCapturer) -> bool {
    &&& b.spec_buffer() == a.spec_buffer()
    &&& b.spec_ctx() == a.spec_ctx()
    &&& b.spec_texture_desc() == a.spec_texture_desc()
    &&& b.spec_shape_buffer() == a.spec_shape_buffer()
    &&& b.spec_shape_size() == a.spec_shape_size()
}

/// Captures the screen into a chunk of memory the caller handed over.
pub struct CustomCapturer {
    buffer: Vec<u8>,
    ctx: DuplicateContext,
    texture_desc: TextureDesc,
    pointer_shape_buffer: Vec<u8>,
    pointer_shape_buffer_size: usize,
}

impl CustomCapturer {
    /// The destination buffer's contents.
    pub closed spec fn spec_buffer(self) -> Seq<u8> {
        self.buffer@
    }

    /// The session this capturer draws frames from.
    pub closed spec fn spec_ctx(self) -> DuplicateContext {
        self.ctx
    }

    /// The staging texture this capturer owns.
    pub closed spec fn spec_texture_desc(self) -> TextureDesc {
        self.texture_desc
    }

    /// The cursor-bitmap storage, valid only up to the recorded size.
    pub closed spec fn spec_shape_buffer(self) -> Seq<u8> {
        self.pointer_shape_buffer@
    }

    /// The recorded valid length of the cursor-bitmap storage.
    pub closed spec fn spec_shape_size(self) -> int {
        self.pointer_shape_buffer_size as int
    }

    /// The recorded valid length never exceeds the backing storage.
    pub open spec fn wf(self) -> bool {
        self.spec_shape_size() <= self.spec_shape_buffer().len()
    }

    /// The cursor bitmap currently exposed: the valid prefix of the
    /// shape storage.
    pub open spec fn current_shape(self) -> Seq<u8> {
        self.spec_shape_buffer().subrange(0, self.spec_shape_size())
    }

    /// Wrap a caller-supplied destination buffer and an already-created
    /// staging texture.
    pub fn with_texture(ctx: DuplicateContext, buffer: Vec<u8>, texture_desc: TextureDesc) -> (r:
        CustomCapturer)
        ensures
            r.wf(),
            r.spec_ctx() == ctx,
            r.spec_buffer() == buffer@,
            r.spec_texture_desc() == texture_desc,
            r.spec_shape_buffer().len() == 0,
            r.spec_shape_size() == 0,
    {
        CustomCapturer {
            buffer,
            ctx,
            texture_desc,
            pointer_shape_buffer: Vec::new(),
            pointer_shape_buffer_size: 0,
        }
    }

    /// Wrap a caller-supplied destination buffer, creating the staging
    /// texture description for the given geometry.
    pub fn new(ctx: DuplicateContext, buffer: Vec<u8>, desc: &OutputDesc) -> (r: CustomCapturer)
        requires
            desc.wf(),
        ensures
            r.wf(),
            r.spec_ctx() == ctx,
            r.spec_buffer() == buffer@,
            r.spec_texture_desc() == spec_readable_texture_desc(*desc),
            r.spec_shape_buffer().len() == 0,
            r.spec_shape_size() == 0,
    {
        let texture_desc = ctx.create_readable_texture(desc);
        CustomCapturer::with_texture(ctx, buffer, texture_desc)
    }

    /// The destination buffer's current contents.
    pub fn buffer(&self) -> (r: &[u8])
        ensures
            r@ == self.spec_buffer(),
    {
        self.buffer.as_slice()
    }

    /// Mutable access to the destination buffer, for callers that consume
    /// the captured image in place.
    pub fn buffer_mut(&mut self) -> (r: &mut Vec<u8>)
        ensures
            (*r)@ == old(self).spec_buffer(),
            final(self).spec_buffer() == (*final(r))@,
            final(self).spec_ctx() == old(self).spec_ctx(),
            final(self).spec_texture_desc() == old(self).spec_texture_desc(),
            final(self).spec_shape_buffer() == old(self).spec_shape_buffer(),
            final(self).spec_shape_size() == old(self).spec_shape_size(),
    {
        &mut self.buffer
    }

    /// Hand the caller-supplied destination buffer back, ending this
    /// capturer's borrow of it.
    pub fn into_buffer(self) -> (r: Vec<u8>)
        ensures
            r@ == self.spec_buffer(),
    {
        self.buffer
    }

    /// Fail with `UndersizedBuffer` when the wrapped buffer is smaller
    /// than the current geometry requires; recomputed on every call, so a
    /// geometry change between calls is caught.
    pub fn check_buffer(&self, desc: &OutputDesc, dpi: Option<Dpi>) -> (r: Result<
        (),
        CaptureError,
    >)
        requires
            desc.wf(),
        ensures
            r == spec_check_buffer(self.spec_buffer().len() as int, *desc, dpi),
    {
        let required = required_buffer_size(desc, dpi);
        if (self.buffer.len() as u128) < required {
            Err(CaptureError::UndersizedBuffer)
        } else {
            Ok(())
        }
    }

    /// The cursor bitmap most recently extracted: the valid prefix of the
    /// shape storage, never its spare capacity.
    pub fn pointer_shape_buffer(&self) -> (r: &[u8])
        requires
            self.wf(),
        ensures
            r@ == self.current_shape(),
    {
        vstd::slice::slice_subrange(
            self.pointer_shape_buffer.as_slice(),
            0,
            self.pointer_shape_buffer_size,
        )
    }

    /// Capture one frame into the wrapped buffer without checking its
    /// size: for callers that validated sizing once and know the geometry
    /// is static for the capture loop's lifetime.
    pub fn capture(&mut self, outcome: AcquireOutcome, lease: &mut FrameLease) -> (r: Result<
        FrameInfo,
        CaptureError,
    >)
        requires
            old(lease).is_idle(),
        ensures
            final(lease).is_idle(),
            final(self).spec_ctx() == old(self).spec_ctx(),
            final(self).spec_texture_desc() == old(self).spec_texture_desc(),
            final(self).spec_shape_buffer() == old(self).spec_shape_buffer(),
            final(self).spec_shape_size() == old(self).spec_shape_size(),
            match outcome {
                AcquireOutcome::Frame(f) => r == Ok::<FrameInfo, CaptureError>(f.info)
                    && final(self).spec_buffer() == copy_prefix(old(self).spec_buffer(), f.data@),
                AcquireOutcome::Timeout => r == Err::<FrameInfo, CaptureError>(
                    CaptureError::FrameTimeout,
                ) && final(self).spec_buffer() == old(self).spec_buffer(),
                AcquireOutcome::AccessLost => r == Err::<FrameInfo, CaptureError>(
                    CaptureError::SessionLost,
                ) && final(self).spec_buffer() == old(self).spec_buffer(),
            },
    {
        let ctx = self.ctx;
        ctx.capture_frame(&mut self.buffer, outcome, lease)
    }

    /// Size-checked capture: `check_buffer` first, so an undersized buffer
    /// always fails with `UndersizedBuffer` before any copy is performed.
    pub fn safe_capture(
        &mut self,
        desc: &OutputDesc,
        dpi: Option<Dpi>,
        outcome: AcquireOutcome,
        lease: &mut FrameLease,
    ) -> (r: Result<FrameInfo, CaptureError>)
        requires
            desc.wf(),
            old(lease).is_idle(),
        ensures
            final(lease).is_idle(),
            final(self).spec_ctx() == old(self).spec_ctx(),
            final(self).spec_texture_desc() == old(self).spec_texture_desc(),
            final(self).spec_shape_buffer() == old(self).spec_shape_buffer(),
            final(self).spec_shape_size() == old(self).spec_shape_size(),
            old(self).spec_buffer().len() < desc.spec_pixel_buffer_size(dpi) ==> r == Err::<
                FrameInfo,
                CaptureError,
            >(CaptureError::UndersizedBuffer) && final(self).spec_buffer() == old(
                self,
            ).spec_buffer(),
            old(self).spec_buffer().len() >= desc.spec_pixel_buffer_size(dpi) ==> match outcome {
                AcquireOutcome::Frame(f) => r == Ok::<FrameInfo, CaptureError>(f.info)
                    && final(self).spec_buffer() == copy_prefix(old(self).spec_buffer(), f.data@),
                AcquireOutcome::Timeout => r == Err::<FrameInfo, CaptureError>(
                    CaptureError::FrameTimeout,
                ) && final(self).spec_buffer() == old(self).spec_buffer(),
                AcquireOutcome::AccessLost => r == Err::<FrameInfo, CaptureError>(
                    CaptureError::SessionLost,
                ) && final(self).spec_buffer() == old(self).spec_buffer(),
            },
    {
        match self.check_buffer(desc, dpi) {
            Ok(()) => self.capture(outcome, lease),
            Err(e) => Err(e),
        }
    }

    /// Capture one frame and extract a newly produced cursor bitmap, if
    /// any, into this capturer's single shape buffer; its valid length is
    /// recorded only when a new bitmap arrived.
    pub fn capture_with_pointer_shape(&mut self, outcome: AcquireOutcome, lease: &mut FrameLease)
        -> (r: Result<(FrameInfo, Option<PointerShapeInfo>), CaptureError>)
        requires
            old(self).wf(),
            old(lease).is_idle(),
            match outcome {
                AcquireOutcome::Frame(f) => f.wf(),
                _ => true,
            },
        ensures
            final(self).wf(),
            final(lease).is_idle(),
            final(self).spec_ctx() == old(self).spec_ctx(),
            final(self).spec_texture_desc() == old(self).spec_texture_desc(),
            match outcome {
                AcquireOutcome::Frame(f) => {
                    &&& final(self).spec_buffer() == copy_prefix(old(self).spec_buffer(), f.data@)
                    &&& match f.pointer_shape {
                        Some(ps) => r == Ok::<
                            (FrameInfo, Option<PointerShapeInfo>),
                            CaptureError,
                        >((f.info, Some(ps.info))) && final(self).current_shape() == ps.data@,
                        None => r == Ok::<(FrameInfo, Option<PointerShapeInfo>), CaptureError>(
                            (f.info, None),
                        ) && final(self).spec_shape_buffer() == old(self).spec_shape_buffer()
                            && final(self).spec_shape_size() == old(self).spec_shape_size(),
                    }
                },
                AcquireOutcome::Timeout => r == Err::<
                    (FrameInfo, Option<PointerShapeInfo>),
                    CaptureError,
                >(CaptureError::FrameTimeout) && final(self).spec_buffer() == old(
                    self,
                ).spec_buffer() && final(self).spec_shape_buffer() == old(self).spec_shape_buffer()
                    && final(self).spec_shape_size() == old(self).spec_shape_size(),
                AcquireOutcome::AccessLost => r == Err::<
                    (FrameInfo, Option<PointerShapeInfo>),
                    CaptureError,
                >(CaptureError::SessionLost) && final(self).spec_buffer() == old(
                    self,
                ).spec_buffer() && final(self).spec_shape_buffer() == old(self).spec_shape_buffer()
                    && final(self).spec_shape_size() == old(self).spec_shape_size(),
            },
    {
        let ctx = self.ctx;
        let ghost pre_shape = self.pointer_shape_buffer@;
        let ghost g_outcome = outcome;
        let res = ctx.capture_with_pointer_shape(
            &mut self.buffer,
            &mut self.pointer_shape_buffer,
            outcome,
            lease,
        );
        match res {
            Ok((frame_info, pointer_shape_info)) => {
                if pointer_shape_info.is_some() {
                    // record the new bitmap's valid length
                    self.pointer_shape_buffer_size = frame_info.pointer_shape_buffer_size as usize;
                    proof {
                        if let AcquireOutcome::Frame(f) = g_outcome {
                            if let Some(ps) = f.pointer_shape {
                                crate::duplicate_context::lemma_grow_write_prefix(
                                    pre_shape,
                                    ps.data@,
                                );
                            }
                        }
                    }
                }
                Ok((frame_info, pointer_shape_info))
            },
            Err(e) => Err(e),
        }
    }

    /// Size-checked variant of `capture_with_pointer_shape`: an undersized
    /// buffer always fails with `UndersizedBuffer` before any copy.
    pub fn safe_capture_with_pointer_shape(
        &mut self,
        desc: &OutputDesc,
        dpi: Option<Dpi>,
        outcome: AcquireOutcome,
        lease: &mut FrameLease,
    ) -> (r: Result<(FrameInfo, Option<PointerShapeInfo>), CaptureError>)
        requires
            desc.wf(),
            old(self).wf(),
            old(lease).is_idle(),
            match outcome {
                AcquireOutcome::Frame(f) => f.wf(),
                _ => true,
            },
        ensures
            final(self).wf(),
            final(lease).is_idle(),
            old(self).spec_buffer().len() < desc.spec_pixel_buffer_size(dpi) ==> r == Err::<
                (FrameInfo, Option<PointerShapeInfo>),
                CaptureError,
            >(CaptureError::UndersizedBuffer) && unchanged_state(*old(self), *final(self)),
            old(self).spec_buffer().len() >= desc.spec_pixel_buffer_size(dpi) ==> match outcome {
                AcquireOutcome::Frame(f) => {
                    &&& final(self).spec_buffer() == copy_prefix(old(self).spec_buffer(), f.data@)
                    &&& match f.pointer_shape {
                        Some(ps) => r == Ok::<
                            (FrameInfo, Option<PointerShapeInfo>),
                            CaptureError,
                        >((f.info, Some(ps.info))) && final(self).current_shape() == ps.data@,
                        None => r == Ok::<(FrameInfo, Option<PointerShapeInfo>), CaptureError>(
                            (f.info, None),
                        ) && final(self).spec_shape_buffer() == old(self).spec_shape_buffer()
                            && final(self).spec_shape_size() == old(self).spec_shape_size(),
                    }
                },
                AcquireOutcome::Timeout => r == Err::<
                    (FrameInfo, Option<PointerShapeInfo>),
                    CaptureError,
                >(CaptureError::FrameTimeout) && unchanged_state(*old(self), *final(self)),
                AcquireOutcome::AccessLost => r == Err::<
                    (FrameInfo, Option<PointerShapeInfo>),
                    CaptureError,
                >(CaptureError::SessionLost) && unchanged_state(*old(self), *final(self)),
            },
    {
        match self.check_buffer(desc, dpi) {
            Ok(()) => self.capture_with_pointer_shape(outcome, lease),
            Err(e) => Err(e),
        }
    }
}

impl DuplicateContext {
    /// A capturer over a caller-supplied buffer, drawing from this session.
    pub fn custom_capturer(&self, buffer: Vec<u8>, desc: &OutputDesc) -> (r: CustomCapturer)
        requires
            desc.wf(),
        ensures
            r.wf(),
            r.spec_ctx() == *self,
            r.spec_buffer() == buffer@,
            r.spec_texture_desc() == spec_readable_texture_desc(*desc),
            r.spec_shape_buffer().len() == 0,
            r.spec_shape_size() == 0,
    {
        CustomCapturer::new(*self, buffer, desc)
    }
}

} // verus!
