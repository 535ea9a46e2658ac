//! The duplication session: staging-texture sizing, the acquire/release and
//! map/unmap pairing protocol, and the per-frame copy-out rules.
//!
//! The session's operating-system work (waiting on the compositor, GPU
//! copies, surface mapping) happens outside the library; its outcome is
//! handed in as an [`AcquireOutcome`] event, and every decision taken on
//! such an event is verified here.

use crate::utils::{FrameInfo, OutputDesc, OutputDescExt};
use crate::CaptureError;
use vstd::prelude::*;

verus! {

/// Description of the CPU-readable staging texture a capturer owns: a 2-D
/// surface sized to exactly one display's geometry, in the fixed 32-bit
/// color format, made for GPU-to-CPU readback.
#[derive(Clone, Copy, Debug, PartialEq, Eq, Structural)]
pub struct TextureDesc {
    pub width: u32,
    pub height: u32,
    pub mip_levels: u32,
    pub array_size: u32,
    pub sample_count: u32,
    pub sample_quality: u32,
    /// CPU access is read-only; the GPU alone writes the surface.
    pub cpu_read_only: bool,
    /// Staging usage: the surface supports GPU-to-CPU transfer, nothing else.
    pub staging_usage: bool,
    /// Maximum eviction priority, so the surface is not opportunistically
    /// paged out to system memory ahead of need.
    pub max_eviction_priority: bool,
}

/// The staging texture description that a given geometry calls for.
pub open spec fn spec_readable_texture_desc(desc: OutputDesc) -> TextureDesc {
    TextureDesc {
        width: desc.spec_width() as u32,
        height: desc.spec_height() as u32,
        mip_levels: 1,
        array_size: 1,
        sample_count: 1,
        sample_quality: 0,
        cpu_read_only: true,
        staging_usage: true,
        max_eviction_priority: true,
    }
}

/// Metadata of a newly produced cursor bitmap.
#[derive(Clone, Copy, Debug, PartialEq, Eq, Structural)]
pub struct PointerShapeInfo {
    pub shape_type: u32,
    pub width: u32,
    pub height: u32,
    pub pitch: u32,
    pub hot_spot_x: i32,
    pub hot_spot_y: i32,
}

/// A new cursor bitmap: its metadata and its bytes.
pub struct PointerShape {
    pub info: PointerShapeInfo,
    pub data: Vec<u8>,
}

/// One successful frame acquisition as the compositor hands it over: the
/// frame's metadata, the mapped bytes of the staged image, and the new
/// cursor bitmap if the cursor's shape changed this frame.
pub struct AcquiredFrame {
    pub info: FrameInfo,
    pub data: Vec<u8>,
    pub pointer_shape: Option<PointerShape>,
}

impl AcquiredFrame {
    /// The compositor's contract on a delivered frame: cursor-shape bytes
    /// are present exactly when the metadata reports a nonzero shape size,
    /// and their count matches that size.
    pub open spec fn wf(self) -> bool {
        match self.pointer_shape {
            Some(ps) => ps.data@.len() == self.info.pointer_shape_buffer_size
                && self.info.pointer_shape_buffer_size != 0,
            None => self.info.pointer_shape_buffer_size == 0,
        }
    }
}

/// What one attempt to acquire a frame came to: a frame, no frame within
/// the timeout, or an invalidated session.
pub enum AcquireOutcome {
    Frame(AcquiredFrame),
    Timeout,
    AccessLost,
}

/// Tracks the two pairings the session protocol demands: exactly one
/// acquired frame outstanding at a time (acquire/release), and
/// map/unmap of the staging surface always matched, on every exit path.
///
/// The capture loop threads one lease through its calls; each transition's
/// precondition refuses the step that would break a pairing.
pub struct FrameLease {
    frame_held: bool,
    surface_mapped: bool,
}

impl FrameLease {
    /// Whether an acquired frame is currently outstanding.
    pub closed spec fn is_held(self) -> bool {
        self.frame_held
    }

    /// Whether the staging surface is currently mapped for CPU read.
    pub closed spec fn is_mapped(self) -> bool {
        self.surface_mapped
    }

    /// At rest: no frame held and no surface mapped.
    pub open spec fn is_idle(self) -> bool {
        !self.is_held() && !self.is_mapped()
    }

    pub fn new() -> (r: FrameLease)
        ensures
            r.is_idle(),
    {
        FrameLease { frame_held: false, surface_mapped: false }
    }

    /// Exec query of the held state, for callers that must test it.
    pub fn held(&self) -> (r: bool)
        ensures
            r == self.is_held(),
    {
        self.frame_held
    }

    /// Exec query of the mapped state, for callers that must test it.
    pub fn mapped(&self) -> (r: bool)
        ensures
            r == self.is_mapped(),
    {
        self.surface_mapped
    }

    /// Record a successful frame acquisition.  A second acquisition while
    /// one frame is outstanding is the protocol violation this refuses.
    pub fn acquire_frame(&mut self)
        requires
            !old(self).is_held(),
        ensures
            final(self).is_held(),
            final(self).is_mapped() == old(self).is_mapped(),
    {
        self.frame_held = true;
    }

    /// Record the release of the acquired frame.  It must run exactly once
    /// per acquisition, whatever the copy's outcome.
    pub fn release_frame(&mut self)
        requires
            old(self).is_held(),
        ensures
            !final(self).is_held(),
            final(self).is_mapped() == old(self).is_mapped(),
    {
        self.frame_held = false;
    }

    /// Record mapping the staging surface for CPU read.
    pub fn map_surface(&mut self)
        requires
            !old(self).is_mapped(),
        ensures
            final(self).is_mapped(),
            final(self).is_held() == old(self).is_held(),
    {
        self.surface_mapped = true;
    }

    /// Record unmapping the staging surface; must match every map, even on
    /// a failed copy.
    pub fn unmap_surface(&mut self)
        requires
            old(self).is_mapped(),
        ensures
            !final(self).is_mapped(),
            final(self).is_held() == old(self).is_held(),
    {
        self.surface_mapped = false;
    }
}

/// The destination buffer after a flat copy-out: the copied prefix holds
/// the mapped bytes, up to the smaller of the two lengths; the rest of the
/// destination keeps its old contents.  Never grows and never truncates.
pub open spec fn copy_prefix(dest: Seq<u8>, src: Seq<u8>) -> Seq<u8> {
    Seq::new(
        dest.len(),
        |i: int|
            if i < src.len() {
                src[i]
            } else {
                dest[i]
            },
    )
}

/// A growable buffer after writing `src` into it: grown when undersized
/// (so the written bytes always fit), the tail beyond the written prefix
/// kept, so capacity is reused across calls.
pub open spec fn grow_write(dest: Seq<u8>, src: Seq<u8>) -> Seq<u8> {
    if dest.len() < src.len() {
        src
    } else {
        src + dest.subrange(src.len() as int, dest.len() as int)
    }
}

/// The written bytes are the prefix of the buffer after a grown write.
pub proof fn lemma_grow_write_prefix(dest: Seq<u8>, src: Seq<u8>)
    ensures
        grow_write(dest, src).len() >= src.len(),
        grow_write(dest, src).len() == if dest.len() < src.len() {
            src.len()
        } else {
            dest.len()
        },
        grow_write(dest, src).subrange(0, src.len() as int) == src,
{
    if dest.len() < src.len() {
        assert(grow_write(dest, src).subrange(0, src.len() as int) =~= src);
    } else {
        assert(grow_write(dest, src).subrange(0, src.len() as int) =~= src);
    }
}

/// Flat byte copy of `min(dest.len(), src.len())` bytes into the prefix of
/// `dest`; the remainder of `dest` is untouched.
fn copy_into(dest: &mut Vec<u8>, src: &Vec<u8>)
    ensures
        final(dest)@ == copy_prefix(old(dest)@, src@),
{
    let n: usize = if dest.len() < src.len() {
        dest.len()
    } else {
        src.len()
    };
    let mut i: usize = 0;
    while i < n
        invariant
            i <= n,
            n <= dest.len(),
            n <= src.len(),
            dest.len() == old(dest).len(),
            forall|k: int| 0 <= k < i ==> dest@[k] == src@[k],
            forall|k: int| i <= k < dest.len() ==> dest@[k] == old(dest)@[k],
        decreases n - i,
    {
        let b = src[i];
        dest.set(i, b);
        i += 1;
    }
    proof {
        assert(final(dest)@ =~= copy_prefix(old(dest)@, src@));
    }
}

/// Write `src` into the growable buffer `dest`, growing it when it is
/// undersized and reusing its storage otherwise.
fn write_grow(dest: &mut Vec<u8>, src: &Vec<u8>)
    ensures
        final(dest)@ == grow_write(old(dest)@, src@),
{
    if dest.len() < src.len() {
        dest.resize(src.len(), 0u8);
    }
    let n: usize = src.len();
    let mut i: usize = 0;
    while i < n
        invariant
            i <= n,
            n == src.len(),
            n <= dest.len(),
            dest.len() == grow_write(old(dest)@, src@).len(),
            forall|k: int| 0 <= k < i ==> dest@[k] == src@[k],
            forall|k: int| n <= k < dest.len() ==> dest@[k] == old(dest)@[k],
        decreases n - i,
    {
        let b = src[i];
        dest.set(i, b);
        i += 1;
    }
    proof {
        lemma_grow_write_prefix(old(dest)@, src@);
        assert(final(dest)@ =~= grow_write(old(dest)@, src@));
    }
}

/// The duplication session: owns the acquisition timeout and translates
/// "give me a display frame" into the verified per-frame decisions.  The
/// GPU device, output and duplication handles it stands for live with the
/// session's unverified collaborator, which produces the events consumed
/// here.
#[derive(Clone, Copy, Debug, PartialEq, Eq, Structural)]
pub struct DuplicateContext {
    timeout_ms: u32,
}

impl DuplicateContext {
    /// The configured acquisition timeout in milliseconds.
    pub closed spec fn spec_timeout_ms(self) -> u32 {
        self.timeout_ms
    }

    pub fn new(timeout_ms: u32) -> (r: DuplicateContext)
        ensures
            r.spec_timeout_ms() == timeout_ms,
    {
        DuplicateContext { timeout_ms }
    }

    /// How long one acquisition may block waiting for the compositor.
    pub fn timeout_ms(&self) -> (r: u32)
        ensures
            r == self.spec_timeout_ms(),
    {
        self.timeout_ms
    }

    /// The description of a CPU-readable staging texture for the given
    /// geometry: sized to exactly that display, one mip level, one array
    /// slice, no multisampling, staging usage with CPU read access, and
    /// maximum eviction priority.
    pub fn create_readable_texture(&self, desc: &OutputDesc) -> (t: TextureDesc)
        requires
            desc.wf(),
        ensures
            t == spec_readable_texture_desc(*desc),
    {
        TextureDesc {
            width: desc.width(),
            height: desc.height(),
            mip_levels: 1,
            array_size: 1,
            sample_count: 1,
            sample_quality: 0,
            cpu_read_only: true,
            staging_usage: true,
            max_eviction_priority: true,
        }
    }

    /// Classify one acquisition attempt: a timeout is recoverable
    /// (`FrameTimeout`), an invalidated session is not (`SessionLost`),
    /// and a delivered frame is handed through unchanged.
    pub fn acquire_next_frame(&self, outcome: AcquireOutcome) -> (r: Result<
        AcquiredFrame,
        CaptureError,
    >)
        ensures
            match outcome {
                AcquireOutcome::Frame(f) => r == Ok::<AcquiredFrame, CaptureError>(f),
                AcquireOutcome::Timeout => r == Err::<AcquiredFrame, CaptureError>(
                    CaptureError::FrameTimeout,
                ),
                AcquireOutcome::AccessLost => r == Err::<AcquiredFrame, CaptureError>(
                    CaptureError::SessionLost,
                ),
            },
    {
        match outcome {
            AcquireOutcome::Frame(f) => Ok(f),
            AcquireOutcome::Timeout => Err(CaptureError::FrameTimeout),
            AcquireOutcome::AccessLost => Err(CaptureError::SessionLost),
        }
    }

    /// One whole frame capture: classify the acquisition, then copy the
    /// mapped bytes flat into the destination, up to the smaller of the two
    /// lengths.  On every failure the destination is untouched.  The lease
    /// is threaded through the protocol steps and is idle again on every
    /// exit path.
    pub fn capture_frame(
        &self,
        dest: &mut Vec<u8>,
        outcome: AcquireOutcome,
        lease: &mut FrameLease,
    ) -> (r: Result<FrameInfo, CaptureError>)
        requires
            old(lease).is_idle(),
        ensures
            final(lease).is_idle(),
            match outcome {
                AcquireOutcome::Frame(f) => r == Ok::<FrameInfo, CaptureError>(f.info)
                    && final(dest)@ == copy_prefix(old(dest)@, f.data@),
                AcquireOutcome::Timeout => r == Err::<FrameInfo, CaptureError>(
                    CaptureError::FrameTimeout,
                ) && final(dest)@ == old(dest)@,
                AcquireOutcome::AccessLost => r == Err::<FrameInfo, CaptureError>(
                    CaptureError::SessionLost,
                ) && final(dest)@ == old(dest)@,
            },
    {
        match self.acquire_next_frame(outcome) {
            Ok(frame) => {
                lease.acquire_frame();
                // the GPU-side copy into the staging texture happens while
                // the frame is held; it is released before the CPU read.
                lease.release_frame();
                lease.map_surface();
                copy_into(dest, &frame.data);
                lease.unmap_surface();
                Ok(frame.info)
            },
            Err(e) => Err(e),
        }
    }

    /// Extract a newly produced cursor bitmap, if this frame carries one,
    /// into the caller's growable buffer; absent a new shape the buffer is
    /// untouched.  Returns the new bitmap's metadata.
    pub fn extract_pointer_shape(&self, frame: &AcquiredFrame, shape_dest: &mut Vec<u8>) -> (r:
        Option<PointerShapeInfo>)
        ensures
            match frame.pointer_shape {
                Some(ps) => r == Some(ps.info) && final(shape_dest)@ == grow_write(
                    old(shape_dest)@,
                    ps.data@,
                ),
                None => r == None::<PointerShapeInfo> && final(shape_dest)@ == old(shape_dest)@,
            },
    {
        match &frame.pointer_shape {
            Some(ps) => {
                write_grow(shape_dest, &ps.data);
                Some(ps.info)
            },
            None => None,
        }
    }

    /// A whole frame capture followed by cursor-bitmap extraction: the
    /// screen bytes go to `dest`, a new shape's bytes go to `shape_dest`,
    /// and both buffers are untouched on failure.
    pub fn capture_with_pointer_shape(
        &self,
        dest: &mut Vec<u8>,
        shape_dest: &mut Vec<u8>,
        outcome: AcquireOutcome,
        lease: &mut FrameLease,
    ) -> (r: Result<(FrameInfo, Option<PointerShapeInfo>), CaptureError>)
        requires
            old(lease).is_idle(),
        ensures
            final(lease).is_idle(),
            match outcome {
                AcquireOutcome::Frame(f) => {
                    &&& final(dest)@ == copy_prefix(old(dest)@, f.data@)
                    &&& match f.pointer_shape {
                        Some(ps) => r == Ok::<
                            (FrameInfo, Option<PointerShapeInfo>),
                            CaptureError,
                        >((f.info, Some(ps.info))) && final(shape_dest)@ == grow_write(
                            old(shape_dest)@,
                            ps.data@,
                        ),
                        None => r == Ok::<(FrameInfo, Option<PointerShapeInfo>), CaptureError>(
                            (f.info, None),
                        ) && final(shape_dest)@ == old(shape_dest)@,
                    }
                },
                AcquireOutcome::Timeout => r == Err::<
                    (FrameInfo, Option<PointerShapeInfo>),
                    CaptureError,
                >(CaptureError::FrameTimeout) && final(dest)@ == old(dest)@ && final(shape_dest)@
                    == old(shape_dest)@,
                AcquireOutcome::AccessLost => r == Err::<
                    (FrameInfo, Option<PointerShapeInfo>),
                    CaptureError,
                >(CaptureError::SessionLost) && final(dest)@ == old(dest)@ && final(shape_dest)@
                    == old(shape_dest)@,
            },
    {
        match self.acquire_next_frame(outcome) {
            Ok(frame) => {
                lease.acquire_frame();
                lease.release_frame();
                lease.map_surface();
                copy_into(dest, &frame.data);
                lease.unmap_surface();
                let ps_info = self.extract_pointer_shape(&frame, shape_dest);
                Ok((frame.info, ps_info))
            },
            Err(e) => Err(e),
        }
    }
}

/// Law: a capture's destination is not uniformly zero whenever the mapped
/// desktop bytes hold non-black content within the copied prefix.
pub proof fn lemma_capture_content_visible(dest: Seq<u8>, src: Seq<u8>, i: int)
    requires
        0 <= i < src.len(),
        i < dest.len(),
        src[i] != 0,
    ensures
        exists|j: int| 0 <= j < copy_prefix(dest, src).len() && copy_prefix(dest, src)[j] != 0,
{
    assert(copy_prefix(dest, src)[i] != 0);
}

} // verus!
