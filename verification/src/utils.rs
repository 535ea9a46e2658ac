//! Display geometry and frame metadata: the pure sizing and classification
//! rules of the capture engine.

use vstd::prelude::*;

verus! {

/// The DPI value at which logical and physical pixels coincide (no scaling).
pub const BASE_DPI: u32 = 96;

/// Bytes per pixel of the fixed 32-bit packed color format (order B,G,R,A).
pub const BYTES_PER_PIXEL: u32 = 4;

/// An effective-DPI pair for one display: `x` scales widths and `y` scales
/// heights.  `BASE_DPI` in both components means an unscaled display.
#[derive(Clone, Copy, Debug, PartialEq, Eq, Structural)]
pub struct Dpi {
    pub x: u32,
    pub y: u32,
}

/// One display output's geometry: the coordinate rectangle of the desktop
/// area it covers, in logical pixels.
#[derive(Clone, Copy, Debug, PartialEq, Eq, Structural)]
pub struct OutputDesc {
    pub left: i32,
    pub top: i32,
    pub right: i32,
    pub bottom: i32,
}

/// The effective DPI pair: an absent pair means no scaling.
pub open spec fn spec_effective_dpi(dpi: Option<Dpi>) -> Dpi {
    match dpi {
        Some(d) => d,
        None => (Dpi { x: BASE_DPI, y: BASE_DPI }),
    }
}

impl OutputDesc {
    /// A geometry is well formed when its rectangle is not inverted.
    pub open spec fn wf(self) -> bool {
        self.left <= self.right && self.top <= self.bottom
    }

    /// Logical width: the horizontal extent of the coordinate rectangle.
    pub open spec fn spec_width(self) -> int {
        self.right - self.left
    }

    /// Logical height: the vertical extent of the coordinate rectangle.
    pub open spec fn spec_height(self) -> int {
        self.bottom - self.top
    }

    /// Physical width after DPI scaling.
    pub open spec fn spec_pixel_width(self, dpi: Option<Dpi>) -> int {
        self.spec_width() * spec_effective_dpi(dpi).x / BASE_DPI as int
    }

    /// Physical height after DPI scaling.
    pub open spec fn spec_pixel_height(self, dpi: Option<Dpi>) -> int {
        self.spec_height() * spec_effective_dpi(dpi).y / BASE_DPI as int
    }

    /// Bytes a destination buffer must hold for one logical-sized frame.
    pub open spec fn spec_buffer_size(self) -> int {
        self.spec_width() * self.spec_height() * (BYTES_PER_PIXEL as int)
    }

    /// Bytes a destination buffer must hold for one DPI-adjusted frame:
    /// the required buffer size for the current geometry.
    pub open spec fn spec_pixel_buffer_size(self, dpi: Option<Dpi>) -> int {
        self.spec_pixel_width(dpi) * self.spec_pixel_height(dpi) * (BYTES_PER_PIXEL as int)
    }
}

/// Sizing queries on a display geometry.
pub trait OutputDescExt {
    /// Whether the geometry's rectangle is not inverted.
    spec fn ext_wf(&self) -> bool;

    /// Logical width in the specification's terms.
    spec fn ext_width(&self) -> int;

    /// Logical height in the specification's terms.
    spec fn ext_height(&self) -> int;

    /// Logical width of the display.
    fn width(&self) -> (r: u32)
        requires
            self.ext_wf(),
        ensures
            r == self.ext_width(),
    ;

    /// Logical height of the display.
    fn height(&self) -> (r: u32)
        requires
            self.ext_wf(),
        ensures
            r == self.ext_height(),
    ;

    /// Needed destination buffer size in bytes, for an unscaled display.
    fn calc_buffer_size(&self) -> (r: usize)
        requires
            self.ext_wf(),
            self.ext_width() * self.ext_height() * (BYTES_PER_PIXEL as int) <= usize::MAX,
        ensures
            r == self.ext_width() * self.ext_height() * (BYTES_PER_PIXEL as int),
    ;
}

impl OutputDescExt for OutputDesc {
    open spec fn ext_wf(&self) -> bool {
        self.wf()
    }

    open spec fn ext_width(&self) -> int {
        self.spec_width()
    }

    open spec fn ext_height(&self) -> int {
        self.spec_height()
    }

    fn width(&self) -> (r: u32) {
        ((self.right as i64) - (self.left as i64)) as u32
    }

    fn height(&self) -> (r: u32) {
        ((self.bottom as i64) - (self.top as i64)) as u32
    }

    fn calc_buffer_size(&self) -> (r: usize) {
        let w = self.width() as u64;
        let h = self.height() as u64;
        proof {
            assert(w * h <= 0xffff_ffffu64 * 0xffff_ffffu64) by (nonlinear_arith)
                requires
                    w <= 0xffff_ffffu64,
                    h <= 0xffff_ffffu64,
            ;
            assert(w * h * 4 == self.spec_buffer_size());
        }
        let pixels = w * h;
        (pixels * 4) as usize
    }
}

/// Metadata of one frame acquisition, as the compositor reports it.
///
/// `last_present_time` is a monotonically non-decreasing timestamp; zero
/// means no new desktop content since the previous successful acquisition.
/// `last_mouse_update_time` signals a cursor position-or-shape change by its
/// zero-ness.  `pointer_shape_buffer_size` is the byte size of any newly
/// produced cursor bitmap, zero if none was produced.
#[derive(Clone, Copy, Debug, PartialEq, Eq, Structural)]
pub struct FrameInfo {
    pub last_present_time: i64,
    pub last_mouse_update_time: i64,
    pub pointer_shape_buffer_size: u32,
}

impl FrameInfo {
    /// Whether the desktop image itself was redrawn since the last
    /// acquisition: the zero/non-zero present timestamp is the sole signal.
    pub open spec fn spec_desktop_updated(self) -> bool {
        self.last_present_time > 0
    }

    /// Whether the mouse's shape or position changed: signalled by a zero
    /// mouse-update timestamp.
    pub open spec fn spec_mouse_updated(self) -> bool {
        self.last_mouse_update_time == 0
    }
}

/// Update classification of a frame acquisition's metadata.
pub trait FrameInfoExt {
    /// The desktop-update signal in the specification's terms.
    spec fn ext_desktop_updated(&self) -> bool;

    /// The mouse-update signal in the specification's terms.
    spec fn ext_mouse_updated(&self) -> bool;

    /// True when the frame carries new desktop content.
    fn desktop_updated(&self) -> (r: bool)
        ensures
            r == self.ext_desktop_updated(),
    ;

    /// True when the mouse's shape or position changed.
    fn mouse_updated(&self) -> (r: bool)
        ensures
            r == self.ext_mouse_updated(),
    ;
}

impl FrameInfoExt for FrameInfo {
    open spec fn ext_desktop_updated(&self) -> bool {
        self.spec_desktop_updated()
    }

    open spec fn ext_mouse_updated(&self) -> bool {
        self.spec_mouse_updated()
    }

    fn desktop_updated(&self) -> (r: bool) {
        self.last_present_time > 0
    }

    fn mouse_updated(&self) -> (r: bool) {
        self.last_mouse_update_time == 0
    }
}

/// Law: for every display geometry and DPI scale, the required buffer size
/// is the physical width times the physical height times the bytes per
/// pixel of the fixed color format.
pub proof fn lemma_required_buffer_bytes(desc: OutputDesc, dpi: Option<Dpi>)
    ensures
        desc.spec_pixel_buffer_size(dpi) == desc.spec_pixel_width(dpi) * desc.spec_pixel_height(
            dpi,
        ) * 4,
{
}

/// Law: without a DPI scale pair, physical and logical pixels coincide, so
/// the required buffer size is the plain width-times-height-times-four of
/// the logical geometry.
pub proof fn lemma_unscaled_buffer_size(desc: OutputDesc)
    ensures
        desc.spec_pixel_width(None) == desc.spec_width(),
        desc.spec_pixel_height(None) == desc.spec_height(),
        desc.spec_pixel_buffer_size(None) == desc.spec_buffer_size(),
{
    let b = BASE_DPI as int;
    vstd::arithmetic::div_mod::lemma_div_multiples_vanish(desc.spec_width(), b);
    vstd::arithmetic::div_mod::lemma_div_multiples_vanish(desc.spec_height(), b);
    assert(desc.spec_width() * b == b * desc.spec_width());
    assert(desc.spec_height() * b == b * desc.spec_height());
}

/// Law: the desktop-update signal is false exactly on a zero present
/// timestamp, for every non-negative timestamp a compositor can report.
pub proof fn lemma_desktop_updated_polarity(info: FrameInfo)
    requires
        info.last_present_time >= 0,
    ensures
        info.spec_desktop_updated() <==> info.last_present_time != 0,
{
}

/// Law: the mouse-update signal is true exactly on a zero mouse-update
/// timestamp, for every frame metadata value.
pub proof fn lemma_mouse_updated_polarity(info: FrameInfo)
    ensures
        info.spec_mouse_updated() <==> info.last_mouse_update_time == 0,
{
}

} // verus!
