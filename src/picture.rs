//! Decoded pictures: a shared handle over the engine's frame record, read
//! through accessors that never fail.
use std::rc::Rc;
use vstd::prelude::*;

verus! {

/// The engine's layout enumerator for monochrome frames.
pub const LAYOUT_I400: u32 = 0;

/// The engine's layout enumerator for 4:2:0 chroma subsampling.
pub const LAYOUT_I420: u32 = 1;

/// The engine's layout enumerator for 4:2:2 chroma subsampling.
pub const LAYOUT_I422: u32 = 2;

/// The engine's layout enumerator for full chroma resolution.
pub const LAYOUT_I444: u32 = 3;

/// The timestamp value by which the engine says that a frame has none.
pub const NO_TIMESTAMP: i64 = i64::MIN;

/// Chroma subsampling of a decoded frame.
#[derive(Debug, Clone, Copy, PartialEq, Eq, Structural)]
pub enum PixelLayout {
    I400,
    I420,
    I422,
    I444,
    Unknown,
}

/// Bits per colour component as signalled by the sequence header (0 when
/// the signal is not recognised).
#[derive(Debug, Clone, Copy, PartialEq, Eq, Structural)]
pub struct BitsPerComponent(pub usize);

/// What the engine reports of one decoded frame, as plain values.
///
/// `data` holds the base address of each plane, `stride` the byte stride of
/// the luma plane and of the chroma planes, `layout` the engine's layout
/// enumerator, `bpc` the per-frame bit depth and `hbd` the sequence header's
/// high-bit-depth field.
#[derive(Debug, Clone, Copy, PartialEq, Eq)]
pub struct FrameRecord {
    pub data: [usize; 3],
    pub stride: [isize; 2],
    pub width: i32,
    pub height: i32,
    pub layout: u32,
    pub bpc: i32,
    pub hbd: u8,
    pub timestamp: i64,
    pub duration: i64,
}

/// The layout classification of an engine layout enumerator: the four known
/// enumerators map one to one, every other value to `Unknown`.
pub open spec fn layout_of(code: u32) -> PixelLayout {
    if code == LAYOUT_I400 {
        PixelLayout::I400
    } else if code == LAYOUT_I420 {
        PixelLayout::I420
    } else if code == LAYOUT_I422 {
        PixelLayout::I422
    } else if code == LAYOUT_I444 {
        PixelLayout::I444
    } else {
        PixelLayout::Unknown
    }
}

/// Bits per component signalled by a high-bit-depth field.
pub open spec fn bits_of(hbd: u8) -> usize {
    if hbd == 0 {
        8
    } else if hbd == 1 {
        10
    } else if hbd == 2 {
        12
    } else {
        0
    }
}

/// The presentation timestamp of a raw timestamp field.
pub open spec fn timestamp_of(ts: i64) -> Option<i64> {
    if ts == NO_TIMESTAMP {
        None
    } else {
        Some(ts)
    }
}

/// Which of the two stride entries serves plane `component`: the first for
/// luma, the second for both chroma planes.
pub open spec fn stride_slot(component: usize) -> int {
    if component == 0 {
        0
    } else {
        1
    }
}

/// Layout classification is one to one on the four known enumerators, and
/// every other enumerator is classified as `Unknown` rather than refused.
pub proof fn lemma_layout_classification(a: u32, b: u32)
    ensures
        layout_of(LAYOUT_I400) == PixelLayout::I400,
        layout_of(LAYOUT_I420) == PixelLayout::I420,
        layout_of(LAYOUT_I422) == PixelLayout::I422,
        layout_of(LAYOUT_I444) == PixelLayout::I444,
        a > LAYOUT_I444 ==> layout_of(a) == PixelLayout::Unknown,
        layout_of(a) == layout_of(b) && layout_of(a) != PixelLayout::Unknown ==> a == b,
{
}

/// Classifies an engine layout enumerator.
pub fn classify_layout(code: u32) -> (r: PixelLayout)
    ensures
        r == layout_of(code),
{
    if code == LAYOUT_I400 {
        PixelLayout::I400
    } else if code == LAYOUT_I420 {
        PixelLayout::I420
    } else if code == LAYOUT_I422 {
        PixelLayout::I422
    } else if code == LAYOUT_I444 {
        PixelLayout::I444
    } else {
        PixelLayout::Unknown
    }
}

/// Reads a raw timestamp field, with the sentinel read as absent.
pub fn read_timestamp(ts: i64) -> (r: Option<i64>)
    ensures
        r == timestamp_of(ts),
{
    if ts == NO_TIMESTAMP {
        None
    } else {
        Some(ts)
    }
}

/// A shared, read-only handle to a decoded frame record.
#[derive(Debug)]
pub struct Picture {
    pic: Rc<FrameRecord>,
}

impl View for Picture {
    type V = FrameRecord;

    closed spec fn view(&self) -> FrameRecord {
        *self.pic
    }
}

impl Picture {
    /// Wraps a frame record that a drain step produced.
    pub fn new(record: FrameRecord) -> (p: Picture)
        ensures
            p@ == record,
    {
        Picture { pic: Rc::new(record) }
    }

    /// The byte stride of plane `component` (0 for luma, 1 and 2 for chroma).
    pub fn stride(&self, component: usize) -> (r: i32)
        requires
            component < 3,
        ensures
            r == self@.stride[stride_slot(component)] as i32,
    {
        let slot: usize = if component == 0 {
            0
        } else {
            1
        };
        self.pic.stride[slot] as i32
    }

    /// The base address of plane `component`.
    pub fn plane_data(&self, component: usize) -> (r: usize)
        requires
            component < 3,
        ensures
            r == self@.data[component as int],
    {
        self.pic.data[component]
    }

    /// The bit depth that the frame parameters report.
    pub fn bit_depth(&self) -> (r: usize)
        ensures
            r == self@.bpc as usize,
    {
        self.pic.bpc as usize
    }

    /// Bits per component as the sequence header signals it.
    pub fn bits_per_component(&self) -> (r: BitsPerComponent)
        ensures
            r.0 == bits_of(self@.hbd),
    {
        match self.pic.hbd {
            0 => BitsPerComponent(8),
            1 => BitsPerComponent(10),
            2 => BitsPerComponent(12),
            _ => BitsPerComponent(0),
        }
    }

    /// The frame width in pixels.
    pub fn width(&self) -> (r: u32)
        ensures
            r == self@.width as u32,
    {
        self.pic.width as u32
    }

    /// The frame height in pixels.
    pub fn height(&self) -> (r: u32)
        ensures
            r == self@.height as u32,
    {
        self.pic.height as u32
    }

    /// The chroma layout; an enumerator this layer does not know gives
    /// `Unknown`.
    pub fn pixel_layout(&self) -> (r: PixelLayout)
        ensures
            r == layout_of(self@.layout),
    {
        classify_layout(self.pic.layout)
    }

    /// The presentation timestamp, absent when the engine reports none.
    pub fn timestamp(&self) -> (r: Option<i64>)
        ensures
            r == timestamp_of(self@.timestamp),
    {
        read_timestamp(self.pic.timestamp)
    }

    /// The display duration in the engine's time-base units.
    pub fn duration(&self) -> (r: i64)
        ensures
            r == self@.duration,
    {
        self.pic.duration
    }
}

} // verus!
