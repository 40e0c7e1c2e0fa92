//! Data model of the capture pipeline: capturable targets, crop regions,
//! raw frames and the session state enum.

use vstd::prelude::*;

use crate::text::dec_seq;

verus! {

/// What a capture target is: a whole monitor or a single window.
#[derive(Debug, Clone, Copy, PartialEq, Eq, Structural)]
pub enum TargetKind {
    Monitor,
    Window,
}

/// A capturable source with a stable identifier and its geometry.
/// `width`/`height` are the pixel dimensions used for capture;
/// `screen_width`/`screen_height` are the logical (virtual-screen) size.
#[derive(Debug, Clone)]
pub struct CaptureTarget {
    pub id: u32,
    pub name: String,
    pub width: u32,
    pub height: u32,
    pub origin_x: i32,
    pub origin_y: i32,
    pub screen_width: u32,
    pub screen_height: u32,
    pub is_primary: bool,
    pub kind: TargetKind,
}

/// A crop rectangle in target pixel coordinates.
#[derive(Debug, Clone)]
pub struct Region {
    pub x: u32,
    pub y: u32,
    pub width: u32,
    pub height: u32,
}

/// Whether `r` is a non-empty rectangle lying entirely inside a
/// `tw` by `th` target.
pub open spec fn region_fits(r: Region, tw: u32, th: u32) -> bool {
    r.width > 0 && r.height > 0 && r.x + r.width <= tw && r.y + r.height <= th
}

pub open spec fn msg_region_empty() -> Seq<char> {
    "La región de captura debe tener ancho y alto mayores a 0"@
}

pub open spec fn msg_region_width(x: u32, w: u32, tw: u32) -> Seq<char> {
    "La región excede el ancho del target: x("@ + dec_seq(x as int) + ") + width("@ + dec_seq(
        w as int,
    ) + ") > target_width("@ + dec_seq(tw as int) + ")"@
}

pub open spec fn msg_region_height(y: u32, h: u32, th: u32) -> Seq<char> {
    "La región excede el alto del target: y("@ + dec_seq(y as int) + ") + height("@ + dec_seq(
        h as int,
    ) + ") > target_height("@ + dec_seq(th as int) + ")"@
}

impl Region {
    /// Accepts exactly the regions that fit inside the target; each rejection
    /// names what is wrong.
    pub fn validate_against_target(&self, target: &CaptureTarget) -> (r: Result<(), String>)
        ensures
            r is Ok <==> region_fits(*self, target.width, target.height),
            (self.width == 0 || self.height == 0) ==> (r matches Err(m) && m@
                == msg_region_empty()),
            (self.width > 0 && self.height > 0 && self.x + self.width > target.width) ==> (
            r matches Err(m) && m@ == msg_region_width(self.x, self.width, target.width)),
            (self.width > 0 && self.height > 0 && self.x + self.width <= target.width && self.y
                + self.height > target.height) ==> (r matches Err(m) && m@ == msg_region_height(
                self.y,
                self.height,
                target.height,
            )),
    {
        if self.width == 0 || self.height == 0 {
            return Err(String::from_str("La región de captura debe tener ancho y alto mayores a 0"));
        }

        if self.x as u64 + self.width as u64 > target.width as u64 {
            let mut m = String::from_str("La región excede el ancho del target: x(");
            m.append(crate::text::u32_to_string(self.x).as_str());
            m.append(") + width(");
            m.append(crate::text::u32_to_string(self.width).as_str());
            m.append(") > target_width(");
            m.append(crate::text::u32_to_string(target.width).as_str());
            m.append(")");
            assert(m@ =~= msg_region_width(self.x, self.width, target.width));
            return Err(m);
        }

        if self.y as u64 + self.height as u64 > target.height as u64 {
            let mut m = String::from_str("La región excede el alto del target: y(");
            m.append(crate::text::u32_to_string(self.y).as_str());
            m.append(") + height(");
            m.append(crate::text::u32_to_string(self.height).as_str());
            m.append(") > target_height(");
            m.append(crate::text::u32_to_string(target.height).as_str());
            m.append(")");
            assert(m@ =~= msg_region_height(self.y, self.height, target.height));
            return Err(m);
        }

        Ok(())
    }
}

/// One captured frame: CPU BGRA bytes, or a raw Direct3D texture handle
/// (held as an integer; ownership of the reference travels with the frame),
/// or both. `timestamp_ms` is monotone within a session.
#[derive(Debug)]
pub struct RawFrame {
    pub data: Vec<u8>,
    pub width: u32,
    pub height: u32,
    pub row_stride_bytes: u32,
    pub gpu_texture_ptr: Option<usize>,
    pub timestamp_ms: u64,
}

/// The tightest stride a BGRA row of `width` pixels can have, saturated.
pub open spec fn min_row_stride_spec(width: u32) -> u32 {
    if width * 4 > u32::MAX {
        u32::MAX
    } else {
        (width * 4) as u32
    }
}

/// The least number of bytes a CPU frame of this shape must carry, saturated.
pub open spec fn expected_size_spec(height: u32, row_stride_bytes: u32) -> u32 {
    if height * row_stride_bytes > u32::MAX {
        u32::MAX
    } else {
        (height * row_stride_bytes) as u32
    }
}

/// A CPU layout is valid when the dimensions are non-zero, the stride covers
/// a row, and the buffer covers all rows.
pub open spec fn cpu_layout_valid(f: RawFrame) -> bool {
    f.width > 0 && f.height > 0 && f.row_stride_bytes >= min_row_stride_spec(f.width)
        && f.data.len() >= expected_size_spec(f.height, f.row_stride_bytes)
}

/// A frame is valid when its CPU side is well laid out, or it carries only a
/// texture and has non-zero dimensions.
pub open spec fn frame_valid(f: RawFrame) -> bool {
    if f.data.len() > 0 {
        cpu_layout_valid(f)
    } else if f.gpu_texture_ptr is Some {
        f.width > 0 && f.height > 0
    } else {
        false
    }
}

impl RawFrame {
    /// A CPU frame; a stride below the minimum for `width` is widened to it.
    pub fn new(data: Vec<u8>, width: u32, height: u32, row_stride_bytes: u32, timestamp_ms: u64) -> (r:
        RawFrame)
        ensures
            r.data == data,
            r.width == width,
            r.height == height,
            r.row_stride_bytes == if row_stride_bytes >= min_row_stride_spec(width) {
                row_stride_bytes
            } else {
                min_row_stride_spec(width)
            },
            r.gpu_texture_ptr is None,
            r.timestamp_ms == timestamp_ms,
    {
        let min_row_stride = Self::min_row_stride_bytes(width);
        let stride = if row_stride_bytes >= min_row_stride {
            row_stride_bytes
        } else {
            min_row_stride
        };
        RawFrame {
            data,
            width,
            height,
            row_stride_bytes: stride,
            gpu_texture_ptr: None,
            timestamp_ms,
        }
    }

    /// A GPU-only frame; a null handle yields a frame with no texture.
    pub fn from_gpu_texture(width: u32, height: u32, texture_ptr: usize, timestamp_ms: u64) -> (r:
        RawFrame)
        ensures
            r.data.len() == 0,
            r.width == width,
            r.height == height,
            r.row_stride_bytes == 0,
            r.gpu_texture_ptr == if texture_ptr != 0 {
                Some(texture_ptr)
            } else {
                None::<usize>
            },
            r.timestamp_ms == timestamp_ms,
    {
        RawFrame {
            data: Vec::new(),
            width,
            height,
            row_stride_bytes: 0,
            gpu_texture_ptr: if texture_ptr != 0 {
                Some(texture_ptr)
            } else {
                None
            },
            timestamp_ms,
        }
    }

    pub fn min_row_stride_bytes(width: u32) -> (r: u32)
        ensures
            r == min_row_stride_spec(width),
    {
        match width.checked_mul(4) {
            Some(v) => v,
            None => u32::MAX,
        }
    }

    pub fn expected_size(height: u32, row_stride_bytes: u32) -> (r: usize)
        ensures
            r == expected_size_spec(height, row_stride_bytes),
    {
        let v: u32 = match height.checked_mul(row_stride_bytes) {
            Some(v) => v,
            None => u32::MAX,
        };
        v as usize
    }

    pub fn has_cpu_data(&self) -> (r: bool)
        ensures
            r == (self.data.len() > 0),
    {
        self.data.len() > 0
    }

    pub fn has_gpu_texture(&self) -> (r: bool)
        ensures
            r == (self.gpu_texture_ptr is Some),
    {
        self.gpu_texture_ptr.is_some()
    }

    /// Removes and returns the texture handle, so the frame can no longer
    /// release or hand out the same reference twice.
    pub fn take_gpu_texture_ptr(&mut self) -> (r: Option<usize>)
        ensures
            r == old(self).gpu_texture_ptr,
            final(self).gpu_texture_ptr is None,
            final(self).data == old(self).data,
            final(self).width == old(self).width,
            final(self).height == old(self).height,
            final(self).row_stride_bytes == old(self).row_stride_bytes,
            final(self).timestamp_ms == old(self).timestamp_ms,
    {
        self.gpu_texture_ptr.take()
    }

    pub fn is_valid(&self) -> (r: bool)
        ensures
            r == frame_valid(*self),
    {
        if self.has_cpu_data() {
            if self.width == 0 || self.height == 0 {
                return false;
            }
            if self.row_stride_bytes < Self::min_row_stride_bytes(self.width) {
                return false;
            }
            return self.data.len() >= Self::expected_size(self.height, self.row_stride_bytes);
        }

        if self.has_gpu_texture() {
            return self.width > 0 && self.height > 0;
        }

        false
    }

    pub fn is_cpu_layout_valid(&self) -> (r: bool)
        ensures
            r == cpu_layout_valid(*self),
    {
        if self.width == 0 || self.height == 0 {
            return false;
        }

        if self.row_stride_bytes < Self::min_row_stride_bytes(self.width) {
            return false;
        }

        self.data.len() >= Self::expected_size(self.height, self.row_stride_bytes)
    }
}

/// Upper bound applied to the capture stream's own resolution.
#[derive(Debug, Clone, Copy, PartialEq, Eq, Structural)]
pub enum CaptureResolutionPreset {
    Captured,
    R480p,
    R720p,
    R1080p,
    R1440p,
    R2160p,
    R4320p,
}

/// The lifecycle state of a recording session.
#[derive(Debug, Clone, Copy, PartialEq, Eq, Structural)]
pub enum CaptureState {
    Idle,
    Running,
    Paused,
    Stopped,
}

impl CaptureState {
    pub fn can_start(&self) -> (r: bool)
        ensures
            r == (*self == CaptureState::Idle),
    {
        matches!(self, CaptureState::Idle)
    }

    pub fn can_pause(&self) -> (r: bool)
        ensures
            r == (*self == CaptureState::Running),
    {
        matches!(self, CaptureState::Running)
    }

    pub fn can_resume(&self) -> (r: bool)
        ensures
            r == (*self == CaptureState::Paused),
    {
        matches!(self, CaptureState::Paused)
    }

    pub fn can_stop(&self) -> (r: bool)
        ensures
            r == (*self == CaptureState::Running || *self == CaptureState::Paused),
    {
        matches!(self, CaptureState::Running | CaptureState::Paused)
    }

    /// The state's display name, used in transition error messages.
    pub open spec fn spec_label(&self) -> Seq<char> {
        match self {
            CaptureState::Idle => "Idle"@,
            CaptureState::Running => "Running"@,
            CaptureState::Paused => "Paused"@,
            CaptureState::Stopped => "Stopped"@,
        }
    }

    pub fn as_str(&self) -> (r: &'static str)
        ensures
            r@ == self.spec_label(),
    {
        match self {
            CaptureState::Idle => "Idle",
            CaptureState::Running => "Running",
            CaptureState::Paused => "Paused",
            CaptureState::Stopped => "Stopped",
        }
    }
}

} // verus!
