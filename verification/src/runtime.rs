//! The capture runtime boundary: the handle a running producer is driven
//! through, and the per-frame decisions the producer applies.

use vstd::prelude::*;

use crate::models::Region;
use crate::text::has_sub;

verus! {

/// What a platform producer is started with. The callbacks of the live
/// pipeline are wired by the embedding layer; the core carries the values
/// the decisions depend on.
#[derive(Debug, Clone)]
pub struct RuntimeStartConfig {
    pub target_id: u32,
    pub fps: u32,
    pub crop_region: Option<Region>,
    pub prefer_gpu_frames: bool,
}

/// A running capture producer. `stop` sends a cooperative stop and joins;
/// `wait` joins without asking; both report the number of produced frames.
pub trait CaptureRuntimeHandle: Sized {
    fn pause(&self);

    fn resume(&self);

    fn is_finished(&self) -> bool;

    fn stop(self) -> Result<u64, String>;

    fn wait(self) -> Result<u64, String>;
}

/// The handle type of the OS-backed runtime. On this portable build no
/// producer can be started, so values of it do not arise.
#[derive(Debug, Clone, Copy)]
pub struct PlatformRuntimeHandle;

impl CaptureRuntimeHandle for PlatformRuntimeHandle {
    fn pause(&self) {
    }

    fn resume(&self) {
    }

    fn is_finished(&self) -> bool {
        true
    }

    fn stop(self) -> Result<u64, String> {
        Ok(0)
    }

    fn wait(self) -> Result<u64, String> {
        Ok(0)
    }
}

pub open spec fn msg_runtime_unavailable() -> Seq<char> {
    "La captura de pantalla real solo está disponible en Windows"@
}

/// Starts the platform producer. The graphics-capture backend is absent on
/// this portable build, so this always reports the platform error.
pub fn start_runtime(config: RuntimeStartConfig) -> (r: Result<PlatformRuntimeHandle, String>)
    ensures
        r matches Err(e) && e@ == msg_runtime_unavailable(),
{
    Err(String::from_str("La captura de pantalla real solo está disponible en Windows"))
}

/// The producer cadence derived from the frame rate: at least one
/// millisecond between updates.
pub open spec fn min_update_interval_spec(fps: u32) -> u64 {
    let safe = if fps >= 1 {
        fps as int
    } else {
        1
    };
    let interval = 1000int / safe;
    if interval >= 1 {
        interval as u64
    } else {
        1u64
    }
}

pub fn min_update_interval_ms(fps: u32) -> (r: u64)
    ensures
        r == min_update_interval_spec(fps),
{
    let safe: u64 = if fps >= 1 {
        fps as u64
    } else {
        1
    };
    let interval = 1000u64 / safe;
    if interval >= 1 {
        interval
    } else {
        1
    }
}

/// A capture timestamp in milliseconds: non-positive raw values map to
/// zero, positive ones are converted from 100-nanosecond units.
pub open spec fn frame_timestamp_spec(raw_100ns: i64) -> u64 {
    if raw_100ns <= 0 {
        0u64
    } else {
        (raw_100ns as u64 / 10000u64) as u64
    }
}

pub fn frame_timestamp_ms(raw_100ns: i64) -> (r: u64)
    ensures
        r == frame_timestamp_spec(raw_100ns),
{
    if raw_100ns <= 0 {
        return 0;
    }
    (raw_100ns as u64) / 10_000
}

pub open spec fn msg_frame_zero_dims() -> Seq<char> {
    "Frame inválido: dimensiones 0x0"@
}

pub open spec fn msg_crop_no_intersection() -> Seq<char> {
    "La región de recorte no intersecta con el frame capturado en tiempo real"@
}

/// Whether the clamped crop rectangle is non-empty on a frame of the given
/// dimensions.
pub open spec fn crop_intersects(region: Region, fw: u32, fh: u32) -> bool {
    let start_x = if region.x < fw - 1 {
        region.x as int
    } else {
        fw - 1
    };
    let start_y = if region.y < fh - 1 {
        region.y as int
    } else {
        fh - 1
    };
    let end_x = if region.x + region.width < fw {
        region.x + region.width
    } else {
        fw as int
    };
    let end_y = if region.y + region.height < fh {
        region.y + region.height
    } else {
        fh as int
    };
    end_x > start_x && end_y > start_y
}

/// Clamps a crop region to a live frame: the start is pulled inside the
/// frame, the end is capped at the frame edge; an empty intersection and a
/// degenerate frame are rejected, each with its message.
pub fn clamp_crop_region(region: &Region, frame_width: u32, frame_height: u32) -> (r: Result<
    (u32, u32, u32, u32),
    String,
>)
    ensures
        (frame_width == 0 || frame_height == 0) ==> (r matches Err(e) && e@
            == msg_frame_zero_dims()),
        (frame_width > 0 && frame_height > 0) ==> {
            &&& r is Ok <==> crop_intersects(*region, frame_width, frame_height)
            &&& (r matches Err(e) ==> e@ == msg_crop_no_intersection())
            &&& (r matches Ok(c) ==> {
                let (sx, sy, ex, ey) = c;
                &&& sx == if region.x < frame_width - 1 {
                    region.x as int
                } else {
                    frame_width - 1
                }
                &&& sy == if region.y < frame_height - 1 {
                    region.y as int
                } else {
                    frame_height - 1
                }
                &&& ex == if region.x + region.width < frame_width {
                    region.x + region.width
                } else {
                    frame_width as int
                }
                &&& ey == if region.y + region.height < frame_height {
                    region.y + region.height
                } else {
                    frame_height as int
                }
                &&& sx < ex <= frame_width
                &&& sy < ey <= frame_height
            })
        },
{
    if frame_width == 0 || frame_height == 0 {
        return Err(String::from_str("Frame inválido: dimensiones 0x0"));
    }

    let start_x = if region.x < frame_width - 1 {
        region.x
    } else {
        frame_width - 1
    };
    let start_y = if region.y < frame_height - 1 {
        region.y
    } else {
        frame_height - 1
    };

    let reach_x = match region.x.checked_add(region.width) {
        Some(v) => v,
        None => u32::MAX,
    };
    let reach_y = match region.y.checked_add(region.height) {
        Some(v) => v,
        None => u32::MAX,
    };
    let end_x = if reach_x < frame_width {
        reach_x
    } else {
        frame_width
    };
    let end_y = if reach_y < frame_height {
        reach_y
    } else {
        frame_height
    };

    if end_x <= start_x || end_y <= start_y {
        return Err(
            String::from_str(
                "La región de recorte no intersecta con el frame capturado en tiempo real",
            ),
        );
    }

    Ok((start_x, start_y, end_x, end_y))
}

/// What the producer does with one delivered surface.
#[derive(Debug, Clone, Copy, PartialEq, Eq, Structural)]
pub enum FrameAction {
    /// The session is paused: the surface is dropped silently.
    Skip,
    /// The admission gate refused the frame: count it as dropped.
    Dropped,
    /// Clone the texture and emit a GPU frame.
    UseGpuSurface,
    /// Map the surface (cropped if requested) and emit a CPU frame.
    UseCpuBuffer,
}

/// The per-surface decision of the producer, in the order the runtime
/// applies it: paused wins, then the admission gate, then the input path.
pub fn plan_frame_delivery(paused: bool, accept_frame: bool, prefer_gpu: bool, has_crop: bool) -> (r:
    FrameAction)
    ensures
        r == (if paused {
            FrameAction::Skip
        } else if !accept_frame {
            FrameAction::Dropped
        } else if prefer_gpu && !has_crop {
            FrameAction::UseGpuSurface
        } else {
            FrameAction::UseCpuBuffer
        }),
{
    if paused {
        FrameAction::Skip
    } else if !accept_frame {
        FrameAction::Dropped
    } else if prefer_gpu && !has_crop {
        FrameAction::UseGpuSurface
    } else {
        FrameAction::UseCpuBuffer
    }
}

pub open spec fn msg_finalize_also_failed() -> Seq<char> {
    ". Además falló la finalización del encoder: "@
}

/// Merges a runtime error with an encoder-finalize error: when one message
/// already contains the other it stands alone, else both are reported.
pub fn merge_runtime_and_finalize_error(runtime_err: String, finalize_err: String) -> (r: String)
    ensures
        has_sub(runtime_err@, finalize_err@) ==> r == runtime_err,
        (!has_sub(runtime_err@, finalize_err@) && has_sub(finalize_err@, runtime_err@)) ==> r
            == finalize_err,
        (!has_sub(runtime_err@, finalize_err@) && !has_sub(finalize_err@, runtime_err@)) ==> r@
            == runtime_err@ + msg_finalize_also_failed() + finalize_err@,
{
    if crate::text::str_has_sub(runtime_err.as_str(), finalize_err.as_str()) {
        return runtime_err;
    }

    if crate::text::str_has_sub(finalize_err.as_str(), runtime_err.as_str()) {
        return finalize_err;
    }

    let mut merged = runtime_err;
    merged.append(". Además falló la finalización del encoder: ");
    merged.append(finalize_err.as_str());
    merged
}

} // verus!
