//! Live status the UI polls while a session runs or finalizes: the label
//! of the encoder actually opened, and whether a post-session finalize is
//! still processing. The embedding wraps one `LiveStatus` in its
//! process-wide cell; every operation on it is specified here.

use vstd::prelude::*;

use crate::config::VideoEncoderPreference;

verus! {

/// Process-wide live status: encoder label, and the processing counter
/// with its manual override.
pub struct LiveStatus {
    pub encoder_label: Option<String>,
    pub processing_jobs: u64,
    pub processing_override: bool,
}

/// Holds the processing flag up while a finalize job runs; created when
/// the job starts and handed back when it ends.
#[derive(Debug)]
pub struct ProcessingGuard {
    _private: (),
}

impl LiveStatus {
    /// Boot state: no label, nothing processing.
    pub fn new() -> (r: LiveStatus)
        ensures
            r.encoder_label is None,
            r.processing_jobs == 0,
            !r.processing_override,
    {
        LiveStatus { encoder_label: None, processing_jobs: 0, processing_override: false }
    }

    /// The label of the live video encoder, if one is open.
    pub fn get_live_video_encoder_label(&self) -> (r: Option<String>)
        ensures
            r == self.encoder_label,
    {
        match &self.encoder_label {
            Some(l) => Some(l.clone()),
            None => None,
        }
    }

    /// Publishes (or clears) the live encoder label.
    pub fn set_live_video_encoder_label(&mut self, label: Option<String>)
        ensures
            final(self).encoder_label == label,
            final(self).processing_jobs == old(self).processing_jobs,
            final(self).processing_override == old(self).processing_override,
    {
        self.encoder_label = label;
    }

    /// Whether a finalize is running or the override is set.
    pub fn is_processing(&self) -> (r: bool)
        ensures
            r == (self.processing_override || self.processing_jobs > 0),
    {
        self.processing_override || self.processing_jobs > 0
    }

    /// Sets or clears the manual processing override.
    pub fn set_processing(&mut self, value: bool)
        ensures
            final(self).processing_override == value,
            final(self).processing_jobs == old(self).processing_jobs,
            final(self).encoder_label == old(self).encoder_label,
    {
        self.processing_override = value;
    }
}

impl ProcessingGuard {
    /// A finalize job begins: while its guard lives, `is_processing` holds.
    pub fn start(status: &mut LiveStatus) -> (r: ProcessingGuard)
        requires
            old(status).processing_jobs < u64::MAX,
        ensures
            final(status).processing_jobs == old(status).processing_jobs + 1,
            final(status).processing_override == old(status).processing_override,
            final(status).encoder_label == old(status).encoder_label,
    {
        status.processing_jobs = status.processing_jobs + 1;
        ProcessingGuard { _private: () }
    }

    /// The job ended: the guard is consumed and the counter drops.
    pub fn finish(self, status: &mut LiveStatus)
        ensures
            final(status).processing_jobs == (if old(status).processing_jobs > 0 {
                old(status).processing_jobs - 1
            } else {
                0int
            }),
            final(status).processing_override == old(status).processing_override,
            final(status).encoder_label == old(status).encoder_label,
    {
        status.processing_jobs = status.processing_jobs.saturating_sub(1);
    }
}

/// The label a backend preference suggests before anything is opened;
/// `Auto` suggests none.
pub fn infer_label_from_preference(preference: &VideoEncoderPreference) -> (r: Option<String>)
    ensures
        preference == VideoEncoderPreference::Auto ==> r is None,
        preference == VideoEncoderPreference::Nvenc ==> (r matches Some(l) && l@
            == "NVENC (NVIDIA)"@),
        preference == VideoEncoderPreference::Amf ==> (r matches Some(l) && l@ == "AMF (AMD)"@),
        preference == VideoEncoderPreference::Qsv ==> (r matches Some(l) && l@ == "QSV (Intel)"@),
        preference == VideoEncoderPreference::Software ==> (r matches Some(l) && l@
            == "Software (CPU)"@),
    {
    match preference {
        VideoEncoderPreference::Auto => None,
        VideoEncoderPreference::Nvenc => Some(String::from_str("NVENC (NVIDIA)")),
        VideoEncoderPreference::Amf => Some(String::from_str("AMF (AMD)")),
        VideoEncoderPreference::Qsv => Some(String::from_str("QSV (Intel)")),
        VideoEncoderPreference::Software => Some(String::from_str("Software (CPU)")),
    }
}

} // verus!
