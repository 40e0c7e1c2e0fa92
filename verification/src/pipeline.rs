//! The bounded video pipeline between the capture producer and the encoder
//! worker: an admission gate over an occupancy counter, drop-on-overflow,
//! and a shared worker-error slot. This is the backpressure model the
//! producer consults for every frame.

use vstd::prelude::*;

verus! {

/// How many frames may sit between producer and encoder.
pub const VIDEO_PIPELINE_QUEUE_CAPACITY: usize = 6;

/// The producer-facing state of the pipeline.
pub struct VideoPipeline {
    /// Frames admitted and not yet taken by the worker.
    pub queued: usize,
    /// Frames dropped to keep capture fluid.
    pub dropped: u64,
    /// Frames actually handed to the worker; only these can ever become
    /// encoder packets.
    pub sent: u64,
    /// The first fatal worker error, with later ones appended.
    pub worker_error: Option<String>,
    /// Whether the worker has gone away and the channel is closed.
    pub disconnected: bool,
}

/// The occupancy counter never exceeds the capacity.
pub open spec fn pipeline_wf(p: VideoPipeline) -> bool {
    p.queued <= VIDEO_PIPELINE_QUEUE_CAPACITY
}

pub open spec fn msg_worker_disconnected() -> Seq<char> {
    "El worker de codificación de video se desconectó"@
}

pub open spec fn msg_worker_panicked() -> Seq<char> {
    "El worker de codificación de video finalizó con panic"@
}

/// The error recorded when joining the worker thread reveals a panic.
pub fn worker_panicked_message() -> (r: String)
    ensures
        r@ == msg_worker_panicked(),
{
    String::from_str("El worker de codificación de video finalizó con panic")
}

/// `v + 1` saturated at the counter's maximum.
pub open spec fn bump_u64(v: u64) -> u64 {
    if v < u64::MAX {
        (v + 1) as u64
    } else {
        v
    }
}

impl VideoPipeline {
    /// An empty pipeline with a live worker.
    pub fn new() -> (r: VideoPipeline)
        ensures
            r.queued == 0,
            r.dropped == 0,
            r.sent == 0,
            r.worker_error is None,
            !r.disconnected,
            pipeline_wf(r),
    {
        VideoPipeline { queued: 0, dropped: 0, sent: 0, worker_error: None, disconnected: false }
    }

    /// The admission gate: a recorded worker error is fatal; otherwise a
    /// frame is admitted exactly while the queue is below capacity — so
    /// every admitted frame sees `queued < capacity` at admission time.
    pub fn should_accept_frame(&self) -> (r: Result<bool, String>)
        ensures
            r is Err <==> self.worker_error is Some,
            (self.worker_error matches Some(e) ==> (r matches Err(e2) && e2@ == e@)),
            r matches Ok(b) ==> b == (self.queued < VIDEO_PIPELINE_QUEUE_CAPACITY),
    {
        match &self.worker_error {
            Some(err) => Err(err.clone()),
            None => Ok(self.queued < VIDEO_PIPELINE_QUEUE_CAPACITY),
        }
    }

    /// The admission gate said no: the frame is counted as dropped and
    /// nothing else changes, so no packet is ever produced for it.
    pub fn on_frame_dropped(&mut self)
        ensures
            final(self).dropped == bump_u64(old(self).dropped),
            final(self).queued == old(self).queued,
            final(self).sent == old(self).sent,
            final(self).worker_error == old(self).worker_error,
            final(self).disconnected == old(self).disconnected,
    {
        self.dropped = self.dropped.saturating_add(1);
    }

    /// One frame from the producer: rejected when the worker has failed
    /// or gone away; dropped (and counted, with `sent` unchanged) when
    /// the queue is full; otherwise enqueued for the worker.
    pub fn frame_arrived(&mut self) -> (r: Result<(), String>)
        requires
            pipeline_wf(*old(self)),
        ensures
            pipeline_wf(*final(self)),
            final(self).worker_error == old(self).worker_error,
            final(self).disconnected == old(self).disconnected,
            old(self).worker_error matches Some(e) ==> (r matches Err(e2) && e2@ == e@
                && *final(self) == *old(self)),
            (old(self).worker_error is None && old(self).disconnected) ==> {
                &&& r matches Err(e) && e@ == msg_worker_disconnected()
                &&& final(self).queued == old(self).queued
                &&& final(self).dropped == old(self).dropped
                &&& final(self).sent == old(self).sent
            },
            (old(self).worker_error is None && !old(self).disconnected && old(self).queued
                < VIDEO_PIPELINE_QUEUE_CAPACITY) ==> {
                &&& r is Ok
                &&& final(self).queued == old(self).queued + 1
                &&& final(self).sent == bump_u64(old(self).sent)
                &&& final(self).dropped == old(self).dropped
            },
            (old(self).worker_error is None && !old(self).disconnected && old(self).queued
                >= VIDEO_PIPELINE_QUEUE_CAPACITY) ==> {
                &&& r is Ok
                &&& final(self).queued == old(self).queued
                &&& final(self).dropped == bump_u64(old(self).dropped)
                &&& final(self).sent == old(self).sent
            },
    {
        match &self.worker_error {
            Some(err) => {
                return Err(err.clone());
            },
            None => {},
        }

        if self.disconnected {
            return Err(String::from_str("El worker de codificación de video se desconectó"));
        }

        if self.queued < VIDEO_PIPELINE_QUEUE_CAPACITY {
            self.queued = self.queued + 1;
            self.sent = self.sent.saturating_add(1);
            Ok(())
        } else {
            // Keeps capture fluid when the encoder falls behind.
            self.dropped = self.dropped.saturating_add(1);
            Ok(())
        }
    }

    /// The worker takes one queued frame to encode it.
    pub fn worker_take_frame(&mut self)
        requires
            old(self).queued > 0,
        ensures
            final(self).queued == old(self).queued - 1,
            final(self).dropped == old(self).dropped,
            final(self).sent == old(self).sent,
            final(self).worker_error == old(self).worker_error,
            final(self).disconnected == old(self).disconnected,
    {
        self.queued = self.queued - 1;
    }

    /// Records a fatal worker error; a second error is appended to the
    /// first.
    pub fn record_worker_error(&mut self, message: String)
        ensures
            final(self).worker_error matches Some(e) && e@ == (match old(self).worker_error {
                Some(prev) => prev@ + " | "@ + message@,
                None => message@,
            }),
            final(self).queued == old(self).queued,
            final(self).dropped == old(self).dropped,
            final(self).sent == old(self).sent,
            final(self).disconnected == old(self).disconnected,
    {
        match self.worker_error.take() {
            Some(mut existing) => {
                existing.append(" | ");
                existing.append(message.as_str());
                self.worker_error = Some(existing);
            },
            None => {
                self.worker_error = Some(message);
            },
        }
    }

    /// Session end: the worker is gone; the accumulated error, if any, is
    /// surfaced once and cleared.
    pub fn session_finished(&mut self) -> (r: Result<(), String>)
        ensures
            final(self).disconnected,
            final(self).worker_error is None,
            final(self).queued == old(self).queued,
            final(self).dropped == old(self).dropped,
            final(self).sent == old(self).sent,
            r is Err <==> old(self).worker_error is Some,
            old(self).worker_error matches Some(e) ==> (r matches Err(e2) && e2 == e),
    {
        self.disconnected = true;
        match self.worker_error.take() {
            Some(err) => Err(err),
            None => Ok(()),
        }
    }
}

/// The worker's wrapper for an encoder error on one frame.
pub fn worker_encode_error_message(err: &str) -> (r: String)
    ensures
        r@ == "Error codificando frame de video: "@ + err@,
{
    let mut m = String::from_str("Error codificando frame de video: ");
    m.append(err);
    m
}

/// The worker's wrapper for an error while closing the encoder.
pub fn worker_close_error_message(err: &str) -> (r: String)
    ensures
        r@ == "Error cerrando encoder de video: "@ + err@,
{
    let mut m = String::from_str("Error cerrando encoder de video: ");
    m.append(err);
    m
}

} // verus!
