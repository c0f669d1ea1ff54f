use vstd::prelude::*;

verus! {

/// The format negotiated with the capture device.
#[derive(Clone, Copy, Debug, PartialEq, Eq, Structural)]
pub struct AudioFormat {
    pub sample_rate: u32,
    pub channels: u16,
}

/// The samples captured between a start and a stop, with their format.
#[derive(Clone, Debug, PartialEq, Eq)]
pub struct Recording {
    pub format: AudioFormat,
    pub samples: Vec<i16>,
}

/// The recording state of the capture device. The stream itself and the
/// sample buffer that its callback fills are held by the driver; this model
/// decides what a start and a stop mean.
#[derive(Debug)]
pub struct AudioRecorder {
    pub is_recording: bool,
}

impl AudioRecorder {
    pub fn new() -> (r: Self)
        ensures
            !r.is_recording,
    {
        AudioRecorder { is_recording: false }
    }

    /// Idle to recording. The driver opens a new stream and clears the
    /// sample buffer.
    pub fn start_recording(&mut self)
        ensures
            final(self).is_recording,
    {
        self.is_recording = true;
    }

    /// Recording to idle: the driver drops the stream, which stops the
    /// capture. Tells whether a recording was in progress.
    pub fn stop_recording(&mut self) -> (was_recording: bool)
        ensures
            was_recording == old(self).is_recording,
            !final(self).is_recording,
    {
        let was_recording = self.is_recording;
        self.is_recording = false;
        was_recording
    }

    /// The recording made of a drained capture buffer. There is none unless
    /// the format is known and at least one sample was captured: an empty
    /// capture is never a result.
    pub fn take_recording(format: Option<AudioFormat>, samples: Vec<i16>) -> (r: Option<Recording>)
        ensures
            r.is_some() <==> (format.is_some() && samples@.len() > 0),
            r matches Some(rec) ==> rec.format == format.unwrap() && rec.samples@ == samples@,
    {
        if samples.len() == 0 {
            return None;
        }
        match format {
            Some(f) => Some(Recording { format: f, samples }),
            None => None,
        }
    }
}

} // verus!
