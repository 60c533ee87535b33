//! Descriptors of one transmission.

use vstd::prelude::*;

use crate::time::TimeSpec;

verus! {

/// Start-of-burst and end-of-burst markers of a transmission.
///
/// The radio wants both flags for every transmission, also where the caller
/// makes no use of bursts, so a descriptor cannot be made without them.
#[derive(Debug, Clone, Copy, PartialEq, Eq, Structural)]
pub struct BurstSpec {
    /// The samples begin a burst.
    pub start: bool,
    /// The samples end a burst.
    pub end: bool,
}

/// What a [`TransmitMetadata`] stands for.
pub struct MetadataView {
    /// When the transmission is to begin, if it is scheduled.
    pub time_spec: Option<TimeSpec>,
    /// The samples begin a burst.
    pub start_of_burst: bool,
    /// The samples end a burst.
    pub end_of_burst: bool,
    /// Samples sent on each channel.
    pub samples: nat,
}

impl MetadataView {
    /// The descriptor that `burst` and `time` describe, before any transfer.
    pub open spec fn described(burst: BurstSpec, time: Option<TimeSpec>) -> MetadataView {
        MetadataView {
            time_spec: time,
            start_of_burst: burst.start,
            end_of_burst: burst.end,
            samples: 0,
        }
    }

    /// The descriptor without a time marker and outside any burst.
    pub open spec fn empty() -> MetadataView {
        MetadataView { time_spec: None, start_of_burst: false, end_of_burst: false, samples: 0 }
    }

    /// This descriptor after a transfer that sent `samples` samples per channel.
    pub open spec fn with_samples(self, samples: nat) -> MetadataView {
        MetadataView { samples, ..self }
    }
}

/// A descriptor in the form in which the radio driver takes and keeps it.
///
/// The driver wants a time in any case, and a flag that says whether the time
/// counts. A descriptor without a time marker is written with the flag clear
/// and a time of zero.
#[derive(Debug, Clone, Copy, PartialEq, Eq, Structural)]
pub struct RawMetadata {
    /// The time below is a time marker.
    pub has_time_spec: bool,
    /// Whole seconds of the time.
    pub full_secs: i64,
    /// Bit pattern of the fractional seconds of the time, a binary64 value.
    pub frac_secs_bits: u64,
    /// The samples begin a burst.
    pub start_of_burst: bool,
    /// The samples end a burst.
    pub end_of_burst: bool,
}

impl RawMetadata {
    /// The form in which the driver takes the descriptor `metadata`.
    pub open spec fn of(metadata: MetadataView) -> RawMetadata {
        RawMetadata {
            has_time_spec: metadata.time_spec is Some,
            full_secs: match metadata.time_spec {
                Some(time) => time.seconds,
                None => 0,
            },
            frac_secs_bits: match metadata.time_spec {
                Some(time) => time.fraction_bits,
                None => 0,
            },
            start_of_burst: metadata.start_of_burst,
            end_of_burst: metadata.end_of_burst,
        }
    }

    /// The time marker that the driver's form holds: its time where the flag
    /// is set, none where it is clear.
    pub open spec fn time_spec(self) -> Option<TimeSpec> {
        if self.has_time_spec {
            Some(TimeSpec { seconds: self.full_secs, fraction_bits: self.frac_secs_bits })
        } else {
            None
        }
    }

    /// The descriptor that the driver's form stands for, before any transfer.
    pub open spec fn described(self) -> MetadataView {
        MetadataView {
            time_spec: self.time_spec(),
            start_of_burst: self.start_of_burst,
            end_of_burst: self.end_of_burst,
            samples: 0,
        }
    }
}

/// Data about one transmit operation.
///
/// The time marker and the burst flags are fixed when the descriptor is made.
/// The sample count starts at zero; only a completed transfer sets it.
#[derive(Debug)]
pub struct TransmitMetadata {
    time_spec: Option<TimeSpec>,
    start_of_burst: bool,
    end_of_burst: bool,
    received_samples: usize,
}

impl View for TransmitMetadata {
    type V = MetadataView;

    closed spec fn view(&self) -> MetadataView {
        MetadataView {
            time_spec: self.time_spec,
            start_of_burst: self.start_of_burst,
            end_of_burst: self.end_of_burst,
            samples: self.received_samples as nat,
        }
    }
}

impl TransmitMetadata {
    /// Makes the descriptor of a transmission.
    ///
    /// `burst_spec` gives the two burst markers. `time_spec` is the instant at
    /// which the radio is to begin sending; without one it sends at once.
    pub fn new(burst_spec: BurstSpec, time_spec: Option<TimeSpec>) -> (metadata: TransmitMetadata)
        ensures
            metadata@ == MetadataView::described(burst_spec, time_spec),
    {
        TransmitMetadata {
            time_spec,
            start_of_burst: burst_spec.start,
            end_of_burst: burst_spec.end,
            received_samples: 0,
        }
    }

    /// The instant at which the transmission is to begin, if one was set.
    pub fn time_spec(&self) -> (time: Option<TimeSpec>)
        ensures
            time == self@.time_spec,
    {
        self.time_spec
    }

    /// Whether the samples begin a burst.
    pub fn start_of_burst(&self) -> (flag: bool)
        ensures
            flag == self@.start_of_burst,
    {
        self.start_of_burst
    }

    /// Whether the samples end a burst.
    pub fn end_of_burst(&self) -> (flag: bool)
        ensures
            flag == self@.end_of_burst,
    {
        self.end_of_burst
    }

    /// The number of samples sent on each channel, zero before any transfer.
    pub fn samples(&self) -> (samples: usize)
        ensures
            samples == self@.samples,
    {
        self.received_samples
    }

    /// Writes the descriptor in the form in which the driver takes it.
    pub fn to_raw(&self) -> (raw: RawMetadata)
        ensures
            raw == RawMetadata::of(self@),
    {
        let (has_time_spec, full_secs, frac_secs_bits) = if let Some(time) = self.time_spec {
            (true, time.seconds, time.fraction_bits)
        } else {
            (false, 0, 0)
        };
        RawMetadata {
            has_time_spec,
            full_secs,
            frac_secs_bits,
            start_of_burst: self.start_of_burst,
            end_of_burst: self.end_of_burst,
        }
    }

    /// Reads a descriptor from the form in which the driver keeps it.
    ///
    /// The descriptor has a time marker exactly when the driver's flag is
    /// set; the time that comes with a clear flag is dropped.
    pub fn from_raw(raw: RawMetadata) -> (metadata: TransmitMetadata)
        ensures
            metadata@ == raw.described(),
    {
        let time_spec = if raw.has_time_spec {
            Some(TimeSpec { seconds: raw.full_secs, fraction_bits: raw.frac_secs_bits })
        } else {
            None
        };
        TransmitMetadata {
            time_spec,
            start_of_burst: raw.start_of_burst,
            end_of_burst: raw.end_of_burst,
            received_samples: 0,
        }
    }

    /// Records how many samples a transfer sent; the rest stays as it was.
    pub(crate) fn set_samples(&mut self, samples: usize)
        ensures
            final(self)@ == old(self)@.with_samples(samples as nat),
    {
        self.received_samples = samples
    }
}

impl Default for TransmitMetadata {
    /// The descriptor that receives the result of a transfer: no time marker,
    /// both burst flags clear, no samples sent.
    fn default() -> (metadata: TransmitMetadata)
        ensures
            metadata@ == MetadataView::empty(),
    {
        TransmitMetadata {
            time_spec: None,
            start_of_burst: false,
            end_of_burst: false,
            received_samples: 0,
        }
    }
}

/// A descriptor gives back what it was made from: the time marker and both
/// burst flags as they were handed to `new`, and a sample count of zero.
pub proof fn metadata_round_trip(burst: BurstSpec, time: Option<TimeSpec>)
    ensures
        MetadataView::described(burst, time).time_spec == time,
        MetadataView::described(burst, time).start_of_burst == burst.start,
        MetadataView::described(burst, time).end_of_burst == burst.end,
        MetadataView::described(burst, time).samples == 0,
        (MetadataView::described(BurstSpec { start: false, end: false }, None)
            == MetadataView::empty()),
{
}

/// A descriptor written for the driver and read back is the descriptor that
/// was written, whatever its time marker and burst flags; only the sample
/// count, which the driver does not keep, starts again at zero.
pub proof fn raw_round_trip(metadata: MetadataView)
    ensures
        RawMetadata::of(metadata).described() == metadata.with_samples(0),
        RawMetadata::of(metadata).time_spec() == metadata.time_spec,
        metadata.time_spec is None ==> !RawMetadata::of(metadata).has_time_spec,
{
}

} // verus!
