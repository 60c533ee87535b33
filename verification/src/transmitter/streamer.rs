//! The transmit streamer and the geometry of the buffers it sends.

use std::marker::PhantomData;
use vstd::prelude::*;

use crate::error::Error;
use crate::stream::{StreamCommand, StreamState};
use crate::transmitter::metadata::{MetadataView, TransmitMetadata};

verus! {

/// Bit pattern of the binary64 value nearest to a tenth: the seconds that
/// [`TransmitStreamer::transmit_simple`] waits for a transfer.
pub const SIMPLE_TIMEOUT_BITS: u64 = 0x3FB9_9999_9999_999A;

/// The lengths of the channel buffers of one transfer, in channel order.
pub open spec fn lengths_of<I>(buffers: Seq<&mut [I]>) -> Seq<nat> {
    Seq::new(buffers.len(), |i: int| buffers[i]@.len())
}

/// All the lengths are the same.
pub open spec fn uniform(lengths: Seq<nat>) -> bool {
    forall|i: int, j: int|
        0 <= i < lengths.len() && 0 <= j < lengths.len() ==> lengths[i] == lengths[j]
}

/// The length that the buffers of one transfer share: that of the first
/// buffer, and zero where there is no buffer.
pub open spec fn common_length(lengths: Seq<nat>) -> nat {
    if lengths.len() == 0 {
        0
    } else {
        lengths[0]
    }
}

/// Returns the length that all the buffers share, or zero if there are no
/// buffers. The buffers must have equal lengths: a transfer of ragged
/// per-channel data means nothing to the radio.
pub fn check_equal_buffer_lengths<I>(buffers: &mut [&mut [I]]) -> (length: usize)
    requires
        uniform(lengths_of(old(buffers)@)),
    ensures
        length == common_length(lengths_of(old(buffers)@)),
        final(buffers)@ == old(buffers)@,
{
    if buffers.len() == 0 {
        0
    } else {
        buffers[0].len()
    }
}

/// Returns the length that all the buffers share, and `None` exactly when two
/// of them differ in length.
pub fn common_buffer_length<I>(buffers: &mut [&mut [I]]) -> (length: Option<usize>)
    ensures
        length.is_some() == uniform(lengths_of(old(buffers)@)),
        length matches Some(n) ==> n == common_length(lengths_of(old(buffers)@)),
        final(buffers)@ == old(buffers)@,
{
    let count: usize = buffers.len();
    if count == 0 {
        return Some(0);
    }
    let first: usize = buffers[0].len();
    let mut i: usize = 1;
    while i < count
        invariant
            1 <= i <= count,
            count == buffers@.len(),
            buffers@ == old(buffers)@,
            first == lengths_of(buffers@)[0],
            forall|k: int| 0 <= k < i ==> #[trigger] lengths_of(buffers@)[k] == first,
        decreases count - i,
    {
        if buffers[i].len() != first {
            assert(lengths_of(buffers@)[i as int] != lengths_of(buffers@)[0]);
            return None;
        }
        i += 1;
    }
    Some(first)
}

/// The address at which a channel buffer starts.
///
/// Calls `as_ptr` of the slice and turns the pointer into an integer.
/// Nothing is claimed of the address.
#[verifier::external_body]
fn buffer_address<I>(buffer: &[I]) -> (address: usize) {
    buffer.as_ptr() as usize
}

/// Sizes an empty pointer cache to one entry per channel, then fills the
/// cache with the addresses of the buffers, in channel order. A cache that
/// holds entries keeps its storage.
fn stage_buffer_pointers<I>(pointers: &mut Vec<usize>, channels: usize, buffers: &mut [&mut [I]])
    requires
        old(pointers)@.len() == 0 || old(pointers)@.len() == channels,
        old(buffers)@.len() == channels,
    ensures
        final(pointers)@.len() == channels,
        final(buffers)@ == old(buffers)@,
{
    if pointers.is_empty() {
        pointers.resize(channels, 0);
    }
    let mut i: usize = 0;
    while i < channels
        invariant
            i <= channels,
            channels == buffers@.len(),
            channels == pointers@.len(),
            buffers@ == old(buffers)@,
        decreases channels - i,
    {
        let address = buffer_address(buffers[i]);
        pointers[i] = address;
        i += 1;
    }
}

/// What a [`TransmitStreamer`] stands for.
pub struct StreamerView {
    /// The number of channels that the radio bound the streamer to.
    pub channels: nat,
    /// The number of entries in the pointer cache.
    pub cache_len: nat,
    /// What the streamer was last told to do.
    pub state: StreamState,
}

impl StreamerView {
    /// Once the pointer cache holds anything, it holds one entry per channel.
    pub open spec fn wf(self) -> bool {
        self.cache_len == 0 || self.cache_len == self.channels
    }

    /// The streamer after it has staged a transfer: the pointer cache holds
    /// one entry per channel, the rest is as before.
    pub open spec fn staged(self) -> StreamerView {
        StreamerView { cache_len: self.channels, ..self }
    }

    /// The buffers may be sent: there is one per channel and all have the
    /// same length.
    pub open spec fn accepts(self, lengths: Seq<nat>) -> bool {
        lengths.len() == self.channels && uniform(lengths)
    }
}

/// What a [`TransferRequest`] stands for.
pub struct RequestView {
    /// The descriptor that goes to the radio with the samples.
    pub metadata: MetadataView,
    /// The number of samples to send from each channel buffer.
    pub samples_per_channel: nat,
    /// Bit pattern of the seconds to wait, a binary64 value.
    pub timeout_bits: u64,
    /// Send no more than one packet of the underlying protocol.
    pub one_packet: bool,
}

impl RequestView {
    /// The request that a transfer of buffers of these lengths makes.
    pub open spec fn planned(lengths: Seq<nat>, timeout_bits: u64, one_packet: bool) -> RequestView {
        RequestView {
            metadata: MetadataView::empty(),
            samples_per_channel: common_length(lengths),
            timeout_bits,
            one_packet,
        }
    }

    /// What the transfer returns once the radio has answered with `outcome`:
    /// the request's descriptor with the number of samples sent, or the
    /// radio's error as it came.
    pub open spec fn concluded(self, outcome: Result<usize, Error>) -> Result<MetadataView, Error> {
        match outcome {
            Ok(sent) => Ok(self.metadata.with_samples(sent as nat)),
            Err(error) => Err(error),
        }
    }
}

/// One transfer, as the streamer asks it of the radio.
#[derive(Debug)]
pub struct TransferRequest {
    /// The descriptor that goes to the radio with the samples.
    pub metadata: TransmitMetadata,
    /// The number of samples to send from each channel buffer.
    pub samples_per_channel: usize,
    /// Bit pattern of the seconds to wait, a binary64 value.
    pub timeout_bits: u64,
    /// Send no more than one packet of the underlying protocol.
    pub one_packet: bool,
}

impl View for TransferRequest {
    type V = RequestView;

    open spec fn view(&self) -> RequestView {
        RequestView {
            metadata: self.metadata@,
            samples_per_channel: self.samples_per_channel as nat,
            timeout_bits: self.timeout_bits,
            one_packet: self.one_packet,
        }
    }
}

/// The view of what a concluded transfer returned.
pub open spec fn result_view(result: Result<TransmitMetadata, Error>) -> Result<MetadataView, Error> {
    match result {
        Ok(metadata) => Ok(metadata@),
        Err(error) => Err(error),
    }
}

impl TransferRequest {
    /// Concludes the transfer with what the radio answered.
    ///
    /// `outcome` is the number of samples that the radio sent from each
    /// channel buffer, or the error it reported. A count below the one asked
    /// for is a short transfer, which is a success. An error is passed on
    /// unchanged.
    pub fn complete(self, outcome: Result<usize, Error>) -> (result: Result<TransmitMetadata, Error>)
        ensures
            result_view(result) == self@.concluded(outcome),
    {
        match outcome {
            Ok(sent) => {
                let mut metadata = self.metadata;
                metadata.set_samples(sent);
                Ok(metadata)
            },
            Err(error) => Err(error),
        }
    }
}

/// A streamer that sends samples of type `I` to a radio.
///
/// The streamer is bound to a number of channels for as long as it lives.
/// It keeps a cache of buffer addresses, one per channel, which is empty
/// until the first transfer and keeps its size from then on.
#[derive(Debug)]
pub struct TransmitStreamer<I> {
    channels: usize,
    buffer_pointers: Vec<usize>,
    state: StreamState,
    item: PhantomData<I>,
}

impl<I> View for TransmitStreamer<I> {
    type V = StreamerView;

    closed spec fn view(&self) -> StreamerView {
        StreamerView {
            channels: self.channels as nat,
            cache_len: self.buffer_pointers@.len(),
            state: self.state,
        }
    }
}

impl<I> TransmitStreamer<I> {
    #[verifier::type_invariant]
    spec fn well_formed(&self) -> bool {
        self@.wf()
    }

    /// Makes a stopped streamer bound to `channels` channels, with an empty
    /// pointer cache.
    pub fn new(channels: usize) -> (streamer: Self)
        ensures
            streamer@ == (StreamerView { channels: channels as nat, cache_len: 0, state: StreamState::Stopped }),
    {
        TransmitStreamer {
            channels,
            buffer_pointers: Vec::new(),
            state: StreamState::Stopped,
            item: PhantomData,
        }
    }

    /// The number of channels that this streamer is bound to.
    pub fn num_channels(&self) -> (channels: usize)
        ensures
            channels == self@.channels,
    {
        self.channels
    }

    /// What the streamer was last told to do.
    pub fn stream_state(&self) -> (state: StreamState)
        ensures
            state == self@.state,
    {
        self.state
    }

    /// The cached buffer addresses, in channel order: none before the first
    /// transfer, one per channel after it.
    pub fn buffer_pointers(&self) -> (pointers: &[usize])
        ensures
            pointers@.len() == self@.cache_len,
            self@.wf(),
    {
        proof {
            use_type_invariant(self);
        }
        self.buffer_pointers.as_slice()
    }

    /// Takes a command that starts or stops streaming.
    ///
    /// An accepted command moves the streamer to the state it leads to, and
    /// is then to be given to the radio. A refused command changes nothing.
    pub fn send_command(&mut self, command: &StreamCommand) -> (result: Result<(), Error>)
        ensures
            (match old(self)@.state.after(*command) {
                Ok(state) => result is Ok && final(self)@ == (StreamerView { state, ..old(self)@ }),
                Err(error) => result == Err::<(), Error>(error) && final(self)@ == old(self)@,
            }),
    {
        proof {
            use_type_invariant(&*self);
        }
        match self.state.apply(command) {
            Ok(state) => {
                self.state = state;
                Ok(())
            },
            Err(error) => Err(error),
        }
    }

    /// Stages one transfer of `buffers`, one buffer per channel.
    ///
    /// Sizes the pointer cache on the first transfer, fills it with the
    /// addresses of the buffers, and returns what to ask of the radio: a fresh
    /// descriptor, the number of samples per buffer, the timeout and the
    /// one-packet flag. There must be one buffer per channel and all buffers
    /// must have the same length.
    pub fn transmit(&mut self, buffers: &mut [&mut [I]], timeout_bits: u64, one_packet: bool) -> (request: TransferRequest)
        requires
            old(self)@.accepts(lengths_of(old(buffers)@)),
        ensures
            final(self)@ == old(self)@.staged(),
            final(self)@.wf(),
            request@ == RequestView::planned(lengths_of(old(buffers)@), timeout_bits, one_packet),
            final(buffers)@ == old(buffers)@,
    {
        proof {
            use_type_invariant(&*self);
        }
        let metadata = TransmitMetadata::default();
        let samples_per_channel = check_equal_buffer_lengths(buffers);
        let mut pointers: Vec<usize> = Vec::new();
        std::mem::swap(&mut pointers, &mut self.buffer_pointers);
        stage_buffer_pointers(&mut pointers, self.channels, buffers);
        self.buffer_pointers = pointers;
        TransferRequest { metadata, samples_per_channel, timeout_bits, one_packet }
    }

    /// Stages one transfer as [`transmit`](Self::transmit) does, if the
    /// buffers may be sent.
    ///
    /// Returns `None`, and leaves the streamer as it was, exactly when the
    /// number of buffers is not the number of channels or two buffers differ
    /// in length. Nothing is then to be asked of the radio.
    pub fn try_transmit(&mut self, buffers: &mut [&mut [I]], timeout_bits: u64, one_packet: bool) -> (request: Option<TransferRequest>)
        ensures
            request.is_some() == old(self)@.accepts(lengths_of(old(buffers)@)),
            (match request {
                Some(request) => {
                    &&& final(self)@ == old(self)@.staged()
                    &&& request@ == RequestView::planned(lengths_of(old(buffers)@), timeout_bits, one_packet)
                },
                None => final(self)@ == old(self)@,
            }),
            final(self)@.wf(),
            final(buffers)@ == old(buffers)@,
    {
        proof {
            use_type_invariant(&*self);
        }
        if buffers.len() != self.channels {
            return None;
        }
        if common_buffer_length(buffers).is_none() {
            return None;
        }
        Some(self.transmit(buffers, timeout_bits, one_packet))
    }

    /// Stages the transfer of one buffer on a streamer with a single channel:
    /// the same as [`transmit`](Self::transmit) with that buffer alone, a
    /// timeout of a tenth of a second and the one-packet flag clear.
    pub fn transmit_simple(&mut self, buffer: &mut [I]) -> (request: TransferRequest)
        requires
            old(self)@.channels == 1,
        ensures
            final(self)@ == old(self)@.staged(),
            final(self)@.wf(),
            request@ == RequestView::planned(seq![old(buffer)@.len()], SIMPLE_TIMEOUT_BITS, false),
            final(buffer)@ == old(buffer)@,
    {
        self.transmit(&mut [buffer], SIMPLE_TIMEOUT_BITS, false)
    }
}

/// Buffers are refused whenever their number is not the number of channels,
/// and whenever two of them differ in length.
pub proof fn ragged_or_miscounted_buffers_are_refused(streamer: StreamerView, lengths: Seq<nat>)
    ensures
        lengths.len() != streamer.channels ==> !streamer.accepts(lengths),
        (exists|i: int, j: int|
            0 <= i < lengths.len() && 0 <= j < lengths.len() && lengths[i] != lengths[j])
            ==> !streamer.accepts(lengths),
{
}

/// Staging a transfer leaves the pointer cache with one entry per channel,
/// and staging further transfers leaves it so: the cache never grows beyond
/// the number of channels.
pub proof fn pointer_cache_keeps_its_size(streamer: StreamerView)
    requires
        streamer.wf(),
    ensures
        streamer.staged().wf(),
        streamer.staged().cache_len == streamer.channels,
        streamer.staged().channels == streamer.channels,
        streamer.staged().staged() == streamer.staged(),
{
}

/// On a streamer with a single channel a lone buffer may always be sent, and
/// the simple transfer asks of the radio what a transfer of that buffer alone
/// asks with a timeout of a tenth of a second and the one-packet flag clear.
pub proof fn simple_transfer_is_single_buffer_transfer(streamer: StreamerView, length: nat)
    requires
        streamer.channels == 1,
    ensures
        streamer.accepts(seq![length]),
        RequestView::planned(seq![length], SIMPLE_TIMEOUT_BITS, false) == (RequestView {
            metadata: MetadataView::empty(),
            samples_per_channel: length,
            timeout_bits: SIMPLE_TIMEOUT_BITS,
            one_packet: false,
        }),
{
}

/// A transfer of which the radio sent fewer samples than were asked for
/// concludes with success, and the result holds the number that was sent.
pub proof fn short_transfer_is_success(request: RequestView, sent: usize)
    requires
        sent < request.samples_per_channel,
    ensures
        request.concluded(Ok(sent)) is Ok,
        request.concluded(Ok(sent))->Ok_0 == request.metadata.with_samples(sent as nat),
        request.concluded(Ok(sent))->Ok_0.samples == sent,
        request.concluded(Ok(sent))->Ok_0.samples < request.samples_per_channel,
{
}

/// A failure that the radio reports is what the transfer returns.
pub proof fn boundary_failure_is_passed_on(request: RequestView, error: Error)
    ensures
        request.concluded(Err(error)) == Err::<MetadataView, Error>(error),
{
}

} // verus!
