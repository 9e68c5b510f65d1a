use vstd::prelude::*;
use crate::error::{code_failed, Error};
use crate::format::{byte_width, has_byte_width, AudioFormat};

verus! {

/// What the library knows of a block of audio samples: the length of its
/// storage, the format of the samples, and the number of samples it holds.
///
/// The storage itself lives in linear memory, where the DSP can reach it, and
/// is kept by the code that allocated it. It must have been flushed from the
/// CPU cache before the buffer is made, and is to be invalidated when the
/// buffer goes away.
pub struct WaveBuffer {
    len: usize,
    audio_format: AudioFormat,
    nsamples: usize,
}

/// The plain fields of the record that a channel's queue consumes. The data
/// address is taken from the buffer when the record is handed over, and the
/// adpcm-state and next-record links are left null.
#[derive(Debug, Clone, Copy, PartialEq, Eq, Structural)]
pub struct WaveRecord {
    /// Number of samples to play.
    pub nsamples: u32,
    /// Sample at which playback starts.
    pub offset: u32,
    /// Whether the buffer plays again when it ends.
    pub looping: bool,
    /// Owned by the hardware: queue status of the record.
    pub status: u8,
    /// Owned by the hardware: sequence number given when queued.
    pub sequence_id: u16,
}

/// A wave buffer ready to be queued on a channel: it borrows the buffer for
/// as long as it lives, and holds the record that the hardware reads.
pub struct WaveInfo<'b> {
    buffer: &'b mut WaveBuffer,
    raw_data: WaveRecord,
}

/// The number of samples that `len` bytes hold in format `f`.
pub open spec fn sample_count(len: nat, f: AudioFormat) -> nat {
    len / byte_width(f)
}

impl WaveBuffer {
    /// The length of the storage, in bytes.
    pub closed spec fn byte_len(&self) -> nat {
        self.len as nat
    }

    /// The format of the stored samples.
    pub closed spec fn format(&self) -> AudioFormat {
        self.audio_format
    }

    /// The number of samples, fixed when the buffer was made.
    pub closed spec fn samples(&self) -> nat {
        self.nsamples as nat
    }

    /// The format's sample size is known, the storage is no longer than the
    /// cache calls can address, and the sample count is the storage's length
    /// divided by the sample size.
    pub closed spec fn wf(&self) -> bool {
        &&& has_byte_width(self.audio_format)
        &&& self.len <= u32::MAX
        &&& self.nsamples as nat == sample_count(self.len as nat, self.audio_format)
    }

    /// Makes a buffer over `len` bytes of storage in `audio_format`, given the
    /// result code of flushing that storage from the CPU cache. The sample
    /// count is the length divided by the sample size, rounded down. A failed
    /// flush gives `Error::CacheFlush` with the code.
    pub fn new(len: usize, audio_format: AudioFormat, flush_status: i32) -> (r: Result<
        WaveBuffer,
        Error,
    >)
        requires
            has_byte_width(audio_format),
            len <= u32::MAX,
        ensures
            code_failed(flush_status) <==> r is Err,
            code_failed(flush_status) ==> r == Err::<WaveBuffer, Error>(
                Error::CacheFlush(flush_status),
            ),
            r matches Ok(b) ==> {
                &&& b.wf()
                &&& b.byte_len() == len
                &&& b.format() == audio_format
                &&& b.samples() == sample_count(len as nat, audio_format)
            },
    {
        let width = audio_format.bytes_size();
        let nsamples: usize = len / (width as usize);
        if flush_status < 0 {
            return Err(Error::CacheFlush(flush_status));
        }
        Ok(WaveBuffer { len, audio_format, nsamples })
    }

    /// The length of the storage, in bytes.
    pub fn storage_len(&self) -> (r: usize)
        ensures
            r as nat == self.byte_len(),
    {
        self.len
    }

    /// The format of the stored samples.
    pub fn get_format(&self) -> (r: AudioFormat)
        ensures
            r == self.format(),
    {
        self.audio_format
    }

    /// The number of samples in the buffer.
    pub fn get_sample_amount(&self) -> (r: usize)
        ensures
            r as nat == self.samples(),
    {
        self.nsamples
    }
}

impl<'b> WaveInfo<'b> {
    /// The record that the hardware reads.
    pub closed spec fn record(&self) -> WaveRecord {
        self.raw_data
    }

    /// The borrowed buffer.
    pub closed spec fn buffer(&self) -> WaveBuffer {
        *self.buffer
    }

    /// Wraps `buffer` for queueing: the record carries the buffer's sample
    /// count and the loop flag, starts at offset 0, and the fields that the
    /// hardware owns are zero.
    pub fn new(buffer: &'b mut WaveBuffer, looping: bool) -> (r: WaveInfo<'b>)
        requires
            old(buffer).wf(),
        ensures
            r.buffer() == *old(buffer),
            r.record().nsamples as nat == old(buffer).samples(),
            r.record() == (WaveRecord {
                nsamples: old(buffer).samples() as u32,
                offset: 0,
                looping,
                status: 0,
                sequence_id: 0,
            }),
    {
        assert(buffer.nsamples <= buffer.len) by (nonlinear_arith)
            requires
                buffer.nsamples as nat == sample_count(buffer.len as nat, buffer.audio_format),
                byte_width(buffer.audio_format) >= 1,
        ;
        let raw_data = WaveRecord {
            nsamples: buffer.nsamples as u32,
            offset: 0,
            looping,
            status: 0,
            sequence_id: 0,
        };
        WaveInfo { buffer, raw_data }
    }

    /// The record that the hardware reads.
    pub fn raw_record(&self) -> (r: WaveRecord)
        ensures
            r == self.record(),
    {
        self.raw_data
    }

    /// The borrowed buffer, to look at or change while it is not queued.
    pub fn get_mut_wavebuffer(&mut self) -> (r: &mut WaveBuffer)
        ensures
            *r == old(self).buffer(),
            final(self).buffer() == *final(r),
            final(self).record() == old(self).record(),
    {
        self.buffer
    }
}

} // verus!
