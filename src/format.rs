use vstd::prelude::*;

verus! {

/// Hardware selector for mono output.
pub const OUTPUT_MONO: u32 = 0;
/// Hardware selector for stereo output.
pub const OUTPUT_STEREO: u32 = 1;
/// Hardware selector for surround output.
pub const OUTPUT_SURROUND: u32 = 2;

/// Hardware selector for polyphase interpolation.
pub const INTERP_POLYPHASE: u32 = 0;
/// Hardware selector for linear interpolation.
pub const INTERP_LINEAR: u32 = 1;
/// Hardware selector for no interpolation.
pub const INTERP_NONE: u32 = 2;

/// Format word: one channel, 8-bit PCM (channel count 1, encoding 0).
pub const FORMAT_MONO_PCM8: u16 = 1;
/// Format word: one channel, 16-bit PCM (channel count 1, encoding 1 in bits 2..4).
pub const FORMAT_MONO_PCM16: u16 = 5;
/// Format word: one channel, ADPCM (channel count 1, encoding 2 in bits 2..4).
pub const FORMAT_MONO_ADPCM: u16 = 9;
/// Format word: two channels, 8-bit PCM.
pub const FORMAT_STEREO_PCM8: u16 = 2;
/// Format word: two channels, 16-bit PCM.
pub const FORMAT_STEREO_PCM16: u16 = 6;
/// Format flag: bypass the front mixer (bit 4).
pub const FORMAT_FRONT_BYPASS: u16 = 16;
/// Format flag: surround data that was processed beforehand (bit 6).
pub const FORMAT_SURROUND_PREPROCESSED: u16 = 64;

/// How the mixed audio is routed to the speakers.
#[derive(Debug, Clone, Copy, PartialEq, Eq, Structural)]
pub enum OutputMode {
    Mono,
    Stereo,
    Surround,
}

/// How a channel interpolates between samples.
#[derive(Debug, Clone, Copy, PartialEq, Eq, Structural)]
pub enum InterpolationType {
    Polyphase,
    Linear,
    Disabled,
}

/// The layout of the samples in a wave buffer.
#[derive(Debug, Clone, Copy, PartialEq, Eq, Structural)]
pub enum AudioFormat {
    PCM8Mono,
    PCM16Mono,
    ADPCMMono,
    PCM8Stereo,
    PCM16Stereo,
    FrontBypass,
    SurroundPreprocessed,
}

pub open spec fn output_mode_code(m: OutputMode) -> u32 {
    match m {
        OutputMode::Mono => OUTPUT_MONO,
        OutputMode::Stereo => OUTPUT_STEREO,
        OutputMode::Surround => OUTPUT_SURROUND,
    }
}

pub open spec fn output_mode_of_code(c: u32) -> Option<OutputMode> {
    if c == OUTPUT_MONO {
        Some(OutputMode::Mono)
    } else if c == OUTPUT_STEREO {
        Some(OutputMode::Stereo)
    } else if c == OUTPUT_SURROUND {
        Some(OutputMode::Surround)
    } else {
        None
    }
}

pub open spec fn interpolation_code(t: InterpolationType) -> u32 {
    match t {
        InterpolationType::Polyphase => INTERP_POLYPHASE,
        InterpolationType::Linear => INTERP_LINEAR,
        InterpolationType::Disabled => INTERP_NONE,
    }
}

pub open spec fn interpolation_of_code(c: u32) -> Option<InterpolationType> {
    if c == INTERP_POLYPHASE {
        Some(InterpolationType::Polyphase)
    } else if c == INTERP_LINEAR {
        Some(InterpolationType::Linear)
    } else if c == INTERP_NONE {
        Some(InterpolationType::Disabled)
    } else {
        None
    }
}

pub open spec fn format_code(f: AudioFormat) -> u16 {
    match f {
        AudioFormat::PCM8Mono => FORMAT_MONO_PCM8,
        AudioFormat::PCM16Mono => FORMAT_MONO_PCM16,
        AudioFormat::ADPCMMono => FORMAT_MONO_ADPCM,
        AudioFormat::PCM8Stereo => FORMAT_STEREO_PCM8,
        AudioFormat::PCM16Stereo => FORMAT_STEREO_PCM16,
        AudioFormat::FrontBypass => FORMAT_FRONT_BYPASS,
        AudioFormat::SurroundPreprocessed => FORMAT_SURROUND_PREPROCESSED,
    }
}

pub open spec fn format_of_code(c: u16) -> Option<AudioFormat> {
    if c == FORMAT_MONO_PCM8 {
        Some(AudioFormat::PCM8Mono)
    } else if c == FORMAT_MONO_PCM16 {
        Some(AudioFormat::PCM16Mono)
    } else if c == FORMAT_MONO_ADPCM {
        Some(AudioFormat::ADPCMMono)
    } else if c == FORMAT_STEREO_PCM8 {
        Some(AudioFormat::PCM8Stereo)
    } else if c == FORMAT_STEREO_PCM16 {
        Some(AudioFormat::PCM16Stereo)
    } else if c == FORMAT_FRONT_BYPASS {
        Some(AudioFormat::FrontBypass)
    } else if c == FORMAT_SURROUND_PREPROCESSED {
        Some(AudioFormat::SurroundPreprocessed)
    } else {
        None
    }
}

/// Whether the size of one sample is known for this format: it is for every
/// format but the preprocessed surround one.
pub open spec fn has_byte_width(f: AudioFormat) -> bool {
    f != AudioFormat::SurroundPreprocessed
}

/// Bytes per sample: 2 for the 16-bit formats, 1 for the others whose size
/// is known.
pub open spec fn byte_width(f: AudioFormat) -> nat {
    match f {
        AudioFormat::PCM16Mono | AudioFormat::PCM16Stereo => 2,
        _ => 1,
    }
}

impl OutputMode {
    /// The selector that the hardware expects for this mode.
    pub fn code(self) -> (r: u32)
        ensures
            r == output_mode_code(self),
    {
        match self {
            OutputMode::Mono => OUTPUT_MONO,
            OutputMode::Stereo => OUTPUT_STEREO,
            OutputMode::Surround => OUTPUT_SURROUND,
        }
    }

    /// The mode that a hardware selector stands for, if any.
    pub fn from_code(c: u32) -> (r: Option<OutputMode>)
        ensures
            r == output_mode_of_code(c),
    {
        if c == OUTPUT_MONO {
            Some(OutputMode::Mono)
        } else if c == OUTPUT_STEREO {
            Some(OutputMode::Stereo)
        } else if c == OUTPUT_SURROUND {
            Some(OutputMode::Surround)
        } else {
            None
        }
    }
}

impl InterpolationType {
    /// The selector that the hardware expects for this interpolation.
    pub fn code(self) -> (r: u32)
        ensures
            r == interpolation_code(self),
    {
        match self {
            InterpolationType::Polyphase => INTERP_POLYPHASE,
            InterpolationType::Linear => INTERP_LINEAR,
            InterpolationType::Disabled => INTERP_NONE,
        }
    }

    /// The interpolation that a hardware selector stands for, if any.
    pub fn from_code(c: u32) -> (r: Option<InterpolationType>)
        ensures
            r == interpolation_of_code(c),
    {
        if c == INTERP_POLYPHASE {
            Some(InterpolationType::Polyphase)
        } else if c == INTERP_LINEAR {
            Some(InterpolationType::Linear)
        } else if c == INTERP_NONE {
            Some(InterpolationType::Disabled)
        } else {
            None
        }
    }
}

impl AudioFormat {
    /// The format word that the hardware expects for this format.
    pub fn code(self) -> (r: u16)
        ensures
            r == format_code(self),
    {
        match self {
            AudioFormat::PCM8Mono => FORMAT_MONO_PCM8,
            AudioFormat::PCM16Mono => FORMAT_MONO_PCM16,
            AudioFormat::ADPCMMono => FORMAT_MONO_ADPCM,
            AudioFormat::PCM8Stereo => FORMAT_STEREO_PCM8,
            AudioFormat::PCM16Stereo => FORMAT_STEREO_PCM16,
            AudioFormat::FrontBypass => FORMAT_FRONT_BYPASS,
            AudioFormat::SurroundPreprocessed => FORMAT_SURROUND_PREPROCESSED,
        }
    }

    /// The format that a hardware format word stands for, if any.
    pub fn from_code(c: u16) -> (r: Option<AudioFormat>)
        ensures
            r == format_of_code(c),
    {
        if c == FORMAT_MONO_PCM8 {
            Some(AudioFormat::PCM8Mono)
        } else if c == FORMAT_MONO_PCM16 {
            Some(AudioFormat::PCM16Mono)
        } else if c == FORMAT_MONO_ADPCM {
            Some(AudioFormat::ADPCMMono)
        } else if c == FORMAT_STEREO_PCM8 {
            Some(AudioFormat::PCM8Stereo)
        } else if c == FORMAT_STEREO_PCM16 {
            Some(AudioFormat::PCM16Stereo)
        } else if c == FORMAT_FRONT_BYPASS {
            Some(AudioFormat::FrontBypass)
        } else if c == FORMAT_SURROUND_PREPROCESSED {
            Some(AudioFormat::SurroundPreprocessed)
        } else {
            None
        }
    }

    /// Whether `bytes_size` may be asked of this format.
    pub fn has_known_size(self) -> (r: bool)
        ensures
            r == has_byte_width(self),
    {
        !matches!(self, AudioFormat::SurroundPreprocessed)
    }

    /// The number of bytes that one sample takes: 1 for the 8-bit formats,
    /// ADPCM and front bypass, 2 for the 16-bit formats. The size of
    /// preprocessed surround samples is not known, so it may not be asked.
    pub fn bytes_size(self) -> (r: u8)
        requires
            has_byte_width(self),
        ensures
            r as nat == byte_width(self),
            r == 1 || r == 2,
    {
        match self {
            AudioFormat::PCM16Mono | AudioFormat::PCM16Stereo => 2,
            _ => 1,
        }
    }
}

/// Every output mode survives the trip to its hardware selector and back,
/// and each mode has its own selector.
pub proof fn lemma_output_mode_code_round_trip(m: OutputMode, n: OutputMode)
    ensures
        output_mode_of_code(output_mode_code(m)) == Some(m),
        output_mode_code(m) == output_mode_code(n) ==> m == n,
{
}

/// Every interpolation type survives the trip to its hardware selector and
/// back, and each has its own selector.
pub proof fn lemma_interpolation_code_round_trip(t: InterpolationType, u: InterpolationType)
    ensures
        interpolation_of_code(interpolation_code(t)) == Some(t),
        interpolation_code(t) == interpolation_code(u) ==> t == u,
{
}

/// Every audio format survives the trip to its hardware format word and
/// back, and each format has its own word.
pub proof fn lemma_format_code_round_trip(f: AudioFormat, g: AudioFormat)
    ensures
        format_of_code(format_code(f)) == Some(f),
        format_code(f) == format_code(g) ==> f == g,
{
}

} // verus!
