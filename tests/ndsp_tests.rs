use ndsp::error::{is_failure, Error};
use ndsp::format::{
    FORMAT_FRONT_BYPASS, FORMAT_MONO_ADPCM, FORMAT_MONO_PCM16, FORMAT_MONO_PCM8,
    FORMAT_STEREO_PCM16, FORMAT_STEREO_PCM8, FORMAT_SURROUND_PREPROCESSED,
};
use ndsp::{
    AudioFormat, InterpolationType, DspOwnership, Ndsp, OutputMode, QueuedWave, WaveBuffer, WaveInfo, WaveQueue,
    WaveRecord,
};

const ALL_FORMATS: [AudioFormat; 7] = [
    AudioFormat::PCM8Mono,
    AudioFormat::PCM16Mono,
    AudioFormat::ADPCMMono,
    AudioFormat::PCM8Stereo,
    AudioFormat::PCM16Stereo,
    AudioFormat::FrontBypass,
    AudioFormat::SurroundPreprocessed,
];

fn ndsp() -> Ndsp {
    let mut owner = DspOwnership::new();
    Ndsp::init(&mut owner, 0).unwrap()
}

#[test]
fn init_succeeds_on_non_negative_code() {
    let mut owner = DspOwnership::new();
    assert!(owner.begin_init().is_ok());
    assert!(Ndsp::init(&mut owner, 0).is_ok());
    assert!(owner.live());
    let mut other = DspOwnership::new();
    assert!(Ndsp::init(&mut other, 5).is_ok());
}

#[test]
fn init_fails_on_negative_code() {
    let mut owner = DspOwnership::new();
    let code: i32 = -0x27ff_ffff;
    assert!(matches!(Ndsp::init(&mut owner, code), Err(Error::Init(c)) if c == code));
    assert!(!owner.live());
    assert!(matches!(Ndsp::init(&mut owner, -1), Err(Error::Init(-1))));
    assert!(Ndsp::init(&mut owner, 0).is_ok());
}

#[test]
fn second_init_is_refused_while_a_handle_is_live() {
    let mut owner = DspOwnership::new();
    let first = Ndsp::init(&mut owner, 0);
    assert!(first.is_ok());
    assert_eq!(owner.begin_init(), Err(Error::AlreadyInitialized));
    assert!(matches!(Ndsp::init(&mut owner, 0), Err(Error::AlreadyInitialized)));
    assert!(matches!(Ndsp::init(&mut owner, -3), Err(Error::AlreadyInitialized)));
    assert!(owner.live());
    drop(first);
    owner.release();
    assert!(!owner.live());
    assert_eq!(owner.begin_init(), Ok(()));
    assert!(Ndsp::init(&mut owner, 0).is_ok());
}

#[test]
fn failure_codes_are_the_negative_ones() {
    assert!(is_failure(-1));
    assert!(is_failure(i32::MIN));
    assert!(!is_failure(0));
    assert!(!is_failure(1));
}

#[test]
fn every_valid_channel_carries_its_index() {
    let n = ndsp();
    for i in 0u8..=23 {
        let c = n.channel(i).unwrap();
        assert_eq!(c.id(), i as i32);
    }
}

#[test]
fn channels_above_23_are_refused_with_their_index() {
    let n = ndsp();
    for i in 24u8..=255 {
        assert_eq!(n.channel(i).err(), Some(Error::InvalidChannel(i as i32)));
    }
}

#[test]
fn channel_edges() {
    let n = ndsp();
    assert_eq!(n.channel(0).unwrap().id(), 0);
    assert_eq!(n.channel(23).unwrap().id(), 23);
    assert_eq!(n.channel(24).err(), Some(Error::InvalidChannel(24)));
    assert_eq!(n.channel(255).err(), Some(Error::InvalidChannel(255)));
}

#[test]
fn byte_widths() {
    assert_eq!(AudioFormat::PCM8Mono.bytes_size(), 1);
    assert_eq!(AudioFormat::PCM8Stereo.bytes_size(), 1);
    assert_eq!(AudioFormat::FrontBypass.bytes_size(), 1);
    assert_eq!(AudioFormat::ADPCMMono.bytes_size(), 1);
    assert_eq!(AudioFormat::PCM16Mono.bytes_size(), 2);
    assert_eq!(AudioFormat::PCM16Stereo.bytes_size(), 2);
}

#[test]
fn only_preprocessed_surround_has_no_size() {
    for f in ALL_FORMATS {
        assert_eq!(f.has_known_size(), f != AudioFormat::SurroundPreprocessed);
    }
}

#[test]
fn format_words_match_the_hardware() {
    assert_eq!(AudioFormat::PCM8Mono.code(), FORMAT_MONO_PCM8);
    assert_eq!(AudioFormat::PCM16Mono.code(), FORMAT_MONO_PCM16);
    assert_eq!(AudioFormat::ADPCMMono.code(), FORMAT_MONO_ADPCM);
    assert_eq!(AudioFormat::PCM8Stereo.code(), FORMAT_STEREO_PCM8);
    assert_eq!(AudioFormat::PCM16Stereo.code(), FORMAT_STEREO_PCM16);
    assert_eq!(AudioFormat::FrontBypass.code(), FORMAT_FRONT_BYPASS);
    assert_eq!(AudioFormat::SurroundPreprocessed.code(), FORMAT_SURROUND_PREPROCESSED);
    assert_eq!(AudioFormat::PCM8Mono.code(), 1);
    assert_eq!(AudioFormat::PCM16Mono.code(), 5);
    assert_eq!(AudioFormat::ADPCMMono.code(), 9);
    assert_eq!(AudioFormat::PCM8Stereo.code(), 2);
    assert_eq!(AudioFormat::PCM16Stereo.code(), 6);
    assert_eq!(AudioFormat::FrontBypass.code(), 16);
    assert_eq!(AudioFormat::SurroundPreprocessed.code(), 64);
}

#[test]
fn format_words_round_trip() {
    for f in ALL_FORMATS {
        assert_eq!(AudioFormat::from_code(f.code()), Some(f));
    }
    assert_eq!(AudioFormat::from_code(0), None);
    assert_eq!(AudioFormat::from_code(3), None);
}

#[test]
fn output_mode_selectors_round_trip() {
    assert_eq!(OutputMode::Mono.code(), 0);
    assert_eq!(OutputMode::Stereo.code(), 1);
    assert_eq!(OutputMode::Surround.code(), 2);
    for m in [OutputMode::Mono, OutputMode::Stereo, OutputMode::Surround] {
        assert_eq!(OutputMode::from_code(m.code()), Some(m));
    }
    assert_eq!(OutputMode::from_code(3), None);
}

#[test]
fn interpolation_selectors_round_trip() {
    assert_eq!(InterpolationType::Polyphase.code(), 0);
    assert_eq!(InterpolationType::Linear.code(), 1);
    assert_eq!(InterpolationType::Disabled.code(), 2);
    for t in [InterpolationType::Polyphase, InterpolationType::Linear, InterpolationType::Disabled] {
        assert_eq!(InterpolationType::from_code(t.code()), Some(t));
    }
    assert_eq!(InterpolationType::from_code(7), None);
}

#[test]
fn output_mode_defaults_to_stereo_and_reads_back() {
    let mut n = ndsp();
    assert_eq!(n.output_mode(), OutputMode::Stereo);
    n.set_output_mode(OutputMode::Surround);
    assert_eq!(n.output_mode(), OutputMode::Surround);
    n.set_output_mode(OutputMode::Mono);
    assert_eq!(n.output_mode(), OutputMode::Mono);
}

#[test]
fn buffer_of_1024_bytes_in_16_bit_holds_512_samples() {
    let b = WaveBuffer::new(1024, AudioFormat::PCM16Mono, 0).unwrap();
    assert_eq!(b.get_sample_amount(), 512);
    assert_eq!(b.get_format(), AudioFormat::PCM16Mono);
}

#[test]
fn buffer_sample_count_divides_by_width() {
    for f in ALL_FORMATS {
        if !f.has_known_size() {
            continue;
        }
        for len in [0usize, 1, 2, 3, 7, 1000, 1023] {
            let b = WaveBuffer::new(len, f, 0).unwrap();
            assert_eq!(b.get_sample_amount(), len / f.bytes_size() as usize);
            assert_eq!(b.get_format(), f);
        }
    }
}

#[test]
fn odd_length_in_16_bit_truncates() {
    let b = WaveBuffer::new(7, AudioFormat::PCM16Stereo, 0).unwrap();
    assert_eq!(b.get_sample_amount(), 3);
}

#[test]
fn empty_buffer_has_no_samples() {
    let b = WaveBuffer::new(0, AudioFormat::PCM8Mono, 0).unwrap();
    assert_eq!(b.get_sample_amount(), 0);
}

#[test]
fn failed_flush_is_reported() {
    let r = WaveBuffer::new(16, AudioFormat::PCM8Mono, -5);
    assert!(matches!(r, Err(Error::CacheFlush(-5))));
}

#[test]
fn buffer_keeps_its_length() {
    let b = WaveBuffer::new(4, AudioFormat::PCM8Stereo, 0).unwrap();
    assert_eq!(b.storage_len(), 4);
    assert_eq!(b.get_sample_amount(), 4);
    let b = WaveBuffer::new(u32::MAX as usize, AudioFormat::PCM16Mono, 0).unwrap();
    assert_eq!(b.storage_len(), u32::MAX as usize);
    assert_eq!(b.get_sample_amount(), (u32::MAX / 2) as usize);
}

#[test]
fn wave_info_keeps_loop_flag_and_zeroes_the_rest() {
    for looping in [false, true] {
        let mut b = WaveBuffer::new(1024, AudioFormat::PCM16Mono, 0).unwrap();
        let w = WaveInfo::new(&mut b, looping);
        assert_eq!(
            w.raw_record(),
            WaveRecord { nsamples: 512, offset: 0, looping, status: 0, sequence_id: 0 }
        );
    }
}

#[test]
fn wave_info_lends_its_buffer() {
    let mut b = WaveBuffer::new(6, AudioFormat::PCM8Mono, 0).unwrap();
    let mut w = WaveInfo::new(&mut b, false);
    assert_eq!(w.get_mut_wavebuffer().get_sample_amount(), 6);
    assert_eq!(w.raw_record().nsamples, 6);
}

#[test]
fn wave_info_of_largest_buffer() {
    let mut b = WaveBuffer::new(u32::MAX as usize, AudioFormat::PCM8Mono, 0).unwrap();
    let w = WaveInfo::new(&mut b, true);
    assert_eq!(w.raw_record().nsamples, u32::MAX);
}

#[test]
fn clear_queue_stops_playback() {
    let mut q = WaveQueue::new();
    q.queue_wave(1, 100);
    q.queue_wave(2, 50);
    assert!(q.is_playing());
    q.clear_queue();
    assert!(!q.is_playing());
    assert_eq!(q.len(), 0);
    assert!(q.is_reclaimable(1));
    assert!(q.is_reclaimable(2));
}

#[test]
fn queueing_on_empty_queue_starts_playback() {
    let mut q = WaveQueue::new();
    assert!(!q.is_playing());
    assert!(q.queue_wave(7, 512));
    assert!(q.is_playing());
    assert!(!q.queue_wave(8, 512));
}

#[test]
fn empty_wave_does_not_play() {
    let mut q = WaveQueue::new();
    assert!(q.queue_wave(7, 0));
    assert!(!q.is_playing());
}

#[test]
fn queue_finishes_in_order() {
    let mut q = WaveQueue::new();
    q.queue_wave(1, 10);
    q.queue_wave(2, 20);
    assert!(!q.is_reclaimable(1));
    assert!(!q.is_reclaimable(2));
    assert!(q.is_reclaimable(3));
    assert_eq!(q.finish_front(), Some(QueuedWave { key: 1, nsamples: 10 }));
    assert!(q.is_reclaimable(1));
    assert!(!q.is_reclaimable(2));
    assert_eq!(q.finish_front(), Some(QueuedWave { key: 2, nsamples: 20 }));
    assert_eq!(q.finish_front(), None);
    assert!(!q.is_playing());
}
