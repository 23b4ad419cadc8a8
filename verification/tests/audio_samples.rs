use scribe_jobs::audio::{audio_from, check_samples, read_audio};
use scribe_jobs::pipeline::JobError;

fn wav_bytes(channels: u16, bits: u16, samples: &[i16]) -> Vec<u8> {
    let spec = hound::WavSpec {
        channels,
        sample_rate: 16000,
        bits_per_sample: bits,
        sample_format: hound::SampleFormat::Int,
    };
    let mut cursor = std::io::Cursor::new(Vec::new());
    {
        let mut writer = hound::WavWriter::new(&mut cursor, spec).unwrap();
        for s in samples {
            writer.write_sample(*s).unwrap();
        }
        writer.finalize().unwrap();
    }
    cursor.into_inner()
}

#[test]
fn empty_audio_is_refused() {
    assert_eq!(check_samples(0), Err(JobError::EmptyInput));
    assert_eq!(check_samples(1), Ok(()));
    assert_eq!(check_samples(usize::MAX), Ok(()));
    assert_eq!(check_samples(0).unwrap_err().message(), "Audio file is empty");
}

#[test]
fn samples_of_a_wave_file_come_out_in_order() {
    let samples = [0i16, 1, -1, 256, -257, i16::MAX, i16::MIN];
    let bytes = wav_bytes(1, 16, &samples);
    assert_eq!(read_audio(&bytes), Ok(samples.to_vec()));
}

#[test]
fn two_channels_come_out_interleaved() {
    let samples = [10i16, -10, 20, -20, 30, -30];
    let bytes = wav_bytes(2, 16, &samples);
    assert_eq!(read_audio(&bytes), Ok(samples.to_vec()));
}

#[test]
fn eight_bit_samples_are_widened() {
    let samples = [0i16, 1, -1, 127, -128];
    let bytes = wav_bytes(1, 8, &samples);
    assert_eq!(read_audio(&bytes), Ok(samples.to_vec()));
}

#[test]
fn wave_file_without_samples_is_empty_input() {
    let bytes = wav_bytes(1, 16, &[]);
    assert_eq!(read_audio(&bytes), Err(JobError::EmptyInput));
}

#[test]
fn bytes_that_are_no_wave_file_are_a_filesystem_failure() {
    for bytes in [&b""[..], &b"RIFF"[..], &b"not a wave file at all"[..]] {
        match read_audio(bytes) {
            Err(JobError::Filesystem { detail }) => {
                assert!(detail.starts_with("Failed to open WAV file: "));
                assert!(detail.len() > "Failed to open WAV file: ".len());
            }
            other => panic!("unexpected outcome: {:?}", other),
        }
    }
}

#[test]
fn truncated_data_is_a_filesystem_failure() {
    let mut bytes = wav_bytes(1, 16, &[1, 2, 3, 4]);
    bytes.truncate(bytes.len() - 3);
    assert!(matches!(read_audio(&bytes), Err(JobError::Filesystem { .. })));
}

#[test]
fn samples_too_wide_for_sixteen_bits_are_a_filesystem_failure() {
    let spec = hound::WavSpec {
        channels: 1,
        sample_rate: 16000,
        bits_per_sample: 32,
        sample_format: hound::SampleFormat::Int,
    };
    let mut cursor = std::io::Cursor::new(Vec::new());
    {
        let mut writer = hound::WavWriter::new(&mut cursor, spec).unwrap();
        writer.write_sample(5i32).unwrap();
        writer.finalize().unwrap();
    }
    assert!(matches!(read_audio(&cursor.into_inner()), Err(JobError::Filesystem { .. })));
}

#[test]
fn judging_what_the_decoder_made() {
    assert_eq!(audio_from(Ok(vec![3, 4])), Ok(vec![3, 4]));
    assert_eq!(audio_from(Ok(vec![])), Err(JobError::EmptyInput));
    assert_eq!(
        audio_from(Err("FormatError(\"no RIFF tag found\")".to_string())),
        Err(JobError::Filesystem {
            detail: "Failed to open WAV file: FormatError(\"no RIFF tag found\")".to_string()
        })
    );
}
