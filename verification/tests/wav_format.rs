//! The reference container: the verified chunk scan and the decoded
//! template agree on a WAV file built byte by byte.

use frosk::dsp::TemplateError;
use frosk::dsp::Target;
use frosk::wav::target_sample_count;
use frosk::wav::WavError;

/// A minimal mono 32-bit integer PCM WAV container holding `samples`.
fn wav_bytes(samples: &[i32]) -> Vec<u8> {
    let data_len = (samples.len() * 4) as u32;
    let mut bytes: Vec<u8> = Vec::new();
    bytes.extend_from_slice(b"RIFF");
    bytes.extend_from_slice(&(4 + 24 + 8 + data_len).to_le_bytes());
    bytes.extend_from_slice(b"WAVE");
    // The fmt chunk: PCM, one channel, 44100 Hz, 32 bits per sample.
    bytes.extend_from_slice(b"fmt ");
    bytes.extend_from_slice(&16u32.to_le_bytes());
    bytes.extend_from_slice(&1u16.to_le_bytes()); // format tag: PCM
    bytes.extend_from_slice(&1u16.to_le_bytes()); // channels
    bytes.extend_from_slice(&44100u32.to_le_bytes()); // sample rate
    bytes.extend_from_slice(&(44100u32 * 4).to_le_bytes()); // byte rate
    bytes.extend_from_slice(&4u16.to_le_bytes()); // block align
    bytes.extend_from_slice(&32u16.to_le_bytes()); // bits per sample
    // The data chunk.
    bytes.extend_from_slice(b"data");
    bytes.extend_from_slice(&data_len.to_le_bytes());
    for s in samples {
        bytes.extend_from_slice(&s.to_le_bytes());
    }
    bytes
}

#[test]
fn sample_count_comes_from_the_data_chunk() {
    let bytes = wav_bytes(&[5, -6, 7, -8, 9]);
    assert_eq!(target_sample_count(&bytes), 5);
}

#[test]
fn sample_count_skips_foreign_chunks() {
    // A LIST chunk sits between fmt and data; the scan must step over it.
    let mut bytes = wav_bytes(&[1, 2, 3]);
    let data_start = 36;
    let mut listed: Vec<u8> = bytes[..data_start].to_vec();
    listed.extend_from_slice(b"LIST");
    listed.extend_from_slice(&6u32.to_le_bytes());
    listed.extend_from_slice(b"INFOab");
    listed.extend_from_slice(&bytes.split_off(data_start));
    assert_eq!(target_sample_count(&listed), 3);
}

#[test]
fn sample_count_without_a_data_chunk_is_zero() {
    let bytes = wav_bytes(&[]);
    let headers_only = &bytes[..36];
    assert_eq!(target_sample_count(headers_only), 0);
}

#[test]
fn template_round_trips_through_the_container() {
    let samples: Vec<i32> = vec![100, -200, 300, -400];
    let bytes = wav_bytes(&samples);
    let target = Target::from_wav_bytes(&bytes).unwrap();
    assert_eq!(target.len(), 4);
    assert_eq!(target.norm(), 10000 + 40000 + 90000 + 160000);

    // The count the header advertises matches what was decoded.
    assert_eq!(target_sample_count(&bytes) as usize, target.len());
}

#[test]
fn garbage_bytes_are_unreadable() {
    let garbage: Vec<u8> = vec![0x42; 64];
    assert_eq!(Target::from_wav_bytes(&garbage).unwrap_err(), WavError::Unreadable);
}

#[test]
fn a_silent_container_makes_no_template() {
    let bytes = wav_bytes(&[0, 0, 0]);
    assert_eq!(
        Target::from_wav_bytes(&bytes).unwrap_err(),
        WavError::Template { error: TemplateError::Silent }
    );
}

#[test]
fn an_empty_container_makes_no_template() {
    let bytes = wav_bytes(&[]);
    assert_eq!(
        Target::from_wav_bytes(&bytes).unwrap_err(),
        WavError::Template { error: TemplateError::Empty }
    );
}
