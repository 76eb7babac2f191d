use audio_purifai::audio::{
    ffprobe_args, ffprobe_error, probe_wav, summarize_probe, wants_wav_fast_path, MediaDuration, ProbeFailure,
    ProbeFormat, ProbeOutput, ProbeStream,
};

fn wav_bytes(channels: u16, sample_rate: u32, bits: u16, data: &[u8]) -> Vec<u8> {
    let block_align = channels * (bits / 8);
    let mut v = Vec::new();
    v.extend_from_slice(b"RIFF");
    v.extend_from_slice(&(36 + data.len() as u32).to_le_bytes());
    v.extend_from_slice(b"WAVE");
    v.extend_from_slice(b"fmt ");
    v.extend_from_slice(&16u32.to_le_bytes());
    v.extend_from_slice(&1u16.to_le_bytes());
    v.extend_from_slice(&channels.to_le_bytes());
    v.extend_from_slice(&sample_rate.to_le_bytes());
    v.extend_from_slice(&(sample_rate * block_align as u32).to_le_bytes());
    v.extend_from_slice(&block_align.to_le_bytes());
    v.extend_from_slice(&bits.to_le_bytes());
    v.extend_from_slice(b"data");
    v.extend_from_slice(&(data.len() as u32).to_le_bytes());
    v.extend_from_slice(data);
    v
}

fn stream(kind: Option<&str>, rate: Option<&str>, channels: Option<u16>) -> ProbeStream {
    ProbeStream {
        codec_type: kind.map(|s| s.to_string()),
        sample_rate: rate.map(|s| s.to_string()),
        channels,
    }
}

#[test]
fn probe_wav_reads_header() {
    let bytes = wav_bytes(2, 48000, 16, &[0u8; 16]);
    let facts = probe_wav(&bytes).unwrap();
    assert_eq!(facts.sample_rate, Some(48000));
    assert_eq!(facts.channels, Some(2));
    assert_eq!(facts.media_type, "audio");
    assert!(facts.has_audio);
    assert!(!facts.has_video);
    match facts.duration {
        MediaDuration::Frames { frames, sample_rate, channels } => {
            assert_eq!((frames, sample_rate, channels), (4, 48000, 2));
        }
        MediaDuration::Reported(_) => panic!("expected frames"),
    }
}

#[test]
fn probe_wav_reports_hound_errors() {
    let bad = b"RIFX0000WAVE".to_vec();
    let expected = hound::WavReader::new(std::io::Cursor::new(&bad[..])).err().unwrap().to_string();
    assert_eq!(probe_wav(&bad).err(), Some(expected));
    let empty: Vec<u8> = Vec::new();
    assert!(probe_wav(&empty).is_err());
}

#[test]
fn wav_fast_path_by_extension() {
    assert!(wants_wav_fast_path("/a/b/take.wav"));
    assert!(wants_wav_fast_path("take.WaV"));
    assert!(!wants_wav_fast_path("take.mp3"));
    assert!(!wants_wav_fast_path("wav"));
    assert!(!wants_wav_fast_path(".wav"));
    assert!(!wants_wav_fast_path("take.wave"));
}

#[test]
fn ffprobe_arguments() {
    assert_eq!(
        ffprobe_args("/v/clip.mp4"),
        vec!["-v", "quiet", "-print_format", "json", "-show_streams", "-show_format", "/v/clip.mp4"]
    );
}

#[test]
fn ffprobe_error_messages() {
    assert_eq!(ffprobe_error(ProbeFailure::Launch, "boom"), "Failed to run ffprobe: boom");
    assert_eq!(ffprobe_error(ProbeFailure::Exit, "bad file"), "ffprobe failed: bad file");
    assert_eq!(ffprobe_error(ProbeFailure::Parse, "eof"), "Failed to parse ffprobe output: eof");
}

#[test]
fn summarize_video_with_audio() {
    let out = ProbeOutput {
        streams: Some(vec![
            stream(Some("video"), None, None),
            stream(Some("audio"), Some("44100"), Some(2)),
            stream(Some("audio"), Some("8000"), Some(1)),
        ]),
        format: Some(ProbeFormat { duration: Some("12.5".to_string()) }),
    };
    let f = summarize_probe(out);
    assert!(f.has_audio);
    assert!(f.has_video);
    assert_eq!(f.media_type, "video");
    assert_eq!(f.sample_rate, Some(44100));
    assert_eq!(f.channels, Some(2));
    match f.duration {
        MediaDuration::Reported(d) => assert_eq!(d, Some("12.5".to_string())),
        _ => panic!("expected reported duration"),
    }
}

#[test]
fn summarize_without_streams() {
    let f = summarize_probe(ProbeOutput { streams: None, format: None });
    assert!(!f.has_audio);
    assert!(!f.has_video);
    assert_eq!(f.media_type, "audio");
    assert_eq!(f.sample_rate, None);
    assert_eq!(f.channels, None);
    match f.duration {
        MediaDuration::Reported(d) => assert_eq!(d, None),
        _ => panic!("expected reported duration"),
    }
}

#[test]
fn summarize_bad_sample_rate_text() {
    let out = ProbeOutput {
        streams: Some(vec![stream(None, Some("1"), Some(9)), stream(Some("audio"), Some("n/a"), Some(6))]),
        format: Some(ProbeFormat { duration: None }),
    };
    let f = summarize_probe(out);
    assert!(f.has_audio);
    assert_eq!(f.sample_rate, None);
    assert_eq!(f.channels, Some(6));
}
