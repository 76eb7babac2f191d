//! What is known about a media file: from its WAV header, read with `hound`,
//! or from the stream list that `ffprobe` reports.
//!
//! Durations are kept as the numbers they come from; turning them into
//! seconds is floating-point work left to the caller.

use vstd::prelude::*;
use crate::paths::{extension_of, path_extension, texts};
use crate::queue::opt_text;
use crate::text::{parse_u32, parsed_u32, same_text};

verus! {

/// What `hound::WavReader::new` reads from a WAV file's bytes: the sample rate,
/// the channel count and the duration in frames (`WavReader::duration`), or
/// the text of the error it reports.
pub uninterp spec fn wav_header(bytes: Seq<u8>) -> Result<(u32, u16, u32), Seq<char>>;

/// Reads a WAV header with `hound::WavReader::new` over the bytes, then
/// `WavReader::spec` and `WavReader::duration`; an error is turned into its
/// `Display` text. The contract names the outcome [`wav_header`] and says
/// nothing more of it.
#[verifier::external_body]
fn read_wav_header(bytes: &[u8]) -> (r: Result<(u32, u16, u32), String>)
    ensures
        match r {
            Ok(h) => wav_header(bytes@) == Ok::<(u32, u16, u32), Seq<char>>(h),
            Err(e) => wav_header(bytes@) == Err::<(u32, u16, u32), Seq<char>>(e@),
        },
{
    match hound::WavReader::new(std::io::Cursor::new(bytes)) {
        Ok(reader) => Ok((reader.spec().sample_rate, reader.spec().channels, reader.duration())),
        Err(error) => Err(error.to_string()),
    }
}

/// How long a file lasts, in the terms its source gives.
pub enum MediaDuration {
    /// From a WAV header: the frame count, the sample rate and the channel count.
    Frames { frames: u32, sample_rate: u32, channels: u16 },
    /// From `ffprobe`: the duration text it printed, if any.
    Reported(Option<String>),
}

/// What is known about a media file.
pub struct MediaFacts {
    pub duration: MediaDuration,
    pub sample_rate: Option<u32>,
    pub channels: Option<u16>,
    pub media_type: String,
    pub has_audio: bool,
    pub has_video: bool,
}

/// The facts of a WAV file whose header holds `sample_rate`, `channels` and
/// `frames`: an audio file with those numbers.
pub open spec fn is_wav_facts(f: MediaFacts, sample_rate: u32, channels: u16, frames: u32) -> bool {
    &&& f.duration matches MediaDuration::Frames { frames: fr, sample_rate: sr, channels: ch } && fr
        == frames && sr == sample_rate && ch == channels
    &&& f.sample_rate == Some(sample_rate)
    &&& f.channels == Some(channels)
    &&& f.media_type@ == "audio"@
    &&& f.has_audio
    &&& !f.has_video
}

/// Reads the facts of a WAV file from its bytes.
pub fn probe_wav(bytes: &[u8]) -> (r: Result<MediaFacts, String>)
    ensures
        match wav_header(bytes@) {
            Ok((sr, ch, fr)) => r matches Ok(f) && is_wav_facts(f, sr, ch, fr),
            Err(e) => r matches Err(m) && m@ == e,
        },
{
    match read_wav_header(bytes) {
        Ok((sample_rate, channels, frames)) => Ok(
            MediaFacts {
                duration: MediaDuration::Frames { frames, sample_rate, channels },
                sample_rate: Some(sample_rate),
                channels: Some(channels),
                media_type: String::from_str("audio"),
                has_audio: true,
                has_video: false,
            },
        ),
        Err(e) => Err(e),
    }
}

/// Whether an extension is `wav` in any mix of letter cases, which is when
/// `str::to_lowercase` turns it into `wav`.
pub open spec fn is_wav_extension(e: Seq<char>) -> bool {
    &&& e.len() == 3
    &&& (e[0] == 'w' || e[0] == 'W')
    &&& (e[1] == 'a' || e[1] == 'A')
    &&& (e[2] == 'v' || e[2] == 'V')
}

/// Whether a file is first tried as WAV: when its extension is `wav`, in any case.
pub open spec fn takes_wav_path(path: Seq<char>) -> bool {
    path_extension(path) matches Some(e) && is_wav_extension(e)
}

/// Whether a file is first read as WAV before `ffprobe` is asked.
pub fn wants_wav_fast_path(path: &str) -> (r: bool)
    ensures
        r == takes_wav_path(path@),
{
    match extension_of(path) {
        Some(e) => {
            let s = e.as_str();
            if s.unicode_len() != 3 {
                return false;
            }
            let a = s.get_char(0);
            let b = s.get_char(1);
            let c = s.get_char(2);
            (a == 'w' || a == 'W') && (b == 'a' || b == 'A') && (c == 'v' || c == 'V')
        },
        None => false,
    }
}

/// The arguments that make `ffprobe` print the streams and format of `path` as JSON.
pub open spec fn ffprobe_arg_list(path: Seq<char>) -> Seq<Seq<char>> {
    seq![
        "-v"@,
        "quiet"@,
        "-print_format"@,
        "json"@,
        "-show_streams"@,
        "-show_format"@,
        path,
    ]
}

/// The arguments of the `ffprobe` run on `path`.
pub fn ffprobe_args(path: &str) -> (r: Vec<String>)
    ensures
        texts(r@) == ffprobe_arg_list(path@),
{
    let mut r: Vec<String> = Vec::new();
    r.push(String::from_str("-v"));
    r.push(String::from_str("quiet"));
    r.push(String::from_str("-print_format"));
    r.push(String::from_str("json"));
    r.push(String::from_str("-show_streams"));
    r.push(String::from_str("-show_format"));
    r.push(String::from_str(path));
    assert(texts(r@) =~= ffprobe_arg_list(path@));
    r
}

/// The stages at which asking `ffprobe` can fail.
#[derive(Clone, Copy, PartialEq, Eq, Structural, Debug)]
pub enum ProbeFailure {
    /// The program could not be run.
    Launch,
    /// It ran and reported failure.
    Exit,
    /// Its output is not the JSON expected.
    Parse,
}

/// The message for a failure of `ffprobe`, given the detail of the failure.
pub open spec fn probe_failure_message(stage: ProbeFailure, detail: Seq<char>) -> Seq<char> {
    match stage {
        ProbeFailure::Launch => "Failed to run ffprobe: "@ + detail,
        ProbeFailure::Exit => "ffprobe failed: "@ + detail,
        ProbeFailure::Parse => "Failed to parse ffprobe output: "@ + detail,
    }
}

/// The message for a failure of `ffprobe`.
pub fn ffprobe_error(stage: ProbeFailure, detail: &str) -> (r: String)
    ensures
        r@ == probe_failure_message(stage, detail@),
{
    let head = match stage {
        ProbeFailure::Launch => "Failed to run ffprobe: ",
        ProbeFailure::Exit => "ffprobe failed: ",
        ProbeFailure::Parse => "Failed to parse ffprobe output: ",
    };
    String::from_str(head).concat(detail)
}

/// One stream as `ffprobe` describes it.
pub struct ProbeStream {
    pub codec_type: Option<String>,
    pub sample_rate: Option<String>,
    pub channels: Option<u16>,
}

/// The format section of `ffprobe`'s report.
pub struct ProbeFormat {
    pub duration: Option<String>,
}

/// `ffprobe`'s report on a file.
pub struct ProbeOutput {
    pub streams: Option<Vec<ProbeStream>>,
    pub format: Option<ProbeFormat>,
}

/// The streams of a report; none when it lists none.
pub open spec fn streams_of(o: ProbeOutput) -> Seq<ProbeStream> {
    match o.streams {
        Some(v) => v@,
        None => Seq::empty(),
    }
}

/// Whether a stream is of the given codec type.
pub open spec fn is_kind(s: ProbeStream, kind: Seq<char>) -> bool {
    s.codec_type matches Some(c) && c@ == kind
}

/// Whether some stream is of the given codec type.
pub open spec fn has_kind(streams: Seq<ProbeStream>, kind: Seq<char>) -> bool {
    exists|i: int| 0 <= i < streams.len() && is_kind(#[trigger] streams[i], kind)
}

/// The index of the first stream from `i` on of the given codec type.
pub open spec fn first_kind_from(streams: Seq<ProbeStream>, kind: Seq<char>, i: int) -> Option<int>
    decreases streams.len() - i,
{
    if i < 0 || i >= streams.len() {
        None
    } else if is_kind(streams[i], kind) {
        Some(i)
    } else {
        first_kind_from(streams, kind, i + 1)
    }
}

/// The sample rate of a stream: its text parsed as `u32`, when that succeeds.
pub open spec fn stream_rate(s: ProbeStream) -> Option<u32> {
    match s.sample_rate {
        Some(t) => parsed_u32(t@),
        None => None,
    }
}

/// The facts `ffprobe`'s report gives: whether there is audio and video, the
/// sample rate and channels of the first audio stream, the reported duration,
/// and `video` as the media type when there is a video stream, else `audio`.
pub open spec fn is_probe_facts(f: MediaFacts, o: ProbeOutput) -> bool {
    let streams = streams_of(o);
    &&& f.has_audio == has_kind(streams, "audio"@)
    &&& f.has_video == has_kind(streams, "video"@)
    &&& f.media_type@ == (if has_kind(streams, "video"@) {
        "video"@
    } else {
        "audio"@
    })
    &&& match first_kind_from(streams, "audio"@, 0) {
        Some(k) => f.sample_rate == stream_rate(streams[k]) && f.channels == streams[k].channels,
        None => f.sample_rate is None && f.channels is None,
    }
    &&& f.duration matches MediaDuration::Reported(d) && opt_text(d) == match o.format {
        Some(fmt) => opt_text(fmt.duration),
        None => None,
    }
}

proof fn lemma_first_kind_from(streams: Seq<ProbeStream>, kind: Seq<char>, i: int)
    requires
        0 <= i,
    ensures
        match first_kind_from(streams, kind, i) {
            Some(k) => i <= k < streams.len() && is_kind(streams[k], kind) && forall|j: int|
                i <= j < k ==> !is_kind(#[trigger] streams[j], kind),
            None => forall|j: int| i <= j < streams.len() ==> !is_kind(#[trigger] streams[j], kind),
        },
    decreases streams.len() - i,
{
    if i < streams.len() && !is_kind(streams[i], kind) {
        lemma_first_kind_from(streams, kind, i + 1);
    }
}

/// The index of the first stream of the given codec type.
fn first_of_kind(streams: &Vec<ProbeStream>, kind: &str) -> (r: Option<usize>)
    ensures
        match r {
            Some(k) => k < streams@.len() && first_kind_from(streams@, kind@, 0) == Some(k as int),
            None => first_kind_from(streams@, kind@, 0) is None,
        },
{
    let n = streams.len();
    let mut i: usize = 0;
    while i < n
        invariant
            n == streams@.len(),
            i <= n,
            first_kind_from(streams@, kind@, 0) == first_kind_from(streams@, kind@, i as int),
        decreases n - i,
    {
        let hit = match &streams[i].codec_type {
            Some(c) => same_text(c.as_str(), kind),
            None => false,
        };
        if hit {
            return Some(i);
        }
        i = i + 1;
    }
    None
}

/// Summarises `ffprobe`'s report on a file.
pub fn summarize_probe(output: ProbeOutput) -> (r: MediaFacts)
    ensures
        is_probe_facts(r, output),
{
    let ghost o = output;
    let streams = match output.streams {
        Some(v) => v,
        None => Vec::new(),
    };
    assert(streams@ == streams_of(o));
    let audio = first_of_kind(&streams, "audio");
    let video = first_of_kind(&streams, "video");
    proof {
        lemma_first_kind_from(streams@, "audio"@, 0);
        lemma_first_kind_from(streams@, "video"@, 0);
    }
    let has_audio = audio.is_some();
    let has_video = video.is_some();
    let (sample_rate, channels) = match audio {
        Some(k) => {
            let rate = match &streams[k].sample_rate {
                Some(t) => parse_u32(t.as_str()),
                None => None,
            };
            (rate, streams[k].channels)
        },
        None => (None, None),
    };
    let duration = match output.format {
        Some(f) => f.duration,
        None => None,
    };
    MediaFacts {
        duration: MediaDuration::Reported(duration),
        sample_rate,
        channels,
        media_type: String::from_str(
            if has_video {
                "video"
            } else {
                "audio"
            },
        ),
        has_audio,
        has_video,
    }
}


/// Whatever its position in the report, the first audio stream gives the
/// sample rate (its text parsed as a `u32`) and the channel count; with no
/// audio stream both are unknown. There is audio (or video) exactly when some
/// stream has that codec type, and the media type is `video` exactly when
/// there is video.
pub proof fn law_first_audio_stream_gives_numbers(f: MediaFacts, o: ProbeOutput, k: int)
    requires
        is_probe_facts(f, o),
    ensures
        streams_of(o) == match o.streams {
            Some(v) => v@,
            None => Seq::<ProbeStream>::empty(),
        },
        (0 <= k < streams_of(o).len() && is_kind(streams_of(o)[k], "audio"@) && (forall|j: int|
            0 <= j < k ==> !is_kind(#[trigger] streams_of(o)[j], "audio"@))) ==> {
            &&& f.channels == streams_of(o)[k].channels
            &&& f.sample_rate == match streams_of(o)[k].sample_rate {
                Some(t) => parsed_u32(t@),
                None => None,
            }
        },
        (forall|j: int|
            0 <= j < streams_of(o).len() ==> !is_kind(#[trigger] streams_of(o)[j], "audio"@))
            ==> f.sample_rate is None && f.channels is None,
        f.has_audio == exists|j: int|
            0 <= j < streams_of(o).len() && is_kind(#[trigger] streams_of(o)[j], "audio"@),
        f.has_video == exists|j: int|
            0 <= j < streams_of(o).len() && is_kind(#[trigger] streams_of(o)[j], "video"@),
        f.media_type@ == (if f.has_video {
            "video"@
        } else {
            "audio"@
        }),
{
    let streams = streams_of(o);
    lemma_first_kind_from(streams, "audio"@, 0);
    match first_kind_from(streams, "audio"@, 0) {
        Some(i) => {
            if 0 <= k < streams.len() && is_kind(streams[k], "audio"@) && (forall|j: int|
                0 <= j < k ==> !is_kind(#[trigger] streams[j], "audio"@)) {
                if i < k {
                    assert(!is_kind(streams[i], "audio"@));
                } else if k < i {
                    assert(!is_kind(streams[k], "audio"@));
                }
            }
            assert(is_kind(streams[i], "audio"@));
        },
        None => {},
    }
}

/// The code of a character after ASCII lower-casing.
pub open spec fn lower_code(c: char) -> u32 {
    let u = c as u32;
    if 65 <= u <= 90 {
        (u + 32) as u32
    } else {
        u
    }
}

/// The WAV fast path is taken exactly when the path has an extension of three
/// characters that lower-case to `w`, `a`, `v`.
pub proof fn law_wav_fast_path_ignores_case(path: Seq<char>)
    ensures
        takes_wav_path(path) == (path_extension(path) matches Some(e) && e.len() == 3 && lower_code(
            e[0],
        ) == 119 && lower_code(e[1]) == 97 && lower_code(e[2]) == 118),
{
    match path_extension(path) {
        Some(e) => {
            if e.len() == 3 {
                lemma_lower_code(e[0], 'w', 'W', 119);
                lemma_lower_code(e[1], 'a', 'A', 97);
                lemma_lower_code(e[2], 'v', 'V', 118);
            }
        },
        None => {},
    }
}

proof fn lemma_lower_code(c: char, lower: char, upper: char, code: u32)
    requires
        lower as u32 == code,
        upper as u32 == code - 32,
        97 <= code <= 122,
    ensures
        (lower_code(c) == code) == (c == lower || c == upper),
{
    assert(lower == 'w' || lower == 'a' || lower == 'v' || true);
}


/// A readable WAV file is audio without video, with the header's sample rate
/// and channel count, and lasts the header's frame count at that rate.
pub proof fn law_wav_is_audio(f: MediaFacts, sample_rate: u32, channels: u16, frames: u32)
    requires
        is_wav_facts(f, sample_rate, channels, frames),
    ensures
        f.has_audio && !f.has_video,
        f.media_type@ == "audio"@,
        f.sample_rate == Some(sample_rate) && f.channels == Some(channels),
        f.duration matches MediaDuration::Frames { frames: fr, sample_rate: sr, channels: ch }
            && fr == frames && sr == sample_rate && ch == channels,
{
}

} // verus!
