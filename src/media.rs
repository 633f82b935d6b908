//! Media kinds, the classification of a negotiated media-type name, and the
//! processing-element types that the graph is made of.
use vstd::prelude::*;
use crate::error::RunError;

verus! {

/// The closed set of stream kinds that the router tells apart.
#[derive(Clone, Copy, Debug, PartialEq, Eq, Structural)]
pub enum MediaKind {
    Audio,
    Video,
    Unknown,
}

/// `p` is a prefix of `s`.
pub open spec fn has_prefix(s: Seq<char>, p: Seq<char>) -> bool {
    p.len() <= s.len() && s.take(p.len() as int) == p
}

pub open spec fn audio_prefix() -> Seq<char> {
    seq!['a', 'u', 'd', 'i', 'o', '/']
}

pub open spec fn video_prefix() -> Seq<char> {
    seq!['v', 'i', 'd', 'e', 'o', '/']
}

/// The kind of a stream, from the media-type name of its first negotiated
/// capability structure: `audio/...` is audio, `video/...` is video.
pub open spec fn kind_of(name: Seq<char>) -> MediaKind {
    if has_prefix(name, audio_prefix()) {
        MediaKind::Audio
    } else if has_prefix(name, video_prefix()) {
        MediaKind::Video
    } else {
        MediaKind::Unknown
    }
}

/// The characters of a string slice, as a vector.
pub fn chars_of(s: &str) -> (r: Vec<char>)
    ensures
        r@ == s@,
{
    let mut r: Vec<char> = Vec::new();
    for c in it: s.chars()
        invariant
            it.seq() == s@,
            r@ == s@.take(it.index() as int),
    {
        r.push(c);
    }
    assert(r@ =~= s@);
    r
}

/// Whether `p` is a prefix of `s`.
pub fn starts_with(s: &Vec<char>, p: &Vec<char>) -> (r: bool)
    ensures
        r == has_prefix(s@, p@),
{
    if p.len() > s.len() {
        return false;
    }
    let mut i: usize = 0;
    while i < p.len()
        invariant
            p@.len() <= s@.len(),
            i <= p@.len(),
            forall|j: int| 0 <= j < i ==> s@[j] == p@[j],
        decreases p.len() - i,
    {
        if s[i] != p[i] {
            assert(s@.take(p@.len() as int)[i as int] != p@[i as int]);
            return false;
        }
        i = i + 1;
    }
    assert(s@.take(p@.len() as int) =~= p@);
    true
}

/// Classifies a stream by its negotiated media-type name. The audio test
/// comes first, so a name is never both.
pub fn classify(name: &str) -> (k: MediaKind)
    ensures
        k == kind_of(name@),
{
    let s = chars_of(name);
    let audio: Vec<char> = vec!['a', 'u', 'd', 'i', 'o', '/'];
    let video: Vec<char> = vec!['v', 'i', 'd', 'e', 'o', '/'];
    assert(audio@ =~= audio_prefix());
    assert(video@ =~= video_prefix());
    if starts_with(&s, &audio) {
        MediaKind::Audio
    } else if starts_with(&s, &video) {
        MediaKind::Video
    } else {
        MediaKind::Unknown
    }
}

/// The processing-element types the graph is built from.
#[derive(Clone, Copy, Debug, PartialEq, Eq, Structural)]
pub enum ElementType {
    UriDecodeBin,
    EncodeBin,
    FileSink,
    PixbufOverlay,
    Queue,
    AudioConvert,
    AudioResample,
    VideoConvert,
    VideoScale,
}

/// The engine's factory name of an element type.
pub open spec fn factory_name_spec(t: ElementType) -> Seq<char> {
    match t {
        ElementType::UriDecodeBin => "uridecodebin"@,
        ElementType::EncodeBin => "encodebin"@,
        ElementType::FileSink => "filesink"@,
        ElementType::PixbufOverlay => "gdkpixbufoverlay"@,
        ElementType::Queue => "queue"@,
        ElementType::AudioConvert => "audioconvert"@,
        ElementType::AudioResample => "audioresample"@,
        ElementType::VideoConvert => "videoconvert"@,
        ElementType::VideoScale => "videoscale"@,
    }
}

impl ElementType {
    /// The name under which the engine's factory knows this element type.
    pub fn factory_name(&self) -> (r: &'static str)
        ensures
            r@ == factory_name_spec(*self),
    {
        match self {
            ElementType::UriDecodeBin => "uridecodebin",
            ElementType::EncodeBin => "encodebin",
            ElementType::FileSink => "filesink",
            ElementType::PixbufOverlay => "gdkpixbufoverlay",
            ElementType::Queue => "queue",
            ElementType::AudioConvert => "audioconvert",
            ElementType::AudioResample => "audioresample",
            ElementType::VideoConvert => "videoconvert",
            ElementType::VideoScale => "videoscale",
        }
    }
}

/// The element factory's answer for a type, from what the engine's factory
/// produced: the node itself, or else the one error that names the type.
/// Nothing is half built: either a usable node comes back or none does.
pub fn acquired<T>(t: ElementType, made: Option<T>) -> (r: Result<T, RunError>)
    ensures
        r is Ok <==> made is Some,
        r matches Ok(n) ==> made == Some(n),
        r matches Err(e) ==> e == RunError::UnavailableElement(t),
{
    match made {
        Some(n) => Ok(n),
        None => Err(RunError::UnavailableElement(t)),
    }
}

} // verus!
