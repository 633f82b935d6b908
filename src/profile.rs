//! The encoding profile: the declared audio, video and container targets of
//! the encoder/muxer, and its one-time application.
use vstd::prelude::*;
use vstd::std_specs::cmp::PartialEqSpec;
use crate::error::RunError;
use crate::media::{MediaKind, classify, kind_of};

verus! {

/// A presence of zero: any number of streams of the kind is accepted.
pub const UNBOUNDED: u32 = 0;

/// The target of one stream kind.
#[derive(Debug)]
pub struct StreamTarget {
    /// Media-type name of the encoded format.
    pub format: String,
    /// How many streams of this kind are accepted; zero is unbounded.
    pub presence: u32,
}

/// The declarative output spec applied to the encoder/muxer.
#[derive(Debug)]
pub struct EncodingProfile {
    pub name: String,
    /// Media-type name of the container format.
    pub container: String,
    pub video: StreamTarget,
    pub audio: StreamTarget,
}

/// The mathematical content of a profile.
pub struct ProfileView {
    pub name: Seq<char>,
    pub container: Seq<char>,
    pub video: Seq<char>,
    pub video_presence: nat,
    pub audio: Seq<char>,
    pub audio_presence: nat,
}

impl View for EncodingProfile {
    type V = ProfileView;

    open spec fn view(&self) -> ProfileView {
        ProfileView {
            name: self.name@,
            container: self.container@,
            video: self.video.format@,
            video_presence: self.video.presence as nat,
            audio: self.audio.format@,
            audio_presence: self.audio.presence as nat,
        }
    }
}

impl PartialEq for EncodingProfile {
    fn eq(&self, o: &EncodingProfile) -> (r: bool) {
        self.name == o.name && self.container == o.container && self.video.format == o.video.format
            && self.video.presence == o.video.presence && self.audio.format == o.audio.format
            && self.audio.presence == o.audio.presence
    }
}

impl vstd::std_specs::cmp::PartialEqSpecImpl for EncodingProfile {
    open spec fn obeys_eq_spec() -> bool {
        true
    }

    open spec fn eq_spec(&self, o: &EncodingProfile) -> bool {
        self@ == o@
    }
}

/// The targets make a profile: the audio target names an audio format, the
/// video target a video format, and the container format is named.
pub open spec fn targets_valid(audio: Seq<char>, video: Seq<char>, container: Seq<char>) -> bool {
    &&& kind_of(audio) == MediaKind::Audio
    &&& kind_of(video) == MediaKind::Video
    &&& container.len() > 0
}

/// The profile built from three targets: each stream kind unbounded.
pub open spec fn profile_of(audio: Seq<char>, video: Seq<char>, container: Seq<char>) -> ProfileView {
    ProfileView {
        name: "container"@,
        container,
        video,
        video_presence: UNBOUNDED as nat,
        audio,
        audio_presence: UNBOUNDED as nat,
    }
}

/// Builds the profile that encodes every audio stream to `audio`, every
/// video stream to `video`, and muxes them into `container`.
pub fn build_profile(audio: &str, video: &str, container: &str) -> (r: Result<EncodingProfile, RunError>)
    ensures
        r is Ok <==> targets_valid(audio@, video@, container@),
        r matches Ok(p) ==> p@ == profile_of(audio@, video@, container@),
        r matches Err(e) ==> e == RunError::ProfileBuildFailed,
{
    if classify(audio) != MediaKind::Audio || classify(video) != MediaKind::Video || container.is_empty() {
        return Err(RunError::ProfileBuildFailed);
    }
    Ok(EncodingProfile {
        name: String::from_str("container"),
        container: String::from_str(container),
        video: StreamTarget { format: String::from_str(video), presence: UNBOUNDED },
        audio: StreamTarget { format: String::from_str(audio), presence: UNBOUNDED },
    })
}

/// The profile of this program's output: Vorbis audio and Theora video in a
/// Matroska container.
pub fn default_profile() -> (r: EncodingProfile)
    ensures
        r@ == profile_of("audio/x-vorbis"@, "video/x-theora"@, "video/x-matroska"@),
{
    let a = "audio/x-vorbis";
    let v = "video/x-theora";
    let c = "video/x-matroska";
    proof {
        reveal_strlit("audio/x-vorbis");
        reveal_strlit("video/x-theora");
        reveal_strlit("video/x-matroska");
        assert(a@.take(6) =~= crate::media::audio_prefix());
        assert(v@.take(6) =~= crate::media::video_prefix());
    }
    match build_profile(a, v, c) {
        Ok(p) => p,
        Err(_) => {
            proof {
                assert(false);
            }
            EncodingProfile {
                name: String::new(),
                container: String::new(),
                video: StreamTarget { format: String::new(), presence: UNBOUNDED },
                audio: StreamTarget { format: String::new(), presence: UNBOUNDED },
            }
        },
    }
}

/// Building a profile twice from the same three targets gives two equal
/// profiles.
pub proof fn lemma_build_profile_idempotent(
    p1: EncodingProfile,
    p2: EncodingProfile,
    audio: Seq<char>,
    video: Seq<char>,
    container: Seq<char>,
)
    requires
        p1@ == profile_of(audio, video, container),
        p2@ == profile_of(audio, video, container),
    ensures
        p1.eq_spec(&p2),
{
}

/// The profile setting of the encoder/muxer, applied at most once.
pub struct EncoderConfig {
    profile: Option<EncodingProfile>,
}

impl EncoderConfig {
    /// The applied profile, if any.
    pub closed spec fn applied(&self) -> Option<ProfileView> {
        match self.profile {
            Some(p) => Some(p@),
            None => None,
        }
    }

    /// An encoder/muxer with no profile yet.
    pub fn new() -> (r: EncoderConfig)
        ensures
            r.applied() is None,
    {
        EncoderConfig { profile: None }
    }

    /// Whether a profile was applied.
    pub fn is_configured(&self) -> (r: bool)
        ensures
            r == self.applied() is Some,
    {
        self.profile.is_some()
    }

    /// Applies `p`. Only the first application before the graph runs takes
    /// effect: a second one, or one while running, is refused and leaves the
    /// setting as it was.
    pub fn apply(&mut self, p: EncodingProfile, running: bool) -> (r: Result<(), RunError>)
        ensures
            r is Ok <==> old(self).applied() is None && !running,
            r is Ok ==> final(self).applied() == Some(p@),
            r matches Err(e) ==> e == RunError::ProfileAlreadyApplied && final(self).applied() == old(
                self,
            ).applied(),
    {
        if self.profile.is_some() || running {
            return Err(RunError::ProfileAlreadyApplied);
        }
        self.profile = Some(p);
        Ok(())
    }
}

} // verus!
