use vstd::prelude::*;

verus! {

/// The marker that a negotiated data path's caps carry when it holds video.
pub const VIDEO_MEDIA_MARKER: &'static str = "media=(string)video";

/// One decoded frame, tagged with the name of the source that produced it.
pub struct StreamFrame {
    pub source: String,
    pub data: Vec<u8>,
}

/// An RTSP source: its human-readable name and its location.
pub struct RTSPStream {
    pub stream_name: String,
    pub rtsp_uri: String,
}

/// `pat` occurs in `s` as a contiguous run.
pub open spec fn occurs_in(pat: Seq<char>, s: Seq<char>) -> bool {
    exists|i: int| 0 <= i && i + pat.len() <= s.len() && #[trigger] s.subrange(i, i + pat.len()) == pat
}

/// Relies on `str::contains` with a `&str` pattern: true exactly when the
/// pattern occurs in the string as a contiguous substring.
#[verifier::external_body]
fn str_contains(s: &str, pat: &str) -> (r: bool)
    ensures
        r == occurs_in(pat@, s@),
{
    s.contains(pat)
}

/// Whether a newly available data path should be attached to the decode
/// chain: neither end may already be attached, and the path must carry video.
pub open spec fn attach_policy(sink_linked: bool, src_linked: bool, caps: Seq<char>) -> bool {
    !sink_linked && !src_linked && occurs_in(VIDEO_MEDIA_MARKER@, caps)
}

/// Decides whether to attach a newly reported data path.
pub fn should_attach(sink_linked: bool, src_linked: bool, caps: &str) -> (r: bool)
    ensures
        r == attach_policy(sink_linked, src_linked, caps@),
{
    if sink_linked || src_linked {
        false
    } else {
        str_contains(caps, VIDEO_MEDIA_MARKER)
    }
}

/// Copies a sample out of an engine-owned buffer into a frame tagged with
/// the source's name.
pub fn make_frame(source: &str, sample: &[u8]) -> (r: StreamFrame)
    ensures
        r.source@ == source@,
        r.data@ == sample@,
{
    let mut data: Vec<u8> = Vec::with_capacity(sample.len());
    let mut i: usize = 0;
    while i < sample.len()
        invariant
            i <= sample@.len(),
            data@ == sample@.subrange(0, i as int),
        decreases sample@.len() - i,
    {
        data.push(sample[i]);
        i = i + 1;
    }
    assert(data@ == sample@);
    StreamFrame { source: source.to_owned(), data }
}

impl RTSPStream {
    /// Builds a frame from one decoded sample of this stream.
    pub fn frame_of(&self, sample: &[u8]) -> (r: StreamFrame)
        ensures
            r.source@ == self.stream_name@,
            r.data@ == sample@,
    {
        make_frame(self.stream_name.as_str(), sample)
    }
}

} // verus!
