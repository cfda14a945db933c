use vstd::prelude::*;
use crate::streams::{RTSPStream, StreamFrame};

verus! {

/// The key of a source's name in the configuration file.
pub const NAME_KEY: &'static str = "name";

/// The key of a source's location in the configuration file.
pub const URI_KEY: &'static str = "source_uri";

/// One configured source: a unique human-readable name and its location.
pub struct SourceConfiguration {
    pub name: String,
    pub source_uri: String,
}

/// The ordered list of configured sources.
pub struct Configuration {
    pub sources: Vec<SourceConfiguration>,
}

#[verifier::external_type_specification]
#[verifier::external_body]
pub struct ExConfigError(config::ConfigError);

/// How many entries the YAML text holds under `sources`, if it parses and
/// `sources` is an array.
pub uninterp spec fn yaml_source_count(text: Seq<char>) -> Option<nat>;

/// The value, read as a string, of `sources[index].<field>` in the YAML
/// text, if it parses and the value is there and converts to a string.
pub uninterp spec fn yaml_source_field(text: Seq<char>, index: nat, field: Seq<char>) -> Option<Seq<char>>;

/// Relies on the config crate: `Config::builder()` with the single source
/// `File::from_str(text, FileFormat::Yaml)`, built, then
/// `Config::get_array("sources")`; the result is the array's length.
#[verifier::external_body]
fn yaml_sources_len(text: &str) -> (r: Result<usize, config::ConfigError>)
    ensures
        r is Ok <==> yaml_source_count(text@) is Some,
        r is Ok ==> r->Ok_0 as nat == yaml_source_count(text@)->Some_0,
{
    let cfg = config::Config::builder()
        .add_source(config::File::from_str(text, config::FileFormat::Yaml))
        .build()?;
    cfg.get_array("sources").map(|a| a.len())
}

/// Relies on the config crate: the same YAML build as `yaml_sources_len`,
/// then `Config::get_string("sources[<index>].<field>")`, which reads the
/// value by path expression and converts it to a string.
#[verifier::external_body]
fn yaml_source_string(text: &str, index: usize, field: &str) -> (r: Result<String, config::ConfigError>)
    ensures
        r is Ok <==> yaml_source_field(text@, index as nat, field@) is Some,
        r is Ok ==> r->Ok_0@ == yaml_source_field(text@, index as nat, field@)->Some_0,
{
    let cfg = config::Config::builder()
        .add_source(config::File::from_str(text, config::FileFormat::Yaml))
        .build()?;
    cfg.get_string(&format!("sources[{}].{}", index, field))
}

/// Every one of the `n` entries has a name and a location.
pub open spec fn entries_complete(text: Seq<char>, n: nat) -> bool {
    forall|i: nat| i < n ==> {
        &&& (#[trigger] yaml_source_field(text, i, NAME_KEY@)) is Some
        &&& yaml_source_field(text, i, URI_KEY@) is Some
    }
}

/// The configuration text describes a list of sources.
pub open spec fn describes_sources(text: Seq<char>) -> bool {
    &&& yaml_source_count(text) is Some
    &&& entries_complete(text, yaml_source_count(text)->Some_0)
}

/// `c` holds the first `n` entries of the text, in order.
pub open spec fn holds_entries(c: Seq<SourceConfiguration>, text: Seq<char>, n: nat) -> bool {
    &&& c.len() == n
    &&& forall|i: int| 0 <= i < n ==> {
        &&& (#[trigger] c[i]).name@ == yaml_source_field(text, i as nat, NAME_KEY@)->Some_0
        &&& c[i].source_uri@ == yaml_source_field(text, i as nat, URI_KEY@)->Some_0
    }
}

/// Reads the list of sources from the text of a YAML configuration file
/// (the caller reads the file). Each entry of the `sources` array gives a
/// `name` and a `source_uri`; the first entry that lacks either, or text
/// that does not parse, gives the config crate's error.
pub fn parse_configuration(file_text: &str) -> (r: Result<Configuration, config::ConfigError>)
    ensures
        r is Ok <==> describes_sources(file_text@),
        r is Ok ==> holds_entries(r->Ok_0.sources@, file_text@, yaml_source_count(file_text@)->Some_0),
{
    let n = match yaml_sources_len(file_text) {
        Ok(n) => n,
        Err(e) => return Err(e),
    };
    let mut sources: Vec<SourceConfiguration> = Vec::with_capacity(n);
    let mut i: usize = 0;
    while i < n
        invariant
            i <= n,
            yaml_source_count(file_text@) == Some(n as nat),
            entries_complete(file_text@, i as nat),
            holds_entries(sources@, file_text@, i as nat),
        decreases n - i,
    {
        let name = match yaml_source_string(file_text, i, NAME_KEY) {
            Ok(s) => s,
            Err(e) => {
                assert(!entries_complete(file_text@, n as nat)) by {
                    assert(yaml_source_field(file_text@, i as nat, NAME_KEY@) is None);
                }
                return Err(e);
            },
        };
        let source_uri = match yaml_source_string(file_text, i, URI_KEY) {
            Ok(s) => s,
            Err(e) => {
                assert(!entries_complete(file_text@, n as nat)) by {
                    assert(yaml_source_field(file_text@, i as nat, NAME_KEY@) is Some);
                }
                return Err(e);
            },
        };
        sources.push(SourceConfiguration { name, source_uri });
        i = i + 1;
        assert(entries_complete(file_text@, i as nat)) by {
            assert forall|k: nat| k < i implies {
                &&& (#[trigger] yaml_source_field(file_text@, k, NAME_KEY@)) is Some
                &&& yaml_source_field(file_text@, k, URI_KEY@) is Some
            } by {
                if k < i - 1 {
                    assert(entries_complete(file_text@, (i - 1) as nat));
                }
            }
        }
    }
    Ok(Configuration { sources })
}

/// The names of the configured sources, in order.
pub open spec fn source_names(c: Configuration) -> Seq<Seq<char>> {
    c.sources@.map_values(|s: SourceConfiguration| s.name@)
}

/// `streams` has one stream per configured source, in order, with its name
/// and location.
pub open spec fn streams_match(c: Configuration, streams: Seq<RTSPStream>) -> bool {
    &&& streams.len() == c.sources@.len()
    &&& forall|i: int| 0 <= i < streams.len() ==> {
        &&& (#[trigger] streams[i]).stream_name@ == c.sources@[i].name@
        &&& streams[i].rtsp_uri@ == c.sources@[i].source_uri@
    }
}

/// One stream per configured source, each bound to its location.
pub fn streams_for(c: &Configuration) -> (r: Vec<RTSPStream>)
    ensures
        streams_match(*c, r@),
{
    let mut streams: Vec<RTSPStream> = Vec::with_capacity(c.sources.len());
    let mut i: usize = 0;
    while i < c.sources.len()
        invariant
            i <= c.sources@.len(),
            streams@.len() == i,
            forall|k: int| 0 <= k < i ==> {
                &&& (#[trigger] streams@[k]).stream_name@ == c.sources@[k].name@
                &&& streams@[k].rtsp_uri@ == c.sources@[k].source_uri@
            },
        decreases c.sources@.len() - i,
    {
        let s = &c.sources[i];
        streams.push(RTSPStream { stream_name: s.name.clone(), rtsp_uri: s.source_uri.clone() });
        i = i + 1;
    }
    streams
}

/// Every frame that a stream built from the configuration produces is
/// tagged with a name present in that configuration.
pub proof fn lemma_frame_source_configured(
    c: Configuration,
    streams: Seq<RTSPStream>,
    i: int,
    frame: StreamFrame,
)
    requires
        streams_match(c, streams),
        0 <= i < streams.len(),
        frame.source@ == streams[i].stream_name@,
    ensures
        source_names(c).contains(frame.source@),
{
    assert(streams[i].stream_name@ == c.sources@[i].name@);
    assert(source_names(c)[i] == frame.source@);
}

} // verus!
