//! Versions as the registry publishes them, and the queries that find them.

use vstd::prelude::*;
use vstd::string::*;
use crate::text::{copy_of, percent_encoded, push_percent_encoded};

verus! {

/// What a [`Doc`] stands for.
pub struct DocModel {
    pub id: Seq<char>,
    pub g: Seq<char>,
    pub a: Seq<char>,
    pub v: Option<Seq<char>>,
    pub latest_version: Option<Seq<char>>,
    pub timestamp: nat,
}

/// What a [`Version`] stands for. `publish_time` counts the seconds since
/// the Unix epoch, in UTC.
pub struct VersionModel {
    pub group: Seq<char>,
    pub artifact: Seq<char>,
    pub version: Seq<char>,
    pub publish_time: int,
}

impl DocModel {
    /// The version that the document reports: the exact version where it is
    /// given, else the one labelled as latest, else the empty text.
    pub open spec fn reported_version(self) -> Seq<char> {
        match self.v {
            Some(v) => v,
            None => match self.latest_version {
                Some(l) => l,
                None => Seq::empty(),
            },
        }
    }

    /// The document as a version: group and artifact as they are, the
    /// reported version, and the timestamp cut down to whole seconds.
    pub open spec fn normalized(self) -> VersionModel {
        VersionModel {
            group: self.g,
            artifact: self.a,
            version: self.reported_version(),
            publish_time: self.timestamp as int / 1000,
        }
    }
}

/// One document of a registry response. `timestamp` counts milliseconds
/// since the Unix epoch.
#[derive(Debug, PartialEq, Eq)]
pub struct Doc {
    pub id: String,
    pub g: String,
    pub a: String,
    pub v: Option<String>,
    pub latest_version: Option<String>,
    pub timestamp: u64,
}

impl View for Doc {
    type V = DocModel;

    open spec fn view(&self) -> DocModel {
        DocModel {
            id: self.id@,
            g: self.g@,
            a: self.a@,
            v: self.v.deep_view(),
            latest_version: self.latest_version.deep_view(),
            timestamp: self.timestamp as nat,
        }
    }
}

impl DeepView for Doc {
    type V = DocModel;

    open spec fn deep_view(&self) -> DocModel {
        self@
    }
}

/// A published version of an artifact. `publish_time` counts the seconds
/// since the Unix epoch, in UTC.
#[derive(Debug, PartialEq, Eq)]
pub struct Version {
    pub group: String,
    pub artifact: String,
    pub version: String,
    pub publish_time: i64,
}

impl View for Version {
    type V = VersionModel;

    open spec fn view(&self) -> VersionModel {
        VersionModel {
            group: self.group@,
            artifact: self.artifact@,
            version: self.version@,
            publish_time: self.publish_time as int,
        }
    }
}

impl DeepView for Version {
    type V = VersionModel;

    open spec fn deep_view(&self) -> VersionModel {
        self@
    }
}

impl Clone for Doc {
    fn clone(&self) -> (copy: Doc)
        ensures
            copy@ == self@,
    {
        Doc {
            id: self.id.clone(),
            g: self.g.clone(),
            a: self.a.clone(),
            v: copy_of(&self.v),
            latest_version: copy_of(&self.latest_version),
            timestamp: self.timestamp,
        }
    }
}

impl Clone for Version {
    fn clone(&self) -> (copy: Version)
        ensures
            copy@ == self@,
    {
        Version {
            group: self.group.clone(),
            artifact: self.artifact.clone(),
            version: self.version.clone(),
            publish_time: self.publish_time,
        }
    }
}

impl Doc {
    /// Turns the document into the version it describes.
    pub fn into_version(self) -> (version: Version)
        ensures
            version@ == self@.normalized(),
    {
        let reported = match self.v {
            Some(v) => v,
            None => match self.latest_version {
                Some(l) => l,
                None => String::new(),
            },
        };
        Version {
            group: self.g,
            artifact: self.a,
            version: reported,
            publish_time: (self.timestamp / 1000) as i64,
        }
    }
}

/// The first document of a response as a version; none where the response
/// holds no document.
pub open spec fn first_match(docs: Seq<DocModel>) -> Option<VersionModel> {
    if docs.len() == 0 {
        None
    } else {
        Some(docs[0].normalized())
    }
}

/// The version that a response answers with: its first document,
/// normalized. A response without documents answers with none.
pub fn first_version(docs: Vec<Doc>) -> (found: Option<Version>)
    ensures
        found.deep_view() == first_match(docs.deep_view()),
{
    let mut docs = docs;
    if docs.len() == 0 {
        None
    } else {
        let first = docs.remove(0);
        Some(first.into_version())
    }
}

/// Why a lookup in the registry failed.
#[derive(Debug, Clone, Copy, PartialEq, Eq, Structural)]
pub enum ResolveError {
    /// The request could not be made, or was answered with a status other
    /// than success.
    Network,
    /// The body of the response was not of the expected shape.
    Decode,
}

/// What a response of the registry amounts to, given its status and the
/// documents of its body, or none where the body is not of the expected
/// shape. A status outside 200 to 299 is a failure of the network, whatever
/// the body holds; a body that cannot be read is a failure to decode; and
/// only a response that was read answers, with its first document or with
/// nothing.
pub open spec fn response_outcome(status: int, docs: Option<Seq<DocModel>>) -> Result<
    Option<VersionModel>,
    ResolveError,
> {
    if !(200 <= status < 300) {
        Err(ResolveError::Network)
    } else {
        match docs {
            None => Err(ResolveError::Decode),
            Some(d) => Ok(first_match(d)),
        }
    }
}

/// Reads a response of the registry: its status, and the documents of its
/// body where the body could be decoded.
pub fn read_response(status: u16, docs: Option<Vec<Doc>>) -> (answer: Result<
    Option<Version>,
    ResolveError,
>)
    ensures
        match answer {
            Ok(found) => response_outcome(status as int, docs.deep_view()) == Ok::<
                Option<VersionModel>,
                ResolveError,
            >(found.deep_view()),
            Err(e) => response_outcome(status as int, docs.deep_view()) == Err::<
                Option<VersionModel>,
                ResolveError,
            >(e),
        },
{
    if status < 200 || status >= 300 {
        return Err(ResolveError::Network);
    }
    match docs {
        None => Err(ResolveError::Decode),
        Some(d) => Ok(first_version(d)),
    }
}

/// A response without documents is no failure: where the status is one of
/// success and the body was read, the answer is that nothing was found.
pub proof fn empty_response_is_not_an_error(status: int)
    requires
        200 <= status < 300,
    ensures
        response_outcome(status, Some(Seq::empty())) == Ok::<Option<VersionModel>, ResolveError>(
            None,
        ),
{
}

/// A registry in which versions can be looked up. Each lookup is one request.
/// A lookup that finds nothing answers `Ok(None)`; `Err` is for a request
/// that failed or an answer that could not be read.
pub trait Resolver {
    /// Looks up the given version of an artifact.
    fn version_info(&self, group: String, artifact: String, version: String) -> Result<
        Option<Version>,
        ResolveError,
    >;

    /// Looks up the version of an artifact that was published last.
    fn latest_version(&self, group: String, artifact: String) -> Result<
        Option<Version>,
        ResolveError,
    >;
}

/// The address that asks for one version of an artifact: a search for
/// group, artifact and version, each percent-encoded and in quotes.
pub open spec fn pinned_query(group: Seq<char>, artifact: Seq<char>, version: Seq<char>) -> Seq<
    char,
> {
    "http://search.maven.org/solrsearch/select?q=g:%22"@ + percent_encoded(group)
        + "%22+AND+a:%22"@ + percent_encoded(artifact) + "%22+AND+v:%22"@ + percent_encoded(
        version,
    ) + "%22&wt=json"@
}

/// The address that asks for the latest version of an artifact: a search for
/// group and artifact, each percent-encoded and in quotes, in the mode that
/// lists versions by recency.
pub open spec fn latest_query(group: Seq<char>, artifact: Seq<char>) -> Seq<char> {
    "http://search.maven.org/solrsearch/select?q=g:%22"@ + percent_encoded(group)
        + "%22+AND+a:%22"@ + percent_encoded(artifact) + "%22&wt=json&core=gav"@
}

/// Builds the address of the lookup of one version.
pub fn pinned_url(group: &str, artifact: &str, version: &str) -> (url: String)
    ensures
        url@ == pinned_query(group@, artifact@, version@),
{
    let mut url = String::from_str("http://search.maven.org/solrsearch/select?q=g:%22");
    push_percent_encoded(&mut url, group);
    url.append("%22+AND+a:%22");
    push_percent_encoded(&mut url, artifact);
    url.append("%22+AND+v:%22");
    push_percent_encoded(&mut url, version);
    url.append("%22&wt=json");
    url
}

/// Builds the address of the lookup of the latest version.
pub fn latest_url(group: &str, artifact: &str) -> (url: String)
    ensures
        url@ == latest_query(group@, artifact@),
{
    let mut url = String::from_str("http://search.maven.org/solrsearch/select?q=g:%22");
    push_percent_encoded(&mut url, group);
    url.append("%22+AND+a:%22");
    push_percent_encoded(&mut url, artifact);
    url.append("%22&wt=json&core=gav");
    url
}

} // verus!
