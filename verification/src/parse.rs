//! Dependencies as an Ivy manifest pins them.

use vstd::prelude::*;
use vstd::string::*;
use crate::text::copy_of;

verus! {

/// What a [`Dependency`] stands for: its four attributes as character sequences.
pub struct DependencyModel {
    pub org: Seq<char>,
    pub name: Option<Seq<char>>,
    pub module: Option<Seq<char>>,
    pub rev: Seq<char>,
}

impl DependencyModel {
    /// The artifact identifier: `name` where present, else `module`.
    pub open spec fn artifact(self) -> Option<Seq<char>> {
        match self.name {
            Some(n) => Some(n),
            None => self.module,
        }
    }

    /// The organization, a slash, and the artifact identifier, or `?` where
    /// the dependency has none.
    pub open spec fn display_name(self) -> Seq<char> {
        self.org + seq!['/'] + match self.artifact() {
            Some(a) => a,
            None => seq!['?'],
        }
    }
}

/// Why a manifest gave no dependencies.
#[derive(Debug, Clone, Copy, PartialEq, Eq, Structural)]
pub enum ParseError {
    /// The manifest could not be read.
    Io,
    /// The manifest is not of the expected shape.
    Format,
}

/// One dependency of a manifest, pinned to a revision.
#[derive(Debug, PartialEq, Eq)]
pub struct Dependency {
    pub org: String,
    pub name: Option<String>,
    pub module: Option<String>,
    pub rev: String,
}

impl View for Dependency {
    type V = DependencyModel;

    open spec fn view(&self) -> DependencyModel {
        DependencyModel {
            org: self.org@,
            name: self.name.deep_view(),
            module: self.module.deep_view(),
            rev: self.rev@,
        }
    }
}

impl DeepView for Dependency {
    type V = DependencyModel;

    open spec fn deep_view(&self) -> DependencyModel {
        self@
    }
}

impl Clone for Dependency {
    fn clone(&self) -> (copy: Dependency)
        ensures
            copy@ == self@,
    {
        Dependency {
            org: self.org.clone(),
            name: copy_of(&self.name),
            module: copy_of(&self.module),
            rev: self.rev.clone(),
        }
    }
}

impl Default for Dependency {
    fn default() -> (d: Dependency)
        ensures
            d@ == (DependencyModel { org: Seq::empty(), name: None, module: None, rev: Seq::empty() }),
    {
        Dependency { org: String::new(), name: None, module: None, rev: String::new() }
    }
}

/// What an [`Entry`] stands for.
pub struct EntryModel {
    pub org: Option<Seq<char>>,
    pub name: Option<Seq<char>>,
    pub module: Option<Seq<char>>,
    pub rev: Option<Seq<char>>,
}

impl EntryModel {
    /// Whether the entry has the two attributes that a dependency needs: its
    /// organization and its revision.
    pub open spec fn complete(self) -> bool {
        self.org is Some && self.rev is Some
    }

    /// The dependency that a complete entry describes: its attributes as
    /// they are.
    pub open spec fn dependency(self) -> DependencyModel {
        DependencyModel {
            org: self.org->0,
            name: self.name,
            module: self.module,
            rev: self.rev->0,
        }
    }
}

/// One dependency entry of a manifest as it stands in the document: the
/// attributes `org`, `name`, `module` and `rev`, each present or not.
#[derive(Debug, PartialEq, Eq)]
pub struct Entry {
    pub org: Option<String>,
    pub name: Option<String>,
    pub module: Option<String>,
    pub rev: Option<String>,
}

impl View for Entry {
    type V = EntryModel;

    open spec fn view(&self) -> EntryModel {
        EntryModel {
            org: self.org.deep_view(),
            name: self.name.deep_view(),
            module: self.module.deep_view(),
            rev: self.rev.deep_view(),
        }
    }
}

impl DeepView for Entry {
    type V = EntryModel;

    open spec fn deep_view(&self) -> EntryModel {
        self@
    }
}

impl Clone for Entry {
    fn clone(&self) -> (copy: Entry)
        ensures
            copy@ == self@,
    {
        Entry {
            org: copy_of(&self.org),
            name: copy_of(&self.name),
            module: copy_of(&self.module),
            rev: copy_of(&self.rev),
        }
    }
}

impl Default for Entry {
    fn default() -> (e: Entry)
        ensures
            e@ == (EntryModel { org: None, name: None, module: None, rev: None }),
    {
        Entry { org: None, name: None, module: None, rev: None }
    }
}

/// The dependencies that the entries of a manifest describe: one for each
/// entry, in the order of the document. Entries of which one lacks its
/// organization or its revision describe none: the manifest is malformed.
pub open spec fn described(entries: Seq<EntryModel>) -> Result<Seq<DependencyModel>, ParseError> {
    if forall|i: int| 0 <= i < entries.len() ==> (#[trigger] entries[i]).complete() {
        Ok(Seq::new(entries.len(), |i: int| entries[i].dependency()))
    } else {
        Err(ParseError::Format)
    }
}

/// Turns the entries of a manifest into its dependencies.
pub fn dependencies(entries: &Vec<Entry>) -> (parsed: Result<Vec<Dependency>, ParseError>)
    ensures
        match parsed {
            Ok(deps) => described(entries.deep_view()) == Ok::<Seq<DependencyModel>, ParseError>(
                deps.deep_view(),
            ),
            Err(e) => described(entries.deep_view()) == Err::<Seq<DependencyModel>, ParseError>(e),
        },
        parsed matches Ok(deps) ==> deps.len() == entries.len(),
{
    let mut deps: Vec<Dependency> = Vec::new();
    let mut i: usize = 0;
    while i < entries.len()
        invariant
            i <= entries.len(),
            deps.len() == i,
            forall|k: int| 0 <= k < i ==> (#[trigger] entries.deep_view()[k]).complete(),
            forall|k: int|
                0 <= k < i ==> (#[trigger] deps.deep_view()[k]) == entries.deep_view()[k].dependency(),
        decreases entries.len() - i,
    {
        let entry = &entries[i];
        assert(entry@ == entries.deep_view()[i as int]);
        let ghost before = deps.deep_view();
        match (&entry.org, &entry.rev) {
            (Some(org), Some(rev)) => {
                let d = Dependency {
                    org: org.clone(),
                    name: copy_of(&entry.name),
                    module: copy_of(&entry.module),
                    rev: rev.clone(),
                };
                assert(d@ == entry@.dependency());
                deps.push(d);
                assert forall|k: int| 0 <= k < i + 1 implies (#[trigger] deps.deep_view()[k])
                    == entries.deep_view()[k].dependency() by {
                    if k < i {
                        assert(deps.deep_view()[k] == before[k]);
                    }
                }
            },
            _ => {
                assert(!entries.deep_view()[i as int].complete());
                return Err(ParseError::Format);
            },
        }
        i += 1;
    }
    assert(deps.deep_view() =~= Seq::new(
        entries.deep_view().len(),
        |i: int| entries.deep_view()[i].dependency(),
    ));
    Ok(deps)
}

/// The dependencies of a manifest are as many as its entries and stand in
/// their order; each has the organization and the revision of its entry as
/// they are, and as its artifact the `name` of the entry or, without one,
/// its `module`.
pub proof fn described_entry_by_entry(entries: Seq<EntryModel>, i: int)
    requires
        forall|k: int| 0 <= k < entries.len() ==> (#[trigger] entries[k]).complete(),
        0 <= i < entries.len(),
    ensures
        described(entries) matches Ok(deps) && deps.len() == entries.len() && deps[i].org
            == entries[i].org->0 && deps[i].rev == entries[i].rev->0 && deps[i].artifact() == (
        match entries[i].name {
            Some(n) => Some(n),
            None => entries[i].module,
        }),
{
}

/// `std::path::PathBuf`, a path in the file system. Nothing is said of what
/// it holds: the library only hands it on.
#[verifier::external_type_specification]
#[verifier::external_body]
pub struct ExPathBuf(std::path::PathBuf);

/// A source of the dependencies of a manifest.
pub trait Parser {
    /// Reads the manifest at `path` and gives its dependencies in the order
    /// of the document: `ParseError::Io` where it cannot be read,
    /// `ParseError::Format` where it is not of the expected shape.
    fn parse(&self, path: std::path::PathBuf) -> Result<Vec<Dependency>, ParseError>;
}

impl Dependency {
    /// The artifact identifier: `name` where present, else `module`.
    pub fn artifact(&self) -> (a: Option<&String>)
        ensures
            a.deep_view() == self@.artifact(),
    {
        match &self.name {
            Some(n) => Some(n),
            None => match &self.module {
                Some(m) => Some(m),
                None => None,
            },
        }
    }

    /// The name under which the dependency is shown and ordered.
    pub fn fullname(&self) -> (s: String)
        ensures
            s@ == self@.display_name(),
    {
        proof {
            reveal_strlit("/");
            reveal_strlit("?");
        }
        let mut s = self.org.clone();
        s.append("/");
        match self.artifact() {
            Some(a) => s.append(a.as_str()),
            None => s.append("?"),
        }
        assert(s@ =~= self@.display_name());
        s
    }
}

} // verus!
