//! The script registry: what a scripts directory offers at one point in time.
//!
//! A registry is a snapshot. It is built from one reading of the directory and
//! never refreshed; a caller that wants a newer view reads the directory again
//! and builds another.

use crate::text::texts;
use vstd::prelude::*;

verus! {

/// Where the entry `name` of `directory` is found: the directory, one `/`,
/// then the name.
pub open spec fn location_of(directory: Seq<char>, name: Seq<char>) -> Seq<char> {
    directory + "/"@ + name
}

/// Model of a [`Script`].
pub struct ScriptView {
    pub name: Seq<char>,
    pub location: Seq<char>,
}

/// A named unit of work found in a scripts directory.
#[derive(Debug, PartialEq, Eq)]
pub struct Script {
    /// The entry's name inside the scripts directory.
    pub name: String,
    /// The path by which the script is started.
    pub location: String,
}

impl View for Script {
    type V = ScriptView;

    open spec fn view(&self) -> ScriptView {
        ScriptView { name: self.name@, location: self.location@ }
    }
}

impl Clone for Script {
    fn clone(&self) -> (copy: Script)
        ensures
            copy@ == self@,
    {
        Script { name: self.name.clone(), location: self.location.clone() }
    }
}

/// Model of a [`DiscoveryError`].
pub struct DiscoveryErrorView {
    pub directory: Seq<char>,
    pub reason: Seq<char>,
}

/// The scripts directory was there but could not be read.
#[derive(Debug, PartialEq, Eq)]
pub struct DiscoveryError {
    /// The directory that was to be read.
    pub directory: String,
    /// What the operating system said.
    pub reason: String,
}

impl View for DiscoveryError {
    type V = DiscoveryErrorView;

    open spec fn view(&self) -> DiscoveryErrorView {
        DiscoveryErrorView { directory: self.directory@, reason: self.reason@ }
    }
}

/// Model of a [`Registry`]: the directory and the names of its entries, in
/// the order in which they were read.
pub struct RegistryView {
    pub directory: Seq<char>,
    pub names: Seq<Seq<char>>,
}

impl RegistryView {
    /// Whether `name` is one of the entries.
    pub open spec fn contains(self, name: Seq<char>) -> bool {
        self.names.contains(name)
    }

    /// The script that the entry at `index` stands for.
    pub open spec fn script(self, index: int) -> ScriptView {
        ScriptView {
            name: self.names[index],
            location: location_of(self.directory, self.names[index]),
        }
    }

    /// Every entry as a script, in reading order.
    pub open spec fn scripts(self) -> Seq<ScriptView> {
        Seq::new(self.names.len(), |index: int| self.script(index))
    }

    /// No name occurs twice.
    pub open spec fn distinct(self) -> bool {
        self.names.no_duplicates()
    }
}

/// The snapshot of `directory` when reading it gave `entries`: the names as
/// they were read, in that order and as often as they occurred.
pub open spec fn snapshot(directory: Seq<char>, entries: Seq<Seq<char>>) -> RegistryView {
    RegistryView { directory, names: entries }
}

/// A directory of distinct entries is listed entry by entry: its snapshot
/// holds as many names as were read, every name that was read exactly once,
/// and no other name.
pub proof fn lemma_distinct_entries_listed_once(
    directory: Seq<char>,
    entries: Seq<Seq<char>>,
    name: Seq<char>,
)
    requires
        entries.no_duplicates(),
    ensures
        snapshot(directory, entries).distinct(),
        snapshot(directory, entries).names.len() == entries.len(),
        snapshot(directory, entries).contains(name) <==> entries.contains(name),
        snapshot(directory, entries).names.to_multiset().count(name) == if entries.contains(name) {
            1nat
        } else {
            0nat
        },
{
    entries.lemma_multiset_has_no_duplicates();
    entries.to_multiset_ensures();
}

/// Joins a directory and an entry name into the entry's location.
pub fn locate(directory: &str, name: &str) -> (location: String)
    ensures
        location@ == location_of(directory@, name@),
{
    let mut location = directory.to_owned();
    location.append("/");
    location.append(name);
    location
}

/// A snapshot of a scripts directory.
#[derive(Debug, PartialEq, Eq)]
pub struct Registry {
    directory: String,
    scripts: Vec<Script>,
}

impl View for Registry {
    type V = RegistryView;

    closed spec fn view(&self) -> RegistryView {
        RegistryView {
            directory: self.directory@,
            names: Seq::new(self.scripts@.len(), |index: int| self.scripts@[index].name@),
        }
    }
}

impl Registry {
    /// Every stored script lies in the registry's directory under its own name.
    #[verifier::type_invariant]
    spec fn located(self) -> bool {
        forall|index: int|
            0 <= index < self.scripts@.len() ==> (#[trigger] self.scripts@[index]).location@
                == location_of(self.directory@, self.scripts@[index].name@)
    }

    /// Builds the snapshot of `directory` from the outcome of reading it:
    /// the names of its entries, or the reason why it could not be read.
    ///
    /// The names are kept as they were read, in that order and as often as
    /// they occurred. A failed reading is reported, never swallowed.
    pub fn list_scripts(directory: &str, reading: Result<Vec<String>, String>) -> (result: Result<
        Registry,
        DiscoveryError,
    >)
        ensures
            match reading {
                Ok(entries) => result matches Ok(registry) && registry@ == snapshot(
                    directory@,
                    texts(entries@),
                ),
                Err(reason) => result matches Err(error) && error@ == (DiscoveryErrorView {
                    directory: directory@,
                    reason: reason@,
                }),
            },
    {
        match reading {
            Err(reason) => Err(DiscoveryError { directory: directory.to_owned(), reason }),
            Ok(entries) => {
                let mut scripts: Vec<Script> = Vec::new();
                let mut i: usize = 0;
                while i < entries.len()
                    invariant
                        i <= entries.len(),
                        scripts@.len() == i,
                        forall|k: int|
                            0 <= k < i ==> (#[trigger] scripts@[k])@ == (ScriptView {
                                name: entries@[k]@,
                                location: location_of(directory@, entries@[k]@),
                            }),
                    decreases entries.len() - i,
                {
                    let name = entries[i].clone();
                    let location = locate(directory, name.as_str());
                    scripts.push(Script { name, location });
                    i = i + 1;
                }
                let registry = Registry { directory: directory.to_owned(), scripts };
                proof {
                    assert(registry@.names =~= texts(entries@));
                }
                Ok(registry)
            },
        }
    }

    /// The directory that the snapshot was taken of.
    pub fn directory(&self) -> (directory: &str)
        ensures
            directory@ == self@.directory,
    {
        self.directory.as_str()
    }

    /// The number of entries.
    pub fn len(&self) -> (count: usize)
        ensures
            count == self@.names.len(),
    {
        self.scripts.len()
    }

    /// Whether the directory held no entry at all.
    pub fn is_empty(&self) -> (empty: bool)
        ensures
            empty == (self@.names.len() == 0),
    {
        self.scripts.len() == 0
    }

    /// The names of the entries, in reading order.
    pub fn names(&self) -> (names: Vec<String>)
        ensures
            texts(names@) == self@.names,
    {
        let mut names: Vec<String> = Vec::new();
        let mut i: usize = 0;
        while i < self.scripts.len()
            invariant
                i <= self.scripts.len(),
                names@.len() == i,
                forall|k: int| 0 <= k < i ==> (#[trigger] names@[k])@ == self.scripts@[k].name@,
            decreases self.scripts.len() - i,
        {
            names.push(self.scripts[i].name.clone());
            i = i + 1;
        }
        proof {
            assert(texts(names@) =~= self@.names);
        }
        names
    }

    /// The entries as scripts, in reading order.
    pub fn scripts(&self) -> (scripts: &Vec<Script>)
        ensures
            scripts@.len() == self@.names.len(),
            forall|index: int|
                0 <= index < scripts@.len() ==> (#[trigger] scripts@[index])@ == self@.script(
                    index,
                ),
    {
        proof {
            use_type_invariant(self);
        }
        &self.scripts
    }

    /// Looks `name` up among the entries. Where the name occurs more than
    /// once, every occurrence stands for the same script.
    pub fn find(&self, name: &str) -> (found: Option<&Script>)
        ensures
            match found {
                Some(script) => self@.contains(name@) && script@ == (ScriptView {
                    name: name@,
                    location: location_of(self@.directory, name@),
                }),
                None => !self@.contains(name@),
            },
    {
        let wanted = name.to_owned();
        let mut i: usize = 0;
        while i < self.scripts.len()
            invariant
                i <= self.scripts.len(),
                wanted@ == name@,
                forall|k: int| 0 <= k < i ==> self@.names[k] != name@,
            decreases self.scripts.len() - i,
        {
            if self.scripts[i].name == wanted {
                proof {
                    use_type_invariant(self);
                    assert(self@.names[i as int] == name@);
                }
                return Some(&self.scripts[i]);
            }
            i = i + 1;
        }
        None
    }

    /// Whether `name` is one of the entries.
    pub fn contains(&self, name: &str) -> (present: bool)
        ensures
            present == self@.contains(name@),
    {
        self.find(name).is_some()
    }
}

} // verus!
