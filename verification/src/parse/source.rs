use vstd::prelude::*;
use std::collections::HashMap;
use std::path::PathBuf;

verus! {

broadcast use vstd::std_specs::hash::group_hash_axioms;

/// Handle of a registered source text. A handle is made only by the
/// registry that issues it, or as the null handle.
#[derive(Clone, Copy, Debug, PartialEq, Eq, Hash, Structural)]
pub struct SourceId {
    index: usize,
}

impl SourceId {
    /// The handle with the given place in the order of issue.
    pub closed spec fn at(index: usize) -> SourceId {
        SourceId { index }
    }

    /// The place of this handle in the order of issue.
    pub closed spec fn index(self) -> usize {
        self.index
    }

    /// The reserved handle that stands for "no source".
    pub closed spec fn null_spec() -> SourceId {
        SourceId { index: usize::MAX }
    }

    /// A handle is known by its place in the order of issue, and the null
    /// handle has the last place there is.
    pub proof fn lemma_index(id: SourceId, index: usize)
        ensures
            SourceId::at(index).index() == index,
            SourceId::at(id.index()) == id,
            SourceId::null_spec() == SourceId::at(usize::MAX),
    {
    }

    pub open spec fn is_null_spec(&self) -> bool {
        *self == SourceId::null_spec()
    }

    pub fn null() -> (id: SourceId)
        ensures
            id == SourceId::null_spec(),
    {
        SourceId { index: usize::MAX }
    }

    pub fn is_null(&self) -> (b: bool)
        ensures
            b == self.is_null_spec(),
    {
        self.index == usize::MAX
    }
}

/// Declares `std::path::PathBuf` as a type that values pass through
/// unread: nothing is claimed of what a path holds.
#[verifier::external_type_specification]
#[verifier::external_body]
pub struct ExPathBuf(PathBuf);

/// Specifies `PathBuf::clone`: the copy is the same path.
pub assume_specification[ <PathBuf as Clone>::clone ](path: &PathBuf) -> (copy: PathBuf)
    ensures
        copy == *path,
;

/// A source text together with the path it was taken from.
#[derive(Debug)]
pub struct File {
    pub path: PathBuf,
    pub contents: String,
}

impl Clone for File {
    fn clone(&self) -> (file: File)
        ensures
            file == *self,
    {
        File { path: self.path.clone(), contents: self.contents.clone() }
    }
}

/// What a `SourceMap` stands for: the files by handle index, and the index
/// that the next registered file will get.
pub struct SourceMapView {
    pub files: Map<usize, File>,
    pub next_id: usize,
}

impl SourceMapView {
    /// Every registered index lies below the next one to be issued, so no
    /// handle is issued twice and the null handle is never issued.
    pub open spec fn well_formed(self) -> bool {
        &&& self.next_id < usize::MAX
        &&& forall|k: usize| #[trigger] self.files.contains_key(k) ==> k < self.next_id
    }

    /// Whether another file can still be registered.
    pub open spec fn has_room(self) -> bool {
        self.next_id + 1 != usize::MAX
    }

    /// The handle that the next registration returns.
    pub open spec fn fresh_id(self) -> SourceId {
        SourceId::at(self.next_id)
    }

    /// The registry after `file` has been registered.
    pub open spec fn inserted(self, file: File) -> SourceMapView {
        SourceMapView {
            files: self.files.insert(self.next_id, file),
            next_id: (self.next_id + 1) as usize,
        }
    }

    /// The file registered under `id`, if there is one.
    pub open spec fn lookup(self, id: SourceId) -> Option<File> {
        if self.files.contains_key(id.index()) {
            Some(self.files[id.index()])
        } else {
            None
        }
    }
}

/// Registry of source files. Handles are issued in increasing order and are
/// never reused; registering is the only mutation.
#[derive(Clone, Debug)]
pub struct SourceMap {
    sources: HashMap<usize, File>,
    next_id: usize,
}

impl View for SourceMap {
    type V = SourceMapView;

    closed spec fn view(&self) -> SourceMapView {
        SourceMapView { files: self.sources@, next_id: self.next_id }
    }
}

impl Default for SourceMap {
    /// An empty registry.
    fn default() -> (m: SourceMap)
        ensures
            m.well_formed(),
            m@.files == Map::<usize, File>::empty(),
            m@.next_id == 0,
    {
        SourceMap::new()
    }
}

impl SourceMap {
    pub open spec fn well_formed(&self) -> bool {
        self@.well_formed()
    }

    /// An empty registry.
    pub fn new() -> (m: SourceMap)
        ensures
            m.well_formed(),
            m@.files == Map::<usize, File>::empty(),
            m@.next_id == 0,
    {
        SourceMap { sources: HashMap::new(), next_id: 0 }
    }

    /// Whether the supply of handles is used up, so that nothing more can be
    /// registered.
    pub fn is_full(&self) -> (b: bool)
        requires
            self.well_formed(),
        ensures
            b == !self@.has_room(),
    {
        self.next_id + 1 == usize::MAX
    }

    fn generate_id(&mut self) -> (id: SourceId)
        requires
            old(self).well_formed(),
            old(self)@.has_room(),
        ensures
            id == old(self)@.fresh_id(),
            final(self)@.files == old(self)@.files,
            final(self)@.next_id == old(self)@.next_id + 1,
            final(self).well_formed(),
    {
        let id = SourceId { index: self.next_id };
        self.next_id += 1;
        assert(self@.files == old(self)@.files);
        id
    }

    /// Registers `file` and returns its handle, which no earlier call returned.
    pub fn insert(&mut self, file: File) -> (id: SourceId)
        requires
            old(self).well_formed(),
            old(self)@.has_room(),
        ensures
            final(self).well_formed(),
            id == old(self)@.fresh_id(),
            final(self)@ == old(self)@.inserted(file),
            !id.is_null_spec(),
            old(self)@.lookup(id) is None,
            final(self)@.lookup(id) == Some(file),
            forall|other: SourceId|
                other != id ==> final(self)@.lookup(other) == old(self)@.lookup(other),
    {
        let id = self.generate_id();
        self.sources.insert(id.index, file);
        id
    }

    /// The file registered under `source`, or `None`.
    pub fn get(&self, source: &SourceId) -> (file: Option<&File>)
        ensures
            match file {
                Some(f) => self@.lookup(*source) == Some(*f),
                None => self@.lookup(*source) is None,
            },
    {
        self.sources.get(&source.index)
    }
}

impl std::ops::Index<SourceId> for SourceMap {
    type Output = File;

    /// The file registered under `index`, for callers that hold a handle
    /// which this registry issued.
    fn index(&self, index: SourceId) -> (file: &File)
        ensures
            self@.lookup(index) == Some(*file),
    {
        let found = self.sources.get(&index.index);
        found.unwrap()
    }
}

impl vstd::std_specs::core::IndexSpecImpl<SourceId> for SourceMap {
    open spec fn index_req(&self, index: &SourceId) -> bool {
        self@.lookup(*index) is Some
    }
}

/// Two files registered one after the other get different handles, and each
/// handle then leads to exactly the file it was issued for.
pub proof fn lemma_insert_twice(m: SourceMapView, first: File, second: File)
    requires
        m.well_formed(),
        m.has_room(),
        m.inserted(first).has_room(),
    ensures
        m.fresh_id() != m.inserted(first).fresh_id(),
        m.inserted(first).inserted(second).lookup(m.fresh_id()) == Some(first),
        m.inserted(first).inserted(second).lookup(m.inserted(first).fresh_id()) == Some(second),
{
}

/// Registering a file keeps the registry well formed and leaves every
/// earlier registration as it was.
pub proof fn lemma_insert_preserves(m: SourceMapView, file: File, id: SourceId)
    requires
        m.well_formed(),
        m.has_room(),
        m.lookup(id) is Some,
    ensures
        m.inserted(file).well_formed(),
        m.inserted(file).lookup(id) == m.lookup(id),
        id != m.fresh_id(),
{
}

} // verus!
