//! The cache of programs and buffers, keyed by descriptor.

use crate::constants::{GL_ARRAY_BUFFER, GL_STATIC_DRAW};
use crate::glesv2_raii::buffer::Buffer;
use crate::glesv2_raii::descriptor::{parse_key, Descriptor, DescriptorView};
use crate::glesv2_raii::error::{Error, ErrorView};
use crate::glesv2_raii::program::Program;
use crate::table::{
    find_last, last_wins, lemma_last_wins_absent, lemma_last_wins_at, lemma_last_wins_push, Keyed,
};
use vstd::prelude::*;
use vstd::string::StringExecFns;

verus! {

/// A file of the resource directory, read before the mapper is made.
pub struct SourceFile {
    pub path: String,
    pub contents: Vec<u8>,
}

impl Keyed<String> for SourceFile {
    open spec fn keyed_by(&self, probe: &String) -> bool {
        self.path@ == probe@
    }

    fn has_key(&self, probe: &String) -> (found: bool) {
        self.path == *probe
    }
}

/// The kind of a cached resource.
#[derive(Clone, Copy, Debug, PartialEq, Eq, Structural)]
pub enum ResourceKind {
    Program,
    Buffer,
}

/// A resource that the mapper made and owns.
pub enum Resource {
    Program(Program),
    Buffer(Buffer),
}

/// What identifies a cached resource: its kind and its handle.
pub struct ResourceId {
    pub kind: ResourceKind,
    pub handle: u32,
}

impl View for Resource {
    type V = ResourceId;

    open spec fn view(&self) -> ResourceId {
        match self {
            Resource::Program(program) => ResourceId {
                kind: ResourceKind::Program,
                handle: program.id(),
            },
            Resource::Buffer(buffer) => ResourceId {
                kind: ResourceKind::Buffer,
                handle: buffer.id(),
            },
        }
    }
}

impl Resource {
    /// The kind of this resource.
    pub fn kind(&self) -> (kind: ResourceKind)
        ensures
            kind == self@.kind,
    {
        match self {
            Resource::Program(_) => ResourceKind::Program,
            Resource::Buffer(_) => ResourceKind::Buffer,
        }
    }

    /// The handle of this resource.
    pub fn handle(&self) -> (handle: u32)
        ensures
            handle == self@.handle,
    {
        match self {
            Resource::Program(program) => program.handle(),
            Resource::Buffer(buffer) => buffer.handle(),
        }
    }
}

/// The kind of resource that a descriptor asks for.
pub open spec fn kind_of(descriptor: DescriptorView) -> ResourceKind {
    match descriptor {
        DescriptorView::Program { .. } => ResourceKind::Program,
        DescriptorView::Buffer { .. } => ResourceKind::Buffer,
    }
}

/// The first path of a descriptor that names no staged file, if there is
/// one.
pub open spec fn missing_file(
    staged: Map<Seq<char>, Seq<u8>>,
    descriptor: DescriptorView,
) -> Option<Seq<char>> {
    match descriptor {
        DescriptorView::Program { vertex, fragment } => if !staged.contains_key(vertex) {
            Some(vertex)
        } else if !staged.contains_key(fragment) {
            Some(fragment)
        } else {
            None
        },
        DescriptorView::Buffer { path } => if !staged.contains_key(path) {
            Some(path)
        } else {
            None
        },
    }
}

/// What one lookup of `key` does to a cache, and what it returns.
///
/// A key that is cached returns its resource and changes nothing. Any other
/// key fails, and changes nothing, if it is no descriptor or names a file
/// that is not staged. Otherwise the resource is constructed: if that works
/// it is cached under the key and returned; if it fails, the failure of the
/// compiler or linker is returned and nothing is cached. A buffer's
/// construction does not fail.
pub open spec fn lookup_step(
    staged: Map<Seq<char>, Seq<u8>>,
    before: Map<Seq<char>, ResourceId>,
    key: Seq<char>,
    result: Result<ResourceId, ErrorView>,
    after: Map<Seq<char>, ResourceId>,
) -> bool {
    if before.contains_key(key) {
        result == Ok::<ResourceId, ErrorView>(before[key]) && after == before
    } else {
        match parse_key(key) {
            None => result == Err::<ResourceId, ErrorView>(ErrorView::InvalidDescriptor(key))
                && after == before,
            Some(descriptor) => match missing_file(staged, descriptor) {
                Some(path) => result == Err::<ResourceId, ErrorView>(
                    ErrorView::MissingResource(path),
                ) && after == before,
                None => match result {
                    Ok(id) => id.kind == kind_of(descriptor) && after == before.insert(key, id),
                    Err(e) => descriptor is Program && (e is Compile || e is Link) && after
                        == before,
                },
            },
        }
    }
}

/// The failure that a lookup of `key` is bound to end in before anything is
/// constructed: the key is not cached and is no descriptor, or names a file
/// that is not staged.
pub open spec fn lookup_refusal(
    staged: Map<Seq<char>, Seq<u8>>,
    before: Map<Seq<char>, ResourceId>,
    key: Seq<char>,
) -> Option<ErrorView> {
    if before.contains_key(key) {
        None
    } else {
        match parse_key(key) {
            None => Some(ErrorView::InvalidDescriptor(key)),
            Some(descriptor) => match missing_file(staged, descriptor) {
                Some(path) => Some(ErrorView::MissingResource(path)),
                None => None,
            },
        }
    }
}

/// What a lookup of `key` for a resource of kind `kind` does to a cache, and
/// what it returns: the lookup is that of `lookup_step`, and a resource of
/// another kind fails as no descriptor of the kind asked for.
pub open spec fn typed_lookup_step(
    kind: ResourceKind,
    staged: Map<Seq<char>, Seq<u8>>,
    before: Map<Seq<char>, ResourceId>,
    key: Seq<char>,
    result: Result<u32, ErrorView>,
    after: Map<Seq<char>, ResourceId>,
) -> bool {
    exists|found: Result<ResourceId, ErrorView>|
        #[trigger] lookup_step(staged, before, key, found, after) && result == match found {
            Ok(id) => if id.kind == kind {
                Ok::<u32, ErrorView>(id.handle)
            } else {
                Err::<u32, ErrorView>(ErrorView::InvalidDescriptor(key))
            },
            Err(e) => Err::<u32, ErrorView>(e),
        }
}

/// The result of a lookup with the resource as its kind and handle.
pub open spec fn lookup_view(result: Result<&Resource, Error>) -> Result<ResourceId, ErrorView> {
    match result {
        Ok(resource) => Ok(resource@),
        Err(e) => Err(e@),
    }
}

/// A key that resolved once resolves to the same resource again, and the
/// second lookup leaves the cache as it was.
pub proof fn lemma_second_lookup_hits(
    staged: Map<Seq<char>, Seq<u8>>,
    before: Map<Seq<char>, ResourceId>,
    key: Seq<char>,
    first: ResourceId,
    between: Map<Seq<char>, ResourceId>,
    second: Result<ResourceId, ErrorView>,
    after: Map<Seq<char>, ResourceId>,
)
    requires
        lookup_step(staged, before, key, Ok(first), between),
        lookup_step(staged, between, key, second, after),
    ensures
        second == Ok::<ResourceId, ErrorView>(first),
        after == between,
{
}

/// A lookup that fails caches nothing, so the next lookup of the key tries
/// again.
pub proof fn lemma_failure_is_not_cached(
    staged: Map<Seq<char>, Seq<u8>>,
    before: Map<Seq<char>, ResourceId>,
    key: Seq<char>,
    error: ErrorView,
    after: Map<Seq<char>, ResourceId>,
)
    requires
        lookup_step(staged, before, key, Err(error), after),
    ensures
        after == before,
        !after.contains_key(key),
{
}

/// A lookup never drops or replaces what is cached.
pub proof fn lemma_lookup_keeps_entries(
    staged: Map<Seq<char>, Seq<u8>>,
    before: Map<Seq<char>, ResourceId>,
    key: Seq<char>,
    result: Result<ResourceId, ErrorView>,
    after: Map<Seq<char>, ResourceId>,
)
    requires
        lookup_step(staged, before, key, result, after),
    ensures
        before.submap_of(after),
        forall|other: Seq<char>| after.contains_key(other) ==> other == key || before.contains_key(
            other,
        ),
{
}

/// Whether a lookup of `key` for a resource of kind `kind` accounts for the
/// failure `e`: `e` is the refusal that the lookup was bound to end in, or it
/// says that the key is no descriptor of that kind while the cache holds a
/// resource of another kind under the key.
pub open spec fn lookup_accounts_for(
    kind: ResourceKind,
    staged: Map<Seq<char>, Seq<u8>>,
    before: Map<Seq<char>, ResourceId>,
    key: Seq<char>,
    e: ErrorView,
    after: Map<Seq<char>, ResourceId>,
) -> bool {
    lookup_refusal(staged, before, key) == Some(e) || (e == ErrorView::InvalidDescriptor(key)
        && after.contains_key(key) && after[key].kind != kind)
}

/// A lookup for a resource of one kind never drops or replaces what is
/// cached, and what it adds has the kind of its descriptor. If it works, the
/// key is cached with a resource of that kind and the handle returned. If it
/// fails, it fails as the compiler or the linker did, or with a failure that
/// the lookup accounts for; and a refusal that is owed is the failure.
pub proof fn lemma_typed_lookup(
    kind: ResourceKind,
    staged: Map<Seq<char>, Seq<u8>>,
    before: Map<Seq<char>, ResourceId>,
    key: Seq<char>,
    result: Result<u32, ErrorView>,
    after: Map<Seq<char>, ResourceId>,
)
    requires
        typed_lookup_step(kind, staged, before, key, result, after),
    ensures
        before.submap_of(after),
        forall|other: Seq<char>| after.contains_key(other) ==> other == key || before.contains_key(
            other,
        ),
        !before.contains_key(key) && after.contains_key(key) ==> (parse_key(key) matches Some(
            descriptor,
        ) && after[key].kind == kind_of(descriptor)),
        match result {
            Ok(handle) => after.contains_key(key) && after[key] == (ResourceId { kind, handle }),
            Err(e) => e is Compile || e is Link || ((e is InvalidDescriptor || e is MissingResource)
                && lookup_accounts_for(kind, staged, before, key, e, after)),
        },
        lookup_refusal(staged, before, key) matches Some(e) ==> after == before && result == Err::<
            u32,
            ErrorView,
        >(e),
{
    let found = choose|found: Result<ResourceId, ErrorView>|
        #[trigger] lookup_step(staged, before, key, found, after) && result == match found {
            Ok(id) => if id.kind == kind {
                Ok::<u32, ErrorView>(id.handle)
            } else {
                Err::<u32, ErrorView>(ErrorView::InvalidDescriptor(key))
            },
            Err(e) => Err::<u32, ErrorView>(e),
        };
    lemma_lookup_keeps_entries(staged, before, key, found, after);
}

/// A refusal that is owed on a cache is owed on every cache that holds no
/// more, and is the same.
pub proof fn lemma_refusal_on_smaller_cache(
    staged: Map<Seq<char>, Seq<u8>>,
    smaller: Map<Seq<char>, ResourceId>,
    larger: Map<Seq<char>, ResourceId>,
    key: Seq<char>,
)
    requires
        smaller.submap_of(larger),
        lookup_refusal(staged, larger, key) is Some,
    ensures
        lookup_refusal(staged, smaller, key) == lookup_refusal(staged, larger, key),
{
}

/// The handle that a lookup resolved to, whatever was read along with it, or
/// the view of its failure.
pub open spec fn resolved_handle<T>(resolved: Result<(u32, T), Error>) -> Result<u32, ErrorView> {
    match resolved {
        Ok(pair) => Ok(pair.0),
        Err(e) => Err(e@),
    }
}

/// A resource with the key it is cached under.
struct CacheEntry {
    key: String,
    resource: Resource,
}

impl Keyed<String> for CacheEntry {
    closed spec fn keyed_by(&self, probe: &String) -> bool {
        self.key@ == probe@
    }

    fn has_key(&self, probe: &String) -> (found: bool) {
        self.key == *probe
    }
}

/// A cache that constructs programs and buffers on first use and owns them
/// from then on.
///
/// Dropping the mapper drops every resource in it, which deletes their
/// handles.
pub struct ResourceMapper {
    files: Vec<SourceFile>,
    entries: Vec<CacheEntry>,
}

impl ResourceMapper {
    /// The staged files as pairs of path and contents, in the order given.
    pub closed spec fn file_list(&self) -> Seq<(Seq<char>, Seq<u8>)> {
        Seq::new(self.files@.len(), |i: int| (self.files@[i].path@, self.files@[i].contents@))
    }

    /// The cached resources as pairs of key and resource, oldest first.
    pub closed spec fn entry_list(&self) -> Seq<(Seq<char>, ResourceId)> {
        Seq::new(self.entries@.len(), |i: int| (self.entries@[i].key@, self.entries@[i].resource@))
    }

    /// The contents of each staged file, by path.
    pub open spec fn staged(&self) -> Map<Seq<char>, Seq<u8>> {
        last_wins(self.file_list())
    }

    /// The resource cached under each key.
    pub open spec fn cache(&self) -> Map<Seq<char>, ResourceId> {
        last_wins(self.entry_list())
    }

    /// A mapper over the files given, with nothing cached. Where a path is
    /// given more than once, the last file given for it stands.
    pub fn new(files: Vec<SourceFile>) -> (mapper: ResourceMapper)
        ensures
            mapper.file_list() == Seq::new(
                files@.len(),
                |i: int| (files@[i].path@, files@[i].contents@),
            ),
            mapper.entry_list() == Seq::<(Seq<char>, ResourceId)>::empty(),
            mapper.cache() == Map::<Seq<char>, ResourceId>::empty(),
    {
        let mapper = ResourceMapper { files, entries: Vec::new() };
        assert(mapper.entry_list() =~= Seq::empty());
        mapper
    }

    /// How many resources are cached.
    pub fn len(&self) -> (count: usize)
        ensures
            count == self.entry_list().len(),
    {
        self.entries.len()
    }

    /// The index of the staged file at `path`, if there is one.
    fn file_index(&self, path: &String) -> (index: Option<usize>)
        ensures
            match index {
                Some(i) => i < self.files@.len() && self.staged().contains_key(path@)
                    && self.staged()[path@] == self.files@[i as int].contents@,
                None => !self.staged().contains_key(path@),
            },
    {
        let index = find_last(self.files.as_slice(), path);
        proof {
            match index {
                Some(at) => lemma_last_wins_at(self.file_list(), path@, at as int),
                None => lemma_last_wins_absent(self.file_list(), path@),
            }
        }
        index
    }

    /// The index of the entry cached under `key`, if there is one.
    fn entry_index(&self, key: &String) -> (index: Option<usize>)
        ensures
            match index {
                Some(i) => i < self.entries@.len() && self.cache().contains_key(key@)
                    && self.cache()[key@] == self.entries@[i as int].resource@,
                None => !self.cache().contains_key(key@),
            },
    {
        let index = find_last(self.entries.as_slice(), key);
        proof {
            match index {
                Some(at) => lemma_last_wins_at(self.entry_list(), key@, at as int),
                None => lemma_last_wins_absent(self.entry_list(), key@),
            }
        }
        index
    }

    /// The resource cached under `key`, if there is one. Nothing is
    /// constructed.
    pub fn get(&self, key: &str) -> (resource: Option<&Resource>)
        ensures
            match resource {
                Some(found) => self.cache().contains_key(key@) && self.cache()[key@] == found@,
                None => !self.cache().contains_key(key@),
            },
    {
        let wanted = String::from_str(key);
        match self.entry_index(&wanted) {
            Some(i) => Some(&self.entries[i].resource),
            None => None,
        }
    }

    /// The resource that `key` describes: the cached one, or else one
    /// constructed now and cached before it is returned.
    ///
    /// `lookup_step` says what is returned and what is cached. Whether a
    /// program's shaders compile and link is for the graphics context to say.
    /// A resource that is constructed is added at the end of the list of
    /// entries; nothing else changes the list.
    pub fn get_or_create(&mut self, key: &str) -> (result: Result<&Resource, Error>)
        ensures
            final(self).file_list() == old(self).file_list(),
            lookup_step(
                old(self).staged(),
                old(self).cache(),
                key@,
                lookup_view(result),
                final(self).cache(),
            ),
            match result {
                Ok(resource) => final(self).entry_list() == if old(self).cache().contains_key(key@) {
                    old(self).entry_list()
                } else {
                    old(self).entry_list().push((key@, resource@))
                },
                Err(_) => final(self).entry_list() == old(self).entry_list(),
            },
    {
        let wanted = String::from_str(key);
        match self.entry_index(&wanted) {
            Some(i) => {
                return Ok(&self.entries[i].resource);
            },
            None => {},
        }
        let descriptor = match Descriptor::parse(key) {
            Some(descriptor) => descriptor,
            None => {
                return Err(Error::InvalidDescriptor(wanted));
            },
        };
        let resource = match descriptor {
            Descriptor::Program { vertex, fragment } => {
                let v = match self.file_index(&vertex) {
                    Some(v) => v,
                    None => {
                        return Err(Error::MissingResource(vertex));
                    },
                };
                let f = match self.file_index(&fragment) {
                    Some(f) => f,
                    None => {
                        return Err(Error::MissingResource(fragment));
                    },
                };
                match Program::from_sources(
                    self.files[v].contents.as_slice(),
                    self.files[f].contents.as_slice(),
                ) {
                    Ok(program) => Resource::Program(program),
                    Err(e) => {
                        return Err(e);
                    },
                }
            },
            Descriptor::Buffer { path } => {
                let i = match self.file_index(&path) {
                    Some(i) => i,
                    None => {
                        return Err(Error::MissingResource(path));
                    },
                };
                let buffer = Buffer::new();
                buffer.upload(GL_ARRAY_BUFFER, self.files[i].contents.as_slice(), GL_STATIC_DRAW);
                Resource::Buffer(buffer)
            },
        };
        proof {
            lemma_last_wins_push(self.entry_list(), wanted@, resource@);
        }
        let ghost before = self.entry_list();
        self.entries.push(CacheEntry { key: wanted, resource });
        assert(self.entry_list() =~= before.push((key@, self.entries@.last().resource@)));
        let last = self.entries.len() - 1;
        Ok(&self.entries[last].resource)
    }

    /// The program that `key` describes, from the cache or constructed now.
    ///
    /// The key is looked up as `get_or_create` does; if it describes a
    /// buffer, this fails as no descriptor of a program.
    pub fn program(&mut self, key: &str) -> (result: Result<&Program, Error>)
        ensures
            final(self).file_list() == old(self).file_list(),
            typed_lookup_step(
                ResourceKind::Program,
                old(self).staged(),
                old(self).cache(),
                key@,
                match result {
                    Ok(program) => Ok(program.id()),
                    Err(e) => Err(e@),
                },
                final(self).cache(),
            ),
    {
        match self.get_or_create(key) {
            Ok(Resource::Program(program)) => Ok(program),
            Ok(Resource::Buffer(_)) => Err(Error::InvalidDescriptor(String::from_str(key))),
            Err(e) => Err(e),
        }
    }

    /// The buffer that `key` describes, from the cache or constructed now.
    ///
    /// The key is looked up as `get_or_create` does; if it describes a
    /// program, this fails as no descriptor of a buffer.
    pub fn buffer(&mut self, key: &str) -> (result: Result<&Buffer, Error>)
        ensures
            final(self).file_list() == old(self).file_list(),
            typed_lookup_step(
                ResourceKind::Buffer,
                old(self).staged(),
                old(self).cache(),
                key@,
                match result {
                    Ok(buffer) => Ok(buffer.id()),
                    Err(e) => Err(e@),
                },
                final(self).cache(),
            ),
    {
        match self.get_or_create(key) {
            Ok(Resource::Buffer(buffer)) => Ok(buffer),
            Ok(Resource::Program(_)) => Err(Error::InvalidDescriptor(String::from_str(key))),
            Err(e) => Err(e),
        }
    }
}

} // verus!
