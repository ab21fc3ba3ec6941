use crate::path_parts::{extension_of, name_parts_of, parent_of, path_name_parts, path_parent, stem_of};
use dashmap::DashMap;
use tempfile::NamedTempFile;
use vstd::prelude::*;

verus! {

#[verifier::external_type_specification]
#[verifier::external_body]
#[verifier::reject_recursive_types(K)]
#[verifier::reject_recursive_types(V)]
#[verifier::reject_recursive_types(S)]
pub struct ExDashMap<K, V, S>(DashMap<K, V, S>);

/// The open handle of a named tempfile, which deletes the file when dropped
/// unless it is kept.
///
/// Opaque to proofs: `NamedTempFile` defaults its parameter to the standard
/// file type, which has no specification here, so it is held in a hidden field.
#[verifier::external_body]
pub struct TempHandle {
    inner: NamedTempFile,
}

/// A named tempfile, open for reading and writing, and where it is on disk.
pub struct TempFile {
    handle: TempHandle,
    path: String,
}

impl TempFile {
    /// Where the file is.
    pub closed spec fn path_view(&self) -> Seq<char> {
        self.path@
    }

    /// Where the file is.
    pub fn path(&self) -> (r: String)
        ensures
            r@ == self.path_view(),
    {
        self.path.clone()
    }

    /// Keeps the file on disk instead of deleting it when dropped; hands back
    /// where it is.
    pub fn keep(self) -> (r: Result<String, std::io::Error>) {
        keep_handle(self.handle)
    }
}

/// Relies on `NamedTempFile::keep`: the file stays on disk under its path,
/// which is handed back; on failure it is still deleted when dropped.
#[verifier::external_body]
fn keep_handle(handle: TempHandle) -> (r: Result<String, std::io::Error>) {
    match handle.inner.keep() {
        Ok((_, path)) => Ok(path.to_string_lossy().into_owned()),
        Err(e) => Err(e.error),
    }
}

#[verifier::external_type_specification]
#[verifier::external_body]
pub struct ExIoError(std::io::Error);

/// What a map of tempfiles holds: for each identifier, where its file is.
pub uninterp spec fn tracked_files(files: DashMap<usize, TempFile>) -> Map<usize, Seq<char>>;

/// The path that `Path::join` makes of `dir` and a file name.
pub uninterp spec fn joined_path(dir: Seq<char>, name: Seq<char>) -> Seq<char>;

/// Relies on `DashMap::new`: a new map holds no entry.
#[verifier::external_body]
fn files_new() -> (r: DashMap<usize, TempFile>)
    ensures
        tracked_files(r).dom() == Set::<usize>::empty(),
{
    DashMap::new()
}

/// Relies on `DashMap::insert`: afterwards `key` holds `value`, and the value it
/// held before, if any, is handed back.
#[verifier::external_body]
fn files_insert(files: &mut DashMap<usize, TempFile>, key: usize, value: TempFile) -> (r:
    Option<TempFile>)
    ensures
        tracked_files(*final(files)) == tracked_files(*old(files)).insert(key, value.path@),
        r.is_some() == tracked_files(*old(files)).contains_key(key),
{
    files.insert(key, value)
}

/// Relies on `DashMap::remove`: afterwards `key` holds nothing, and its entry, if
/// it had one, is handed back.
#[verifier::external_body]
fn files_remove(files: &mut DashMap<usize, TempFile>, key: usize) -> (r: Option<
    (usize, TempFile),
>)
    ensures
        tracked_files(*final(files)) == tracked_files(*old(files)).remove(key),
        r.is_some() == tracked_files(*old(files)).contains_key(key),
        r matches Some(entry) ==> entry.0 == key && entry.1.path@ == tracked_files(*old(files))[key],
{
    files.remove(&key)
}

/// Relies on `DashMap::clear`: afterwards the map holds no entry; the values it
/// held are dropped.
#[verifier::external_body]
fn files_clear(files: &mut DashMap<usize, TempFile>)
    ensures
        tracked_files(*final(files)).dom() == Set::<usize>::empty(),
{
    files.clear()
}

/// Relies on `DashMap::len`: the number of entries.
#[verifier::external_body]
fn files_len(files: &DashMap<usize, TempFile>) -> (r: usize)
    ensures
        r == tracked_files(*files).len(),
{
    files.len()
}

/// Relies on `NamedTempFile::new_in`: creates and opens a file under a fresh,
/// random name in `dir`, and on `NamedTempFile::path` for where it is. Whether
/// it succeeds depends on the file system.
#[verifier::external_body]
fn create_in_dir(dir: &str) -> (r: Result<TempFile, std::io::Error>) {
    match NamedTempFile::new_in(dir) {
        Ok(inner) => {
            let path = inner.path().to_string_lossy().into_owned();
            Ok(TempFile { handle: TempHandle { inner }, path })
        },
        Err(e) => Err(e),
    }
}

/// Relies on `tempfile::Builder` with no random characters: it tries once to
/// create and open `dir` joined with `prefix` followed by `suffix` (a relative
/// `dir` is first taken from the current directory), and on
/// `NamedTempFile::path` for where the file is. Whether it succeeds depends on
/// the file system.
#[verifier::external_body]
fn create_named_in_dir(dir: &str, prefix: &str, suffix: &str) -> (r: Result<
    TempFile,
    std::io::Error,
>)
    ensures
        is_absolute(dir@) ==> (r matches Ok(file) ==> file.path@ == joined_path(
            dir@,
            prefix@ + suffix@,
        )),
{
    match tempfile::Builder::new().prefix(prefix).suffix(suffix).rand_bytes(0).tempfile_in(dir) {
        Ok(inner) => {
            let path = inner.path().to_string_lossy().into_owned();
            Ok(TempFile { handle: TempHandle { inner }, path })
        },
        Err(e) => Err(e),
    }
}

/// A path that starts at the root of the file system.
pub open spec fn is_absolute(path: Seq<char>) -> bool {
    path.len() > 0 && path[0] == '/'
}

/// The tempfiles that are to be deleted on removal or on a sweep, each under an
/// identifier that is handed out once only.
pub struct Registry {
    files: DashMap<usize, TempFile>,
    next_id: usize,
}

/// The caller's claim on one tracked tempfile: the right to remove its entry once.
pub struct Registration {
    id: usize,
}

impl Registration {
    /// The identifier of the entry this registration claims.
    pub closed spec fn id(&self) -> usize {
        self.id
    }

    pub fn identifier(&self) -> (r: usize)
        ensures
            r == self.id(),
    {
        self.id
    }

    /// Takes the tempfile out of the registry: it is no longer deleted by a sweep,
    /// and the caller owns it. Nothing comes back, and nothing changes, when a
    /// sweep removed it first.
    pub fn take(self, registry: &mut Registry) -> (r: Option<TempFile>)
        requires
            old(registry).wf(),
        ensures
            final(registry).wf(),
            r.is_some() == old(registry).files().contains_key(self.id()),
            r matches Some(file) ==> file.path_view() == old(registry).files()[self.id()],
            final(registry).files() == old(registry).files().remove(self.id()),
            final(registry).next_id() == old(registry).next_id(),
    {
        let entry = files_remove(&mut registry.files, self.id);
        match entry {
            Some(kv) => Some(kv.1),
            None => None,
        }
    }

    /// Removes the entry and so deletes its tempfile, and no other. Returns whether
    /// it was still tracked: a sweep may have removed it first, and then nothing
    /// changes.
    pub fn remove(self, registry: &mut Registry) -> (r: bool)
        requires
            old(registry).wf(),
        ensures
            final(registry).wf(),
            r == old(registry).files().contains_key(self.id()),
            final(registry).files() == old(registry).files().remove(self.id()),
            r ==> final(registry).files().len() + 1 == old(registry).files().len(),
            !r ==> final(registry).files() == old(registry).files(),
            final(registry).next_id() == old(registry).next_id(),
    {
        let entry = files_remove(&mut registry.files, self.id);
        proof {
            if entry.is_none() {
                assert(registry.files() =~= old(registry).files());
            }
        }
        entry.is_some()
    }
}

impl Registry {
    /// For each tracked tempfile, its identifier and where it is.
    pub closed spec fn files(&self) -> Map<usize, Seq<char>> {
        tracked_files(self.files)
    }

    /// The identifiers of the tracked tempfiles.
    pub open spec fn ids(&self) -> Set<usize> {
        self.files().dom()
    }

    /// The identifier the next registration receives.
    pub closed spec fn next_id(&self) -> nat {
        self.next_id as nat
    }

    /// Finitely many tempfiles are tracked, each under an identifier handed out before.
    pub closed spec fn wf(&self) -> bool {
        &&& self.files().dom().finite()
        &&& forall|id: usize| #[trigger] self.files().contains_key(id) ==> id < self.next_id
    }

    /// An empty registry whose first identifier is zero.
    pub fn new() -> (r: Self)
        ensures
            r.wf(),
            r.files().dom() == Set::<usize>::empty(),
            r.next_id() == 0,
    {
        Registry { files: files_new(), next_id: 0 }
    }

    /// The number of tracked tempfiles.
    pub fn len(&self) -> (r: usize)
        requires
            self.wf(),
        ensures
            r == self.files().len(),
    {
        files_len(&self.files)
    }

    /// Whether another identifier can be handed out.
    pub fn can_issue(&self) -> (r: bool)
        ensures
            r == (self.next_id() < usize::MAX),
    {
        self.next_id < usize::MAX
    }

    fn issue_id(&mut self) -> (id: usize)
        requires
            old(self).wf(),
            old(self).next_id() < usize::MAX,
        ensures
            final(self).wf(),
            id == old(self).next_id(),
            final(self).next_id() == old(self).next_id() + 1,
            final(self).files() == old(self).files(),
    {
        let id = self.next_id;
        self.next_id = self.next_id + 1;
        id
    }

    fn track(&mut self, id: usize, file: TempFile)
        requires
            old(self).wf(),
            id < old(self).next_id(),
            !old(self).files().contains_key(id),
        ensures
            final(self).wf(),
            final(self).files() == old(self).files().insert(id, file.path_view()),
            final(self).files().len() == old(self).files().len() + 1,
            final(self).next_id() == old(self).next_id(),
    {
        let replaced = files_insert(&mut self.files, id, file);
        expect_none(replaced);
    }
}

/// A tempfile is never tracked twice under one identifier.
fn expect_none<T>(v: Option<T>)
    requires
        v.is_none(),
{
}

/// What a creation from `before` that produced `r` leaves in `after`: the next
/// identifier is used up whatever happened; on success the new file is tracked
/// under it at `path`, and nothing else changes.
pub open spec fn created(
    before: Registry,
    after: Registry,
    r: Result<Registration, std::io::Error>,
    path: spec_fn(Seq<char>) -> bool,
) -> bool {
    &&& after.next_id() == before.next_id() + 1
    &&& match r {
        Ok(registration) => {
            &&& registration.id() == before.next_id()
            &&& !before.files().contains_key(registration.id())
            &&& after.files().dom() == before.files().dom().insert(registration.id())
            &&& after.files().remove(registration.id()) == before.files()
            &&& path(after.files()[registration.id()])
            &&& after.files().len() == before.files().len() + 1
        },
        Err(_) => after.files() == before.files(),
    }
}

/// Creates a tempfile under a fresh random name in `containing_directory` and
/// tracks it under the next identifier. The identifier is used up even where
/// creation fails.
pub fn new(registry: &mut Registry, containing_directory: &str) -> (r: Result<
    Registration,
    std::io::Error,
>)
    requires
        old(registry).wf(),
        old(registry).next_id() < usize::MAX,
    ensures
        final(registry).wf(),
        created(*old(registry), *final(registry), r, |p: Seq<char>| true),
{
    let id = registry.issue_id();
    match create_in_dir(containing_directory) {
        Ok(file) => {
            registry.track(id, file);
            proof {
                assert(registry.files().remove(id) =~= old(registry).files());
            }
            Ok(Registration { id })
        },
        Err(e) => Err(e),
    }
}

/// Creates the tempfile named exactly as `path` names it, with no random
/// characters, in the directory `path` names it in, and tracks it under the
/// next identifier. The identifier is used up even where creation fails.
pub fn at_path(registry: &mut Registry, path: &str) -> (r: Result<Registration, std::io::Error>)
    requires
        old(registry).wf(),
        old(registry).next_id() < usize::MAX,
        parent_of(path@).is_some(),
    ensures
        final(registry).wf(),
        created(
            *old(registry),
            *final(registry),
            r,
            |p: Seq<char>|
                is_absolute(parent_of(path@).unwrap()) ==> p == joined_path(
                    parent_of(path@).unwrap(),
                    name_parts_of(stem_of(path@), extension_of(path@)).0 + name_parts_of(
                        stem_of(path@),
                        extension_of(path@),
                    ).1,
                ),
        ),
{
    let id = registry.issue_id();
    let parent = path_parent(path);
    let dir = match parent {
        Some(d) => d,
        None => {
            assert(false);
            String::new()
        },
    };
    let (prefix, suffix) = path_name_parts(path);
    match create_named_in_dir(dir.as_str(), prefix.as_str(), suffix.as_str()) {
        Ok(file) => {
            registry.track(id, file);
            proof {
                assert(registry.files().remove(id) =~= old(registry).files());
            }
            Ok(Registration { id })
        },
        Err(e) => Err(e),
    }
}

/// As [`at_path`], but hands back nothing and leaves the registry as it is where
/// `path` names no directory to create the file in.
pub fn try_at_path(registry: &mut Registry, path: &str) -> (r: Option<
    Result<Registration, std::io::Error>,
>)
    requires
        old(registry).wf(),
        old(registry).next_id() < usize::MAX,
    ensures
        final(registry).wf(),
        r.is_none() <==> parent_of(path@).is_none(),
        r.is_none() ==> *final(registry) == *old(registry),
        r matches Some(created_r) ==> created(
            *old(registry),
            *final(registry),
            created_r,
            |p: Seq<char>|
                is_absolute(parent_of(path@).unwrap()) ==> p == joined_path(
                    parent_of(path@).unwrap(),
                    name_parts_of(stem_of(path@), extension_of(path@)).0 + name_parts_of(
                        stem_of(path@),
                        extension_of(path@),
                    ).1,
                ),
        ),
{
    match path_parent(path) {
        Some(_) => Some(at_path(registry, path)),
        None => None,
    }
}

/// Removes every tracked entry, deleting each tempfile: what a termination signal
/// handler does before it applies its [`SignalHandlerMode`](crate::SignalHandlerMode).
pub fn cleanup_tempfiles(registry: &mut Registry)
    requires
        old(registry).wf(),
    ensures
        final(registry).wf(),
        final(registry).files().dom() == Set::<usize>::empty(),
        final(registry).next_id() == old(registry).next_id(),
{
    files_clear(&mut registry.files);
}

/// The identifier the next creation hands out is tracked by no entry and is
/// greater than every identifier handed out before, so identifiers never repeat.
pub proof fn lemma_next_id_is_fresh(registry: Registry)
    requires
        registry.wf(),
    ensures
        forall|id: usize| #[trigger] registry.ids().contains(id) ==> (id as nat) < registry.next_id(),
        registry.next_id() <= usize::MAX ==> !registry.ids().contains(registry.next_id() as usize),
{
}

/// A registration handed out by a creation from `earlier`, which left
/// `after_first`, has a smaller identifier than one handed out by a creation from
/// `later`, whenever `later` comes after `after_first`: every operation's
/// contract keeps the next identifier or raises it, so the next identifier of
/// `later` is at least that of `after_first`.
pub proof fn lemma_ids_strictly_increase(
    first: Registration,
    earlier: Registry,
    after_first: Registry,
    second: Registration,
    later: Registry,
)
    requires
        first.id() == earlier.next_id(),
        after_first.next_id() == earlier.next_id() + 1,
        after_first.next_id() <= later.next_id(),
        second.id() == later.next_id(),
    ensures
        first.id() < second.id(),
{
}

/// Live registrations with distinct identifiers, each still tracked and
/// together covering every tracked entry, are exactly as many as the tracked
/// tempfiles.
pub proof fn lemma_live_count_is_file_count(registry: Registry, live: Seq<Registration>)
    requires
        registry.wf(),
        forall|i: int, j: int|
            0 <= i < j < live.len() ==> #[trigger] live[i].id() != #[trigger] live[j].id(),
        forall|i: int| 0 <= i < live.len() ==> registry.ids().contains(#[trigger] live[i].id()),
        forall|id: usize|
            #[trigger] registry.ids().contains(id) ==> exists|i: int|
                0 <= i < live.len() && live[i].id() == id,
    ensures
        registry.files().len() == live.len(),
{
    let ids = live.map_values(|r: Registration| r.id());
    assert(ids.no_duplicates()) by {
        assert forall|i: int, j: int| 0 <= i < ids.len() && 0 <= j < ids.len() && i != j implies ids[i]
            != ids[j] by {
            if i < j {
                assert(live[i].id() != live[j].id());
            } else {
                assert(live[j].id() != live[i].id());
            }
        }
    }
    ids.unique_seq_to_set();
    assert(ids.to_set() =~= registry.ids()) by {
        assert forall|id: usize| registry.ids().contains(id) implies ids.to_set().contains(id) by {
            let i = choose|i: int| 0 <= i < live.len() && live[i].id() == id;
            assert(ids[i] == id);
        }
        assert forall|id: usize| ids.to_set().contains(id) implies registry.ids().contains(id) by {
            let i = choose|i: int| 0 <= i < ids.len() && ids[i] == id;
            assert(live[i].id() == id);
        }
    }
}

} // verus!
