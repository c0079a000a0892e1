//! The environment the resolver works against: a file store plus the
//! test-substitution configuration for native executables.
//!
//! The real collaborators — disk, network, process spawning — stay outside
//! this library; the environment here is their observable state: which
//! paths hold which text, where the artifact cache lives, and whether a
//! test run substitutes a fixed safe executable path.

use vstd::prelude::*;
use crate::table::Table;

verus! {

/// The observable state of the resolver's surroundings.
pub struct Environment {
    /// The file store: each path maps to the text stored there.
    pub files: Table<String>,
    /// The directory plugin artifacts are cached under.
    pub cache_dir: String,
    /// Whether native executable paths are substituted for test runs.
    pub test_mode: bool,
    /// The fixed executable path a test run substitutes.
    pub safe_executable_path: String,
}

impl Environment {
    /// The file store maps each path to at most one text.
    pub open spec fn wf(self) -> bool {
        self.files.wf()
    }

    /// A file exists at `path`.
    pub open spec fn spec_has_file(self, path: Seq<char>) -> bool {
        self.files.spec_has(path)
    }

    /// The text of the file at `path`; meaningful only when it exists.
    pub open spec fn spec_file_text(self, path: Seq<char>) -> Seq<char> {
        self.files.spec_at(path)@
    }

    /// Both environments answer every file question alike.
    pub open spec fn same_files(self, other: Environment) -> bool {
        &&& forall|p: Seq<char>| self.spec_has_file(p) <==> other.spec_has_file(p)
        &&& forall|p: Seq<char>|
            self.spec_has_file(p) ==> self.spec_file_text(p) == other.spec_file_text(p)
    }

    /// Both environments carry one configuration.
    pub open spec fn same_config(self, other: Environment) -> bool {
        &&& self.cache_dir@ == other.cache_dir@
        &&& self.test_mode == other.test_mode
        &&& self.safe_executable_path@ == other.safe_executable_path@
    }

    /// An environment with no files.
    pub fn new(cache_dir: String, test_mode: bool, safe_executable_path: String) -> (r:
        Environment)
        ensures
            r.wf(),
            forall|p: Seq<char>| !r.spec_has_file(p),
            r.cache_dir@ == cache_dir@,
            r.test_mode == test_mode,
            r.safe_executable_path@ == safe_executable_path@,
    {
        Environment { files: Table::new(), cache_dir, test_mode, safe_executable_path }
    }

    /// Whether a file exists at `path`.
    pub fn path_exists(&self, path: &String) -> (r: bool)
        requires
            self.wf(),
        ensures
            r == self.spec_has_file(path@),
    {
        self.files.get(path).is_some()
    }

    /// The text of the file at `path`, when one exists.
    pub fn read_file(&self, path: &String) -> (r: Option<String>)
        requires
            self.wf(),
        ensures
            match r {
                Some(text) => self.spec_has_file(path@) && text@ == self.spec_file_text(path@),
                None => !self.spec_has_file(path@),
            },
    {
        match self.files.get(path) {
            Some(text) => Some(text.clone()),
            None => None,
        }
    }

    /// Writes `text` to `path`, replacing any earlier file there.
    pub fn write_file(&mut self, path: &String, text: String)
        requires
            old(self).wf(),
        ensures
            final(self).wf(),
            final(self).spec_has_file(path@),
            final(self).spec_file_text(path@) == text@,
            forall|p: Seq<char>|
                p != path@ ==> (final(self).spec_has_file(p) <==> old(self).spec_has_file(p)),
            forall|p: Seq<char>|
                p != path@ && old(self).spec_has_file(p) ==> final(self).spec_file_text(p)
                    == old(self).spec_file_text(p),
            final(self).same_config(*old(self)),
            final(self).cache_dir == old(self).cache_dir,
            final(self).test_mode == old(self).test_mode,
            final(self).safe_executable_path == old(self).safe_executable_path,
    {
        self.files.put(path, text);
    }

    /// Deletes the file at `path`; deleting an absent file changes nothing.
    pub fn delete_file(&mut self, path: &String)
        requires
            old(self).wf(),
        ensures
            final(self).wf(),
            !final(self).spec_has_file(path@),
            forall|p: Seq<char>|
                p != path@ ==> (final(self).spec_has_file(p) <==> old(self).spec_has_file(p)),
            forall|p: Seq<char>|
                p != path@ && old(self).spec_has_file(p) ==> final(self).spec_file_text(p)
                    == old(self).spec_file_text(p),
            final(self).same_config(*old(self)),
            final(self).cache_dir == old(self).cache_dir,
            final(self).test_mode == old(self).test_mode,
            final(self).safe_executable_path == old(self).safe_executable_path,
            !old(self).spec_has_file(path@) ==> *final(self) == *old(self),
    {
        self.files.take_out(path);
    }
}

} // verus!
