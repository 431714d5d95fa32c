//! The shared context of one prompt: the working directory, the shell's state,
//! the configuration, and facts about the directory computed at most once.

use vstd::prelude::*;
use crate::module::Module;
use crate::path::{first_listed_match, first_match, listings_view, upward_chain, upward_dirs};
use crate::probe::{DirEntry, FileProbe, ProbeModel};
use crate::style::Style;
use crate::text::{same_text, texts};

verus! {

/// The settings of one module.
#[derive(Clone, Debug)]
pub struct ModuleConfig {
    pub name: String,
    pub disabled: bool,
    pub style: Option<Style>,
    /// Written after the module's text; a single space when absent.
    pub suffix: Option<String>,
    /// Module-specific switches, by key.
    pub flags: Vec<(String, bool)>,
}

/// The parsed configuration: per-module settings, and the order of the modules.
#[derive(Clone, Debug)]
pub struct Config {
    pub modules: Vec<ModuleConfig>,
    pub order: Option<Vec<String>>,
}

/// What the shell reports about the previous command and the session.
#[derive(Clone, Debug)]
pub struct RuntimeState {
    pub status_code: Option<i64>,
    pub duration_ms: Option<u64>,
    pub keymap: Option<String>,
    pub jobs: Option<u64>,
}

/// Lists a directory's immediate entries; `None` when it cannot be read.
pub trait DirectoryLister {
    fn list_dir(&mut self, dir: &str) -> Option<Vec<DirEntry>>;
}

/// What marks a repository: a `.git` directory.
pub open spec fn repository_markers() -> ProbeModel {
    ProbeModel { extensions: Seq::empty(), file_names: Seq::empty(), folders: seq![".git"@] }
}

/// The probe that marks a repository.
pub fn repository_probe() -> (r: FileProbe)
    ensures
        r@ == repository_markers(),
{
    let mut folders: Vec<String> = Vec::new();
    folders.push(String::from_str(".git"));
    let r = FileProbe { extensions: Vec::new(), file_names: Vec::new(), folders };
    assert(r@.folders =~= seq![".git"@]);
    assert(r@.extensions =~= Seq::<Seq<char>>::empty());
    assert(r@.file_names =~= Seq::<Seq<char>>::empty());
    r
}

/// The settings of the first module configured under `name`.
pub open spec fn config_of(modules: Seq<ModuleConfig>, name: Seq<char>) -> Option<ModuleConfig>
    decreases modules.len(),
{
    if modules.len() == 0 {
        None
    } else if modules[0].name@ == name {
        Some(modules[0])
    } else {
        config_of(modules.subrange(1, modules.len() as int), name)
    }
}

/// The value of the first switch named `key`.
pub open spec fn flag_of(flags: Seq<(String, bool)>, key: Seq<char>) -> Option<bool>
    decreases flags.len(),
{
    if flags.len() == 0 {
        None
    } else if flags[0].0@ == key {
        Some(flags[0].1)
    } else {
        flag_of(flags.subrange(1, flags.len() as int), key)
    }
}

pub open spec fn is_disabled_in(c: Config, name: Seq<char>) -> bool {
    match config_of(c.modules@, name) {
        Some(m) => m.disabled,
        None => false,
    }
}

/// The style of a module: the configured one, else the module's own default.
pub open spec fn style_for(c: Config, name: Seq<char>, default: Style) -> Style {
    match config_of(c.modules@, name) {
        Some(m) => match m.style {
            Some(s) => s,
            None => default,
        },
        None => default,
    }
}

/// The suffix of a module: the configured one, else a single space.
pub open spec fn suffix_for(c: Config, name: Seq<char>) -> Seq<char> {
    match config_of(c.modules@, name) {
        Some(m) => match m.suffix {
            Some(s) => s@,
            None => seq![' '],
        },
        None => seq![' '],
    }
}

pub open spec fn flag_for(c: Config, name: Seq<char>, key: Seq<char>) -> Option<bool> {
    match config_of(c.modules@, name) {
        Some(m) => flag_of(m.flags@, key),
        None => None,
    }
}

/// The context shared by the modules of one prompt. The listing of the working
/// directory and the repository root are each computed at most once.
pub struct Context {
    current_dir: String,
    runtime: RuntimeState,
    config: Config,
    listing: Option<Vec<DirEntry>>,
    listings_made: u64,
    repo_root: Option<Option<String>>,
}

impl Config {
    /// No module settings, and the default order.
    pub fn empty() -> (r: Config)
        ensures
            r.modules@.len() == 0,
            r.order.is_none(),
    {
        Config { modules: Vec::new(), order: None }
    }

    /// The settings of the module `name`.
    pub fn module_config(&self, name: &str) -> (r: Option<&ModuleConfig>)
        ensures
            match r {
                Some(m) => config_of(self.modules@, name@) == Some(*m),
                None => config_of(self.modules@, name@).is_none(),
            },
    {
        let mut i: usize = 0;
        assert(self.modules@.subrange(0, self.modules@.len() as int) =~= self.modules@);
        while i < self.modules.len()
            invariant
                i <= self.modules@.len(),
                config_of(self.modules@, name@) == config_of(
                    self.modules@.subrange(i as int, self.modules@.len() as int),
                    name@,
                ),
            decreases self.modules@.len() - i,
        {
            let ghost rest = self.modules@.subrange(i as int, self.modules@.len() as int);
            assert(rest.subrange(1, rest.len() as int) =~= self.modules@.subrange(
                i + 1,
                self.modules@.len() as int,
            ));
            if same_text(self.modules[i].name.as_str(), name) {
                return Some(&self.modules[i]);
            }
            i = i + 1;
        }
        None
    }

    /// Whether the module `name` is configured as disabled.
    pub fn is_disabled(&self, name: &str) -> (r: bool)
        ensures
            r == is_disabled_in(*self, name@),
    {
        match self.module_config(name) {
            Some(m) => m.disabled,
            None => false,
        }
    }

    /// The switch `key` of the module `name`.
    pub fn config_value_bool(&self, name: &str, key: &str) -> (r: Option<bool>)
        ensures
            r == flag_for(*self, name@, key@),
    {
        match self.module_config(name) {
            Some(m) => {
                assert(flag_for(*self, name@, key@) == flag_of(m.flags@, key@));
                let mut i: usize = 0;
                assert(m.flags@.subrange(0, m.flags@.len() as int) =~= m.flags@);
                while i < m.flags.len()
                    invariant
                        i <= m.flags@.len(),
                        flag_for(*self, name@, key@) == flag_of(m.flags@, key@),
                        flag_of(m.flags@, key@) == flag_of(
                            m.flags@.subrange(i as int, m.flags@.len() as int),
                            key@,
                        ),
                    decreases m.flags@.len() - i,
                {
                    let ghost rest = m.flags@.subrange(i as int, m.flags@.len() as int);
                    assert(rest.subrange(1, rest.len() as int) =~= m.flags@.subrange(
                        i + 1,
                        m.flags@.len() as int,
                    ));
                    assert(rest[0] == m.flags@[i as int]);
                    if same_text(m.flags[i].0.as_str(), key) {
                        assert(flag_of(rest, key@) == Some(m.flags@[i as int].1));
                        return Some(m.flags[i].1);
                    }
                    i = i + 1;
                }
                None
            },
            None => None,
        }
    }
}

impl Context {
    pub closed spec fn dir(&self) -> Seq<char> {
        self.current_dir@
    }

    pub closed spec fn config_spec(&self) -> Config {
        self.config
    }

    pub closed spec fn runtime_spec(&self) -> RuntimeState {
        self.runtime
    }

    pub closed spec fn listing_cache(&self) -> Option<Seq<DirEntry>> {
        match self.listing {
            Some(v) => Some(v@),
            None => None,
        }
    }

    /// The entries of the working directory as `dir_files` gives them.
    pub open spec fn dir_files_spec(&self) -> Seq<DirEntry> {
        match self.listing_cache() {
            Some(e) => e,
            None => Seq::<DirEntry>::empty(),
        }
    }

    /// The located repository root, where one was located.
    pub open spec fn repo_root_spec(&self) -> Option<Seq<char>> {
        match self.repo_cache() {
            Some(Some(r)) => Some(r),
            _ => None,
        }
    }

    /// How many times the working directory has been listed.
    pub closed spec fn listings_made_spec(&self) -> nat {
        self.listings_made as nat
    }

    pub closed spec fn repo_cache(&self) -> Option<Option<Seq<char>>> {
        match self.repo_root {
            Some(Some(r)) => Some(Some(r@)),
            Some(None) => Some(None),
            None => None,
        }
    }

    /// Each cache is filled at most once, and the count of listings says whether it was.
    pub closed spec fn wf(&self) -> bool {
        self.listings_made == (if self.listing.is_some() { 1u64 } else { 0u64 })
    }

    pub fn new(current_dir: String, runtime: RuntimeState, config: Config) -> (r: Context)
        ensures
            r.wf(),
            r.dir() == current_dir@,
            r.config_spec() == config,
            r.runtime_spec() == runtime,
            r.listing_cache().is_none(),
            r.listings_made_spec() == 0,
            r.repo_cache().is_none(),
    {
        Context { current_dir, runtime, config, listing: None, listings_made: 0, repo_root: None }
    }

    /// The working directory.
    pub fn current_dir(&self) -> (r: &str)
        ensures
            r@ == self.dir(),
    {
        self.current_dir.as_str()
    }

    pub fn config(&self) -> (r: &Config)
        ensures
            *r == self.config_spec(),
    {
        &self.config
    }

    pub fn runtime(&self) -> (r: &RuntimeState)
        ensures
            *r == self.runtime_spec(),
    {
        &self.runtime
    }

    /// How many times the working directory has been listed: 0 or 1.
    pub fn listing_count(&self) -> (r: u64)
        requires
            self.wf(),
        ensures
            r == self.listings_made_spec(),
            r == (if self.listing_cache().is_some() { 1u64 } else { 0u64 }),
    {
        self.listings_made
    }

    /// Whether the working directory still has to be listed.
    pub fn needs_listing(&self) -> (r: bool)
        ensures
            r == self.listing_cache().is_none(),
    {
        self.listing.is_none()
    }

    /// Publishes the listing of the working directory, once: a listing that
    /// could not be read counts as empty, and a later one is ignored.
    pub fn record_listing(&mut self, entries: Option<Vec<DirEntry>>)
        requires
            old(self).wf(),
        ensures
            final(self).wf(),
            final(self).dir() == old(self).dir(),
            final(self).config_spec() == old(self).config_spec(),
            final(self).runtime_spec() == old(self).runtime_spec(),
            final(self).repo_cache() == old(self).repo_cache(),
            old(self).listing_cache().is_some() ==> final(self).listing_cache() == old(
                self,
            ).listing_cache() && final(self).listings_made_spec() == old(self).listings_made_spec(),
            old(self).listing_cache().is_none() ==> final(self).listing_cache() == Some(
                match entries {
                    Some(e) => e@,
                    None => Seq::<DirEntry>::empty(),
                },
            ) && final(self).listings_made_spec() == 1,
    {
        if self.listing.is_none() {
            let listed = match entries {
                Some(e) => e,
                None => Vec::new(),
            };
            self.listing = Some(listed);
            self.listings_made = 1;
        }
    }

    /// The entries of the working directory; empty until it is listed.
    pub fn dir_files(&self) -> (r: &[DirEntry])
        ensures
            r@ == self.dir_files_spec(),
    {
        match &self.listing {
            Some(v) => v.as_slice(),
            None => &[],
        }
    }

    /// Whether the repository root still has to be located.
    pub fn needs_repository(&self) -> (r: bool)
        ensures
            r == self.repo_cache().is_none(),
    {
        self.repo_root.is_none()
    }

    /// Publishes the located repository root, once; a later one is ignored.
    pub fn record_repository(&mut self, root: Option<String>)
        requires
            old(self).wf(),
        ensures
            final(self).wf(),
            final(self).dir() == old(self).dir(),
            final(self).config_spec() == old(self).config_spec(),
            final(self).runtime_spec() == old(self).runtime_spec(),
            final(self).listing_cache() == old(self).listing_cache(),
            final(self).listings_made_spec() == old(self).listings_made_spec(),
            old(self).repo_cache().is_some() ==> final(self).repo_cache() == old(self).repo_cache(),
            old(self).repo_cache().is_none() ==> final(self).repo_cache() == Some(
                match root {
                    Some(r) => Some(r@),
                    None => None::<Seq<char>>,
                },
            ),
    {
        if self.repo_root.is_none() {
            self.repo_root = Some(root);
        }
    }

    /// The directories searched for a repository: the working directory, then
    /// each parent up to the root.
    pub fn repository_search_dirs(&self) -> (r: Vec<String>)
        ensures
            texts(r@) == upward_chain(self.dir(), None),
    {
        upward_dirs(self.current_dir.as_str(), None)
    }

    /// Records the repository that holds the working directory, unless one was
    /// recorded before, from the listings of the first directories of
    /// `repository_search_dirs` (in that order): the nearest of them that holds
    /// a `.git` directory. Listing can stop at the first match, which gives the
    /// same result as listing every directory.
    pub fn locate_repository(&mut self, listings: Vec<Vec<DirEntry>>)
        requires
            old(self).wf(),
            listings@.len() <= upward_chain(old(self).dir(), None).len(),
        ensures
            final(self).wf(),
            final(self).repo_cache().is_some(),
            final(self).dir() == old(self).dir(),
            final(self).config_spec() == old(self).config_spec(),
            final(self).runtime_spec() == old(self).runtime_spec(),
            final(self).listing_cache() == old(self).listing_cache(),
            final(self).listings_made_spec() == old(self).listings_made_spec(),
            old(self).repo_cache().is_some() ==> final(self).repo_cache() == old(self).repo_cache(),
            old(self).repo_cache().is_none() ==> final(self).repo_root_spec() == first_listed_match(
                upward_chain(old(self).dir(), None),
                listings_view(listings@),
                repository_markers(),
            ),
    {
        if self.needs_repository() {
            let dirs = self.repository_search_dirs();
            let probe = repository_probe();
            let root = first_match(&dirs, &listings, &probe);
            self.record_repository(root);
        }
    }

    /// The repository root, where one was located.
    pub fn repo_root(&self) -> (r: Option<&str>)
        ensures
            match r {
                Some(s) => self.repo_root_spec() == Some(s@),
                None => self.repo_root_spec().is_none(),
            },
    {
        match &self.repo_root {
            Some(Some(r)) => Some(r.as_str()),
            _ => None,
        }
    }

    /// A new module named `name`, in its configured style (else `default`)
    /// and with its configured suffix (else a single space).
    pub fn new_module(&self, name: &str, default: Style) -> (r: Module)
        ensures
            r.name@ == name@,
            r.style == style_for(self.config_spec(), name@, default),
            r.segments@.len() == 0,
            r.suffix@ == suffix_for(self.config_spec(), name@),
    {
        let (style, suffix) = match self.config.module_config(name) {
            Some(m) => {
                let style = match m.style {
                    Some(s) => s,
                    None => default,
                };
                let suffix = match &m.suffix {
                    Some(s) => s.clone(),
                    None => String::from_str(" "),
                };
                (style, suffix)
            },
            None => (default, String::from_str(" ")),
        };
        proof {
            reveal_strlit(" ");
        }
        Module::new(name, style, suffix.as_str())
    }
}

} // verus!
