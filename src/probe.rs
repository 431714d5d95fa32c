//! Directory listings and the declarative probes evaluated against them.

use vstd::prelude::*;
use crate::text::{texts, eq_ignore_ascii_case, eq_ignoring_ascii_case, last_index_of, lemma_last_index_bounds, rfind_before, same_text};

verus! {

/// One immediate entry of a directory: its file name, and whether it is a directory.
#[derive(Clone, Debug)]
pub struct DirEntry {
    pub name: String,
    pub is_dir: bool,
}

/// The extension of a file name: what follows its last `.`, where that dot is
/// not the first character; `..` has none.
pub open spec fn extension_of(name: Seq<char>) -> Option<Seq<char>> {
    let k = last_index_of(name, '.');
    if k <= 0 || name == seq!['.', '.'] {
        None
    } else {
        Some(name.subrange(k + 1, name.len() as int))
    }
}

/// The extension of a file name.
pub fn extension(name: &str) -> (r: Option<&str>)
    ensures
        match r {
            Some(e) => extension_of(name@) == Some(e@),
            None => extension_of(name@).is_none(),
        },
{
    let n = name.unicode_len();
    proof {
        lemma_last_index_bounds(name@, '.');
        assert(name@.subrange(0, n as int) =~= name@);
    }
    if n == 2 && name.get_char(0) == '.' && name.get_char(1) == '.' {
        assert(name@ =~= seq!['.', '.']);
        return None;
    }
    match rfind_before(name, '.', n) {
        Some(k) => {
            if k == 0 {
                None
            } else {
                Some(name.substring_char(k + 1, n))
            }
        },
        None => None,
    }
}

/// A set of markers: file extensions (compared regardless of ASCII case),
/// exact file names, and names of direct subdirectories.
#[derive(Clone, Debug)]
pub struct FileProbe {
    pub extensions: Vec<String>,
    pub file_names: Vec<String>,
    pub folders: Vec<String>,
}

/// The markers of a probe, as text.
pub struct ProbeModel {
    pub extensions: Seq<Seq<char>>,
    pub file_names: Seq<Seq<char>>,
    pub folders: Seq<Seq<char>>,
}

impl View for FileProbe {
    type V = ProbeModel;

    open spec fn view(&self) -> ProbeModel {
        ProbeModel {
            extensions: texts(self.extensions@),
            file_names: texts(self.file_names@),
            folders: texts(self.folders@),
        }
    }
}

pub open spec fn listed_ignoring_case(list: Seq<Seq<char>>, x: Seq<char>) -> bool {
    exists|i: int| 0 <= i < list.len() && eq_ignoring_ascii_case(#[trigger] list[i], x)
}

pub open spec fn listed(list: Seq<Seq<char>>, x: Seq<char>) -> bool {
    exists|i: int| 0 <= i < list.len() && #[trigger] list[i] == x
}

/// An entry matches when its extension, its name, or (for a directory) its
/// folder name is among the probe's markers.
pub open spec fn entry_matches(p: ProbeModel, e: DirEntry) -> bool {
    (match extension_of(e.name@) {
        Some(x) => listed_ignoring_case(p.extensions, x),
        None => false,
    }) || listed(p.file_names, e.name@) || (e.is_dir && listed(p.folders, e.name@))
}

pub open spec fn probe_matches(p: ProbeModel, entries: Seq<DirEntry>) -> bool {
    exists|i: int| 0 <= i < entries.len() && entry_matches(p, #[trigger] entries[i])
}

pub open spec fn is_empty_probe(p: ProbeModel) -> bool {
    p.extensions.len() == 0 && p.file_names.len() == 0 && p.folders.len() == 0
}

/// A probe with no markers matches no listing.
pub proof fn empty_probe_matches_nothing(p: ProbeModel, entries: Seq<DirEntry>)
    requires
        is_empty_probe(p),
    ensures
        !probe_matches(p, entries),
{
}

fn contains_ignoring_case(list: &Vec<String>, x: &str) -> (r: bool)
    ensures
        r == listed_ignoring_case(texts(list@), x@),
{
    let mut i: usize = 0;
    while i < list.len()
        invariant
            i <= list@.len(),
            forall|j: int| 0 <= j < i ==> !eq_ignoring_ascii_case(#[trigger] texts(list@)[j], x@),
        decreases list@.len() - i,
    {
        if eq_ignore_ascii_case(list[i].as_str(), x) {
            assert(texts(list@)[i as int] == list@[i as int]@);
            return true;
        }
        i = i + 1;
    }
    false
}

fn contains(list: &Vec<String>, x: &str) -> (r: bool)
    ensures
        r == listed(texts(list@), x@),
{
    let mut i: usize = 0;
    while i < list.len()
        invariant
            i <= list@.len(),
            forall|j: int| 0 <= j < i ==> #[trigger] texts(list@)[j] != x@,
        decreases list@.len() - i,
    {
        if same_text(list[i].as_str(), x) {
            assert(texts(list@)[i as int] == list@[i as int]@);
            return true;
        }
        i = i + 1;
    }
    false
}

impl FileProbe {
    /// Whether one entry carries one of the markers.
    pub fn matches_entry(&self, e: &DirEntry) -> (r: bool)
        ensures
            r == entry_matches(self@, *e),
    {
        let by_extension = match extension(e.name.as_str()) {
            Some(x) => contains_ignoring_case(&self.extensions, x),
            None => false,
        };
        by_extension || contains(&self.file_names, e.name.as_str()) || (e.is_dir && contains(
            &self.folders,
            e.name.as_str(),
        ))
    }

    /// Whether any entry of the listing carries one of the markers.
    pub fn matches(&self, entries: &[DirEntry]) -> (r: bool)
        ensures
            r == probe_matches(self@, entries@),
    {
        let mut i: usize = 0;
        while i < entries.len()
            invariant
                i <= entries@.len(),
                forall|j: int| 0 <= j < i ==> !entry_matches(self@, #[trigger] entries@[j]),
            decreases entries@.len() - i,
        {
            if self.matches_entry(&entries[i]) {
                return true;
            }
            i = i + 1;
        }
        false
    }
}

} // verus!
