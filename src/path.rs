//! Slash-separated paths, and the upward search from a directory towards the root.

use vstd::prelude::*;
use crate::probe::{DirEntry, FileProbe, ProbeModel, probe_matches};
use crate::context::DirectoryLister;
use crate::text::{last_index_of, lemma_last_index_bounds, opt_string, opt_text, rfind_before, same_text, texts};

verus! {

/// `p` without trailing `/`; the root stays `/`.
pub open spec fn without_trailing_slashes(p: Seq<char>) -> Seq<char>
    decreases p.len(),
{
    if p.len() > 1 && p.last() == '/' {
        without_trailing_slashes(p.drop_last())
    } else {
        p
    }
}

/// The parent of a path without trailing `/`: what precedes its last `/`,
/// or `/` itself for an entry of the root; the root and a path without `/`
/// have none.
pub open spec fn parent_of_trimmed(q: Seq<char>) -> Option<Seq<char>> {
    let k = last_index_of(q, '/');
    if k < 0 || q == seq!['/'] {
        None
    } else if k == 0 {
        Some(seq!['/'])
    } else {
        Some(q.subrange(0, k))
    }
}

/// The directory that holds `p`, trailing `/` ignored.
pub open spec fn parent_of(p: Seq<char>) -> Option<Seq<char>> {
    parent_of_trimmed(without_trailing_slashes(p))
}

proof fn lemma_without_trailing_slashes_len(p: Seq<char>)
    ensures
        without_trailing_slashes(p).len() <= p.len(),
    decreases p.len(),
{
    if p.len() > 1 && p.last() == '/' {
        lemma_without_trailing_slashes_len(p.drop_last());
    }
}

/// `name` inside the directory `dir`.
pub open spec fn joined(dir: Seq<char>, name: Seq<char>) -> Seq<char> {
    if dir.len() > 0 && dir.last() == '/' {
        dir + name
    } else {
        dir + seq!['/'] + name
    }
}

pub proof fn lemma_parent_shorter(p: Seq<char>)
    ensures
        parent_of(p) matches Some(q) ==> q.len() < p.len(),
{
    let t = without_trailing_slashes(p);
    lemma_without_trailing_slashes_len(p);
    lemma_last_index_bounds(t, '/');
    if t.len() == 1 && last_index_of(t, '/') == 0 {
        assert(t =~= seq!['/']);
    }
}

/// The directories an upward search visits: `start`, then each parent in turn,
/// ending at the root or at `stop`, whichever comes first.
pub open spec fn upward_chain(start: Seq<char>, stop: Option<Seq<char>>) -> Seq<Seq<char>>
    decreases start.len(),
    via upward_chain_decreases
{
    if stop == Some(start) {
        seq![start]
    } else {
        match parent_of(start) {
            Some(p) => seq![start] + upward_chain(p, stop),
            None => seq![start],
        }
    }
}

#[via_fn]
proof fn upward_chain_decreases(start: Seq<char>, stop: Option<Seq<char>>) {
    lemma_parent_shorter(start);
}

/// The first of `dirs` whose listing (the entry of `listings` at the same
/// position) the probe matches.
pub open spec fn first_listed_match(
    dirs: Seq<Seq<char>>,
    listings: Seq<Seq<DirEntry>>,
    probe: ProbeModel,
) -> Option<Seq<char>>
    decreases dirs.len(),
{
    if dirs.len() == 0 || listings.len() == 0 {
        None
    } else if probe_matches(probe, listings[0]) {
        Some(dirs[0])
    } else {
        first_listed_match(
            dirs.subrange(1, dirs.len() as int),
            listings.subrange(1, listings.len() as int),
            probe,
        )
    }
}

pub open spec fn listings_view(listings: Seq<Vec<DirEntry>>) -> Seq<Seq<DirEntry>> {
    listings.map_values(|l: Vec<DirEntry>| l@)
}

/// The directory that holds `p`.
pub fn parent(p: &str) -> (r: Option<&str>)
    ensures
        match r {
            Some(q) => parent_of(p@) == Some(q@),
            None => parent_of(p@).is_none(),
        },
{
    let len = p.unicode_len();
    let mut e: usize = len;
    assert(p@.subrange(0, len as int) =~= p@);
    while e > 1 && p.get_char(e - 1) == '/'
        invariant
            len == p@.len(),
            e <= len,
            without_trailing_slashes(p@) == without_trailing_slashes(p@.subrange(0, e as int)),
        decreases e,
    {
        assert(p@.subrange(0, e as int).drop_last() =~= p@.subrange(0, e - 1));
        e = e - 1;
    }
    let p = p.substring_char(0, e);
    let n = e;
    assert(without_trailing_slashes(p@) == p@);
    assert(p@.subrange(0, n as int) =~= p@);
    if n == 1 && p.get_char(0) == '/' {
        assert(p@ =~= seq!['/']);
        return None;
    }
    proof {
        lemma_last_index_bounds(p@, '/');
    }
    match rfind_before(p, '/', n) {
        None => None,
        Some(k) => {
            if k == 0 {
                Some(p.substring_char(0, 1))
            } else {
                Some(p.substring_char(0, k))
            }
        },
    }
}

/// `name` inside the directory `dir`.
pub fn join(dir: &str, name: &str) -> (r: String)
    ensures
        r@ == joined(dir@, name@),
{
    let n = dir.unicode_len();
    let mut s = dir.to_owned();
    if !(n > 0 && dir.get_char(n - 1) == '/') {
        s.append("/");
        proof {
            reveal_strlit("/");
        }
    }
    s.append(name);
    s
}

/// One step of an upward search: where to look next.
#[derive(Debug)]
pub enum UpwardStep {
    /// The probe matched in this directory.
    Found(String),
    /// Look in this directory next.
    Next(String),
    /// The root or the stop directory was reached without a match.
    Exhausted,
}

pub open spec fn is_stop(stop: Option<&str>, dir: Seq<char>) -> bool {
    match stop {
        Some(s) => s@ == dir,
        None => false,
    }
}

/// Decides one step of an upward search, given the listing of `current`.
pub fn upward_step(current: &str, listing: &Vec<DirEntry>, probe: &FileProbe, stop: Option<&str>) -> (r: UpwardStep)
    ensures
        probe_matches(probe@, listing@) ==> (r matches UpwardStep::Found(d) && d@ == current@),
        !probe_matches(probe@, listing@) ==> match r {
            UpwardStep::Found(_) => false,
            UpwardStep::Next(d) => !is_stop(stop, current@) && parent_of(current@) == Some(d@),
            UpwardStep::Exhausted => is_stop(stop, current@) || parent_of(current@).is_none(),
        },
{
    if probe.matches(listing) {
        return UpwardStep::Found(current.to_owned());
    }
    let at_stop = match stop {
        Some(s) => same_text(s, current),
        None => false,
    };
    if at_stop {
        return UpwardStep::Exhausted;
    }
    match parent(current) {
        Some(p) => UpwardStep::Next(p.to_owned()),
        None => UpwardStep::Exhausted,
    }
}

/// A directory of the chain from `c` onward also lies on the chain from `s`
/// when `c` does.
pub proof fn lemma_chain_closed_under_parent(s: Seq<char>, c: Seq<char>, stop: Option<Seq<char>>)
    requires
        upward_chain(s, stop).contains(c),
        stop != Some(c),
        parent_of(c) is Some,
    ensures
        upward_chain(s, stop).contains(parent_of(c)->Some_0),
    decreases s.len(),
{
    lemma_parent_shorter(s);
    let chain = upward_chain(s, stop);
    if s == c {
        let p = parent_of(c)->Some_0;
        assert(chain == seq![s] + upward_chain(p, stop));
        assert(upward_chain(p, stop)[0] == p);
        assert(chain[1] == p);
    } else {
        if stop != Some(s) {
            match parent_of(s) {
                Some(q) => {
                    let rest = upward_chain(q, stop);
                    assert(chain == seq![s] + rest);
                    let k = choose|k: int| 0 <= k < chain.len() && chain[k] == c;
                    assert(k > 0);
                    assert(rest[k - 1] == c);
                    lemma_chain_closed_under_parent(q, c, stop);
                    let j = choose|j: int| 0 <= j < rest.len() && rest[j] == parent_of(c)->Some_0;
                    assert(chain[j + 1] == rest[j]);
                },
                None => {
                    assert(chain == seq![s]);
                },
            }
        } else {
            assert(chain == seq![s]);
        }
    }
}

/// The directories an upward search visits, in order.
pub fn upward_dirs(start: &str, stop: Option<&str>) -> (r: Vec<String>)
    ensures
        texts(r@) == upward_chain(start@, opt_text(stop)),
{
    let mut out: Vec<String> = Vec::new();
    let mut current = start.to_owned();
    loop
        invariant
            texts(out@) + upward_chain(current@, opt_text(stop)) == upward_chain(start@, opt_text(stop)),
        decreases current@.len(),
    {
        let ghost before = out@;
        let ghost chain = upward_chain(current@, opt_text(stop));
        let at_stop = match stop {
            Some(s) => same_text(s, current.as_str()),
            None => false,
        };
        proof {
            lemma_parent_shorter(current@);
        }
        let next = if at_stop {
            None
        } else {
            match parent(current.as_str()) {
                Some(p) => Some(p.to_owned()),
                None => None,
            }
        };
        out.push(current);
        assert(texts(out@) =~= texts(before).push(chain[0]));
        match next {
            Some(p) => {
                assert(chain =~= seq![chain[0]] + upward_chain(p@, opt_text(stop)));
                assert(texts(out@) + upward_chain(p@, opt_text(stop)) =~= texts(before) + chain);
                current = p;
            },
            None => {
                assert(chain =~= seq![chain[0]]);
                assert(texts(out@) =~= texts(before) + chain);
                return out;
            },
        }
    }
}

/// The first of `dirs` whose listing the probe matches, among the first
/// `listings.len()` of them.
pub fn first_match(dirs: &Vec<String>, listings: &Vec<Vec<DirEntry>>, probe: &FileProbe) -> (r: Option<String>)
    requires
        listings@.len() <= dirs@.len(),
    ensures
        opt_string(r) == first_listed_match(texts(dirs@), listings_view(listings@), probe@),
{
    let ghost ds = texts(dirs@);
    let ghost ls = listings_view(listings@);
    let mut i: usize = 0;
    assert(ds.subrange(0, ds.len() as int) =~= ds);
    assert(ls.subrange(0, ls.len() as int) =~= ls);
    while i < listings.len()
        invariant
            listings@.len() <= dirs@.len(),
            ds == texts(dirs@),
            ls == listings_view(listings@),
            i <= listings@.len(),
            first_listed_match(ds, ls, probe@) == first_listed_match(
                ds.subrange(i as int, ds.len() as int),
                ls.subrange(i as int, ls.len() as int),
                probe@,
            ),
        decreases listings@.len() - i,
    {
        let ghost rd = ds.subrange(i as int, ds.len() as int);
        let ghost rl = ls.subrange(i as int, ls.len() as int);
        assert(rd.subrange(1, rd.len() as int) =~= ds.subrange(i + 1, ds.len() as int));
        assert(rl.subrange(1, rl.len() as int) =~= ls.subrange(i + 1, ls.len() as int));
        assert(rd[0] == dirs@[i as int]@);
        assert(rl[0] == listings@[i as int]@);
        if probe.matches(listings[i].as_slice()) {
            return Some(dirs[i].clone());
        }
        i = i + 1;
    }
    assert(ls.len() == listings@.len());
    assert(ls.subrange(i as int, ls.len() as int).len() == 0);
    assert(first_listed_match(
        ds.subrange(i as int, ds.len() as int),
        ls.subrange(i as int, ls.len() as int),
        probe@,
    ) == None::<Seq<char>>);
    None
}

/// Searches `start` and then each parent, up to the root or to `stop`, for
/// the first directory whose listing the probe matches; a directory that
/// cannot be listed does not match.
pub fn find_upward<L: DirectoryLister>(lister: &mut L, start: &str, probe: &FileProbe, stop: Option<&str>) -> (r: Option<String>)
    ensures
        r matches Some(d) ==> upward_chain(start@, opt_text(stop)).contains(d@),
{
    let mut current = start.to_owned();
    assert(upward_chain(start@, opt_text(stop))[0] == start@);
    loop
        invariant
            upward_chain(start@, opt_text(stop)).contains(current@),
        decreases current@.len(),
    {
        let listing = match lister.list_dir(current.as_str()) {
            Some(l) => l,
            None => Vec::new(),
        };
        match upward_step(current.as_str(), &listing, probe, stop) {
            UpwardStep::Found(d) => {
                return Some(d);
            },
            UpwardStep::Next(p) => {
                proof {
                    lemma_parent_shorter(current@);
                    lemma_chain_closed_under_parent(start@, current@, opt_text(stop));
                }
                current = p;
            },
            UpwardStep::Exhausted => {
                return None;
            },
        }
    }
}

/// Where no listed directory matches, nothing is found: outside any
/// repository, locating one gives none.
pub proof fn upward_search_without_match(dirs: Seq<Seq<char>>, listings: Seq<Seq<DirEntry>>, probe: ProbeModel)
    requires
        forall|k: int| 0 <= k < listings.len() ==> !probe_matches(probe, #[trigger] listings[k]),
    ensures
        first_listed_match(dirs, listings, probe).is_none(),
    decreases dirs.len(),
{
    if dirs.len() > 0 && listings.len() > 0 {
        let rest = listings.subrange(1, listings.len() as int);
        assert forall|k: int| 0 <= k < rest.len() implies !probe_matches(probe, #[trigger] rest[k]) by {
            assert(rest[k] == listings[k + 1]);
        }
        upward_search_without_match(dirs.subrange(1, dirs.len() as int), rest, probe);
    }
}

/// The nearest matching directory is found, however far up it stands: from
/// deep inside a repository, locating one gives its root.
pub proof fn upward_search_finds_nearest(
    dirs: Seq<Seq<char>>,
    listings: Seq<Seq<DirEntry>>,
    probe: ProbeModel,
    j: int,
)
    requires
        dirs.len() == listings.len(),
        0 <= j < dirs.len(),
        probe_matches(probe, listings[j]),
        forall|k: int| 0 <= k < j ==> !probe_matches(probe, #[trigger] listings[k]),
    ensures
        first_listed_match(dirs, listings, probe) == Some(dirs[j]),
    decreases j,
{
    if j > 0 {
        let rd = dirs.subrange(1, dirs.len() as int);
        let rl = listings.subrange(1, listings.len() as int);
        assert(!probe_matches(probe, listings[0]));
        assert forall|k: int| 0 <= k < j - 1 implies !probe_matches(probe, #[trigger] rl[k]) by {
            assert(rl[k] == listings[k + 1]);
        }
        assert(rl[j - 1] == listings[j]);
        assert(rd[j - 1] == dirs[j]);
        upward_search_finds_nearest(rd, rl, probe, j - 1);
    }
}

/// Listing beyond the first match changes nothing: the result from the
/// first `n` listings, where one of them matches, is the result from all.
pub proof fn upward_search_stops_at_first_match(
    dirs: Seq<Seq<char>>,
    listings: Seq<Seq<DirEntry>>,
    probe: ProbeModel,
    n: int,
)
    requires
        0 <= n <= listings.len(),
        first_listed_match(dirs, listings.subrange(0, n), probe) is Some,
    ensures
        first_listed_match(dirs, listings.subrange(0, n), probe) == first_listed_match(dirs, listings, probe),
    decreases n,
{
    let pre = listings.subrange(0, n);
    if dirs.len() > 0 && n > 0 {
        assert(pre[0] == listings[0]);
        if !probe_matches(probe, listings[0]) {
            let rl = listings.subrange(1, listings.len() as int);
            assert(pre.subrange(1, pre.len() as int) =~= rl.subrange(0, n - 1));
            upward_search_stops_at_first_match(dirs.subrange(1, dirs.len() as int), rl, probe, n - 1);
        }
    }
}

} // verus!
