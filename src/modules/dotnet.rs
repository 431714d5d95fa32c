//! The .NET module: shows the pinned or the latest installed SDK version.
//!
//! It shows in a directory holding a `global.json`, a `project.json`, or a
//! file with extension `.sln`, `.csproj`, `.fsproj` or `.xproj`. The version
//! is resolved step by step (see `Resolver`): the caller reads the files and
//! runs the commands that each step asks for.

use vstd::prelude::*;
use crate::context::{Context, flag_for, style_for, suffix_for};
use crate::json::{Version, get_pinned_sdk_version, pinned_version_of_text};
use crate::module::{Module, lemma_segments_text_short, module_text};
use crate::path::{join, joined, parent, parent_of};
use crate::probe::{DirEntry, extension, extension_of};
use crate::style::{Color, Style, painted};
use crate::text::{
    eq_ignore_ascii_case, eq_ignoring_ascii_case, find_char, first_index_of, last_filled_line,
    last_nonblank_line, opt_text, same_text, trim, trimmed, utf8_len, utf8_width, is_single_byte,
    spans_several_bytes, texts,
};

verus! {

pub const DOTNET_SYMBOL: &'static str = "•NET ";

/// The kinds of file that mark a .NET directory.
#[derive(Clone, Copy, Debug, PartialEq, Eq, Structural)]
pub enum FileType {
    ProjectJson,
    ProjectFile,
    GlobalJson,
    SolutionFile,
}

/// A marker file of the working directory, by name.
#[derive(Clone, Debug)]
pub struct DotNetFile {
    pub name: String,
    pub file_type: FileType,
}

/// The kind of a file name: `global.json` and `project.json` by name, the
/// others by extension, all regardless of ASCII case.
pub open spec fn dotnet_file_type(name: Seq<char>) -> Option<FileType> {
    if eq_ignoring_ascii_case(name, "global.json"@) {
        Some(FileType::GlobalJson)
    } else if eq_ignoring_ascii_case(name, "project.json"@) {
        Some(FileType::ProjectJson)
    } else {
        match extension_of(name) {
            Some(e) => if eq_ignoring_ascii_case(e, "sln"@) {
                Some(FileType::SolutionFile)
            } else if eq_ignoring_ascii_case(e, "csproj"@) || eq_ignoring_ascii_case(e, "fsproj"@)
                || eq_ignoring_ascii_case(e, "xproj"@) {
                Some(FileType::ProjectFile)
            } else {
                None
            },
            None => None,
        }
    }
}

/// The marker files of a listing, in listing order, with their kinds.
pub open spec fn dotnet_files_of(entries: Seq<DirEntry>) -> Seq<(Seq<char>, FileType)>
    decreases entries.len(),
{
    if entries.len() == 0 {
        Seq::empty()
    } else {
        let before = dotnet_files_of(entries.drop_last());
        match dotnet_file_type(entries.last().name@) {
            Some(t) => before.push((entries.last().name@, t)),
            None => before,
        }
    }
}

pub open spec fn files_view(files: Seq<DotNetFile>) -> Seq<(Seq<char>, FileType)> {
    files.map_values(|f: DotNetFile| (f.name@, f.file_type))
}

/// The first file of the given kind.
pub open spec fn first_of_type(files: Seq<(Seq<char>, FileType)>, t: FileType) -> Option<(Seq<char>, FileType)>
    decreases files.len(),
{
    if files.len() == 0 {
        None
    } else if files[0].1 == t {
        Some(files[0])
    } else {
        first_of_type(files.subrange(1, files.len() as int), t)
    }
}

/// The file that decides how the version is found: a `global.json` first,
/// then a solution file, else the first marker file.
pub open spec fn relevant_file(files: Seq<(Seq<char>, FileType)>) -> Option<(Seq<char>, FileType)> {
    match first_of_type(files, FileType::GlobalJson) {
        Some(f) => Some(f),
        None => match first_of_type(files, FileType::SolutionFile) {
            Some(f) => Some(f),
            None => if files.len() > 0 {
                Some(files[0])
            } else {
                None
            },
        },
    }
}

/// The directories searched for a `global.json` above a project file: the
/// parent of the working directory, then the repository root, once if equal.
pub open spec fn search_dirs(parent: Option<Seq<char>>, repo: Option<Seq<char>>) -> Seq<Seq<char>> {
    match (parent, repo) {
        (Some(p), Some(r)) => if p == r {
            seq![p]
        } else {
            seq![p, r]
        },
        (Some(p), None) => seq![p],
        (None, Some(r)) => seq![r],
        (None, None) => Seq::empty(),
    }
}

/// The pin files to read, in order, before asking the toolchain; `None` when
/// there is no marker file.
pub open spec fn pin_candidates(
    files: Seq<(Seq<char>, FileType)>,
    current_dir: Seq<char>,
    repo_root: Option<Seq<char>>,
) -> Option<Seq<Seq<char>>> {
    match relevant_file(files) {
        None => None,
        Some(f) => Some(
            match f.1 {
                FileType::GlobalJson => seq![joined(current_dir, f.0)],
                FileType::SolutionFile => Seq::empty(),
                _ => search_dirs(parent_of(current_dir), repo_root).map_values(
                    |d: Seq<char>| joined(d, "global.json"@),
                ),
            },
        ),
    }
}

/// The kind of a marker file, by its name.
pub fn get_dotnet_file_type(name: &str) -> (r: Option<FileType>)
    ensures
        r == dotnet_file_type(name@),
{
    if eq_ignore_ascii_case(name, "global.json") {
        return Some(FileType::GlobalJson);
    }
    if eq_ignore_ascii_case(name, "project.json") {
        return Some(FileType::ProjectJson);
    }
    match extension(name) {
        Some(e) => {
            if eq_ignore_ascii_case(e, "sln") {
                Some(FileType::SolutionFile)
            } else if eq_ignore_ascii_case(e, "csproj") || eq_ignore_ascii_case(e, "fsproj")
                || eq_ignore_ascii_case(e, "xproj") {
                Some(FileType::ProjectFile)
            } else {
                None
            }
        },
        None => None,
    }
}

/// The marker files of the working directory's listing, in listing order.
pub fn get_local_dotnet_files(context: &Context) -> (r: Vec<DotNetFile>)
    ensures
        files_view(r@) == dotnet_files_of(context.dir_files_spec()),
{
    let entries = context.dir_files();
    let mut files: Vec<DotNetFile> = Vec::new();
    let mut i: usize = 0;
    while i < entries.len()
        invariant
            entries@ == context.dir_files_spec(),
            i <= entries@.len(),
            files_view(files@) == dotnet_files_of(entries@.subrange(0, i as int)),
        decreases entries@.len() - i,
    {
        let ghost before = files@;
        let name = entries[i].name.as_str();
        assert(entries@.subrange(0, i + 1).drop_last() =~= entries@.subrange(0, i as int));
        match get_dotnet_file_type(name) {
            Some(t) => {
                files.push(DotNetFile { name: name.to_owned(), file_type: t });
                assert(files_view(files@) =~= files_view(before).push((name@, t)));
            },
            None => {},
        }
        i = i + 1;
    }
    assert(entries@.subrange(0, i as int) =~= entries@);
    files
}

fn first_index_of_type(files: &Vec<DotNetFile>, t: FileType) -> (r: Option<usize>)
    ensures
        match r {
            Some(i) => i < files@.len() && first_of_type(files_view(files@), t) == Some(
                files_view(files@)[i as int],
            ),
            None => first_of_type(files_view(files@), t).is_none(),
        },
{
    let ghost all = files_view(files@);
    let mut i: usize = 0;
    assert(all.subrange(0, all.len() as int) =~= all);
    while i < files.len()
        invariant
            all == files_view(files@),
            i <= files@.len(),
            first_of_type(all, t) == first_of_type(all.subrange(i as int, all.len() as int), t),
        decreases files@.len() - i,
    {
        let ghost rest = all.subrange(i as int, all.len() as int);
        assert(rest.subrange(1, rest.len() as int) =~= all.subrange(i + 1, all.len() as int));
        assert(rest[0] == all[i as int]);
        if files[i].file_type == t {
            return Some(i);
        }
        i = i + 1;
    }
    None
}

/// Where the working directory holds a `global.json`, that file is the only
/// pin file read before the toolchain, whatever else the directory holds; so
/// a version it pins is the version resolved.
pub proof fn global_json_is_read_first(
    files: Seq<(Seq<char>, FileType)>,
    current_dir: Seq<char>,
    repo_root: Option<Seq<char>>,
)
    requires
        first_of_type(files, FileType::GlobalJson) is Some,
    ensures
        pin_candidates(files, current_dir, repo_root) == Some(
            seq![joined(current_dir, first_of_type(files, FileType::GlobalJson)->Some_0.0)],
        ),
{
    lemma_first_of_type_has_type(files, FileType::GlobalJson);
}

proof fn lemma_first_of_type_has_type(files: Seq<(Seq<char>, FileType)>, t: FileType)
    ensures
        first_of_type(files, t) matches Some(f) ==> f.1 == t,
    decreases files.len(),
{
    if files.len() > 0 && files[0].1 != t {
        lemma_first_of_type_has_type(files.subrange(1, files.len() as int), t);
    }
}

/// The pin file of a directory.
pub fn check_directory_for_global_json(dir: &str) -> (r: String)
    ensures
        r@ == joined(dir@, "global.json"@),
{
    join(dir, "global.json")
}

/// The pin files to read, in order, before asking the toolchain: the
/// `global.json` of the working directory where there is one; none for a
/// solution file; else those of the parent directory and of the repository root.
pub fn estimate_dotnet_version(files: &Vec<DotNetFile>, current_dir: &str, repo_root: Option<&str>) -> (r: Option<Vec<String>>)
    ensures
        match r {
            Some(c) => pin_candidates(files_view(files@), current_dir@, opt_text(repo_root))
                == Some(c@.map_values(|s: String| s@)),
            None => pin_candidates(files_view(files@), current_dir@, opt_text(repo_root)).is_none(),
        },
{
    let ghost all = files_view(files@);
    let relevant: usize = match first_index_of_type(files, FileType::GlobalJson) {
        Some(i) => i,
        None => match first_index_of_type(files, FileType::SolutionFile) {
            Some(i) => i,
            None => {
                if files.len() == 0 {
                    return None;
                }
                0
            },
        },
    };
    assert(relevant_file(all) == Some(all[relevant as int]));
    let file = &files[relevant];
    let mut out: Vec<String> = Vec::new();
    match file.file_type {
        FileType::GlobalJson => {
            out.push(join(current_dir, file.name.as_str()));
            assert(out@.map_values(|s: String| s@) =~= seq![joined(current_dir@, file.name@)]);
        },
        FileType::SolutionFile => {
            assert(out@.map_values(|s: String| s@) =~= Seq::<Seq<char>>::empty());
        },
        _ => {
            let p = parent(current_dir);
            let ghost dirs = search_dirs(parent_of(current_dir@), opt_text(repo_root));
            match p {
                Some(p) => {
                    out.push(check_directory_for_global_json(p));
                },
                None => {},
            }
            match repo_root {
                Some(root) => {
                    let same = match p {
                        Some(p) => same_text(p, root),
                        None => false,
                    };
                    if !same {
                        out.push(check_directory_for_global_json(root));
                    }
                },
                None => {},
            }
            assert(out@.map_values(|s: String| s@) =~= dirs.map_values(
                |d: Seq<char>| joined(d, "global.json"@),
            ));
        },
    }
    Some(out)
}

/// The version pinned by a pin file's content; `None` for a file that was
/// absent or unreadable.
pub fn get_pinned_sdk_version_from_file(content: Option<String>) -> (r: Option<Version>)
    ensures
        match content {
            Some(text) => match r {
                Some(v) => pinned_version_of_text(text@) == Some(v.0@),
                None => pinned_version_of_text(text@).is_none(),
            },
            None => r.is_none(),
        },
{
    match content {
        Some(text) => get_pinned_sdk_version(text.as_str()),
        None => None,
    }
}

/// The version that `dotnet --version` printed: `v` and the trimmed output;
/// none for blank output.
pub open spec fn version_from_output(stdout: Seq<char>) -> Option<Seq<char>> {
    if trimmed(stdout).len() == 0 {
        None
    } else {
        Some(seq!['v'] + trimmed(stdout))
    }
}

/// The newest SDK of what `dotnet --list-sdks` printed: the last line that is
/// not blank reads `<version> [<path>]`. The version is what stands before the
/// character ahead of the first `[`, with `v` in front; that character must
/// take a single byte, and the version more than one byte. Any other line
/// gives none.
pub open spec fn latest_sdk_from_list(stdout: Seq<char>) -> Option<Seq<char>> {
    match last_filled_line(stdout) {
        Some(line) => {
            let b = first_index_of(line, '[');
            if b >= 1 && utf8_width(line[b - 1]) == 1 && utf8_len(line.subrange(0, b - 1)) > 1 {
                Some(seq!['v'] + line.subrange(0, b - 1))
            } else {
                None
            }
        },
        None => None,
    }
}

/// A version that comes from the toolchain starts with `v`.
pub proof fn toolchain_versions_start_with_v(stdout: Seq<char>)
    ensures
        version_from_output(stdout) matches Some(v) ==> v.len() > 0 && v[0] == 'v',
        latest_sdk_from_list(stdout) matches Some(v) ==> v.len() > 0 && v[0] == 'v',
{
}

fn prefixed_v(s: &str) -> (r: String)
    ensures
        r@ == seq!['v'] + s@,
{
    let mut out = String::from_str("v");
    proof {
        reveal_strlit("v");
    }
    out.append(s);
    out
}

/// The version in the output of `dotnet --version`.
pub fn get_version_from_cli(stdout: &str) -> (r: Option<Version>)
    ensures
        opt_version(r) == version_from_output(stdout@),
{
    let t = trim(stdout);
    if t.unicode_len() == 0 {
        None
    } else {
        Some(Version(prefixed_v(t)))
    }
}

/// The newest SDK in the output of `dotnet --list-sdks`.
pub fn get_latest_sdk_from_cli(stdout: &str) -> (r: Option<Version>)
    ensures
        match r {
            Some(v) => latest_sdk_from_list(stdout@) == Some(v.0@),
            None => latest_sdk_from_list(stdout@).is_none(),
        },
{
    let line = match last_nonblank_line(stdout) {
        Some(l) => l,
        None => return None,
    };
    proof {
        crate::text::lemma_first_index_bounds(line@, '[');
    }
    let b = match find_char(line, '[') {
        Some(b) => b,
        None => return None,
    };
    if b == 0 || !is_single_byte(line.get_char(b - 1)) {
        return None;
    }
    let version = line.substring_char(0, b - 1);
    if !spans_several_bytes(version) {
        return None;
    }
    let v = prefixed_v(version);
    assert(last_filled_line(stdout@) == Some(line@));
    Some(Version(v))
}

/// What a finished command printed, and whether it succeeded.
#[derive(Clone, Debug)]
pub struct CommandOutput {
    pub success: bool,
    pub stdout: String,
}

/// Where a version resolution stands.
#[derive(Clone, Copy, Debug, PartialEq, Eq, Structural)]
pub enum Stage {
    /// The pin file with this index among the candidates is to be read.
    Pin(usize),
    /// `dotnet --list-sdks` is to be run.
    ListSdks,
    /// `dotnet --version` is to be run.
    QueryVersion,
    /// Resolution has ended.
    Done,
}

/// The outside work that a resolution asks for next.
#[derive(Debug)]
pub enum Action {
    ReadFile(String),
    ListSdks,
    QueryVersion,
    Finished,
}

/// The resolution of the SDK version: pin files in order, then the list of
/// installed SDKs, then, where that command fails, the plain version query.
#[derive(Debug)]
pub struct Resolver {
    pub candidates: Vec<String>,
    pub stage: Stage,
    pub version: Option<Version>,
}

pub open spec fn opt_version(v: Option<Version>) -> Option<Seq<char>> {
    match v {
        Some(v) => Some(v.0@),
        None => None,
    }
}

impl Resolver {
    pub open spec fn wf(&self) -> bool {
        match self.stage {
            Stage::Pin(i) => i < self.candidates@.len() && self.version.is_none(),
            Stage::Done => true,
            _ => self.version.is_none(),
        }
    }

    /// A resolution that reads the given pin files before asking the toolchain.
    pub fn with_candidates(candidates: Vec<String>) -> (r: Resolver)
        ensures
            r.wf(),
            r.candidates@ == candidates@,
            r.stage == (if candidates@.len() > 0 { Stage::Pin(0) } else { Stage::ListSdks }),
    {
        let stage = if candidates.len() > 0 {
            Stage::Pin(0)
        } else {
            Stage::ListSdks
        };
        Resolver { candidates, stage, version: None }
    }

    /// A resolution that only runs `dotnet --version`.
    pub fn version_query_only() -> (r: Resolver)
        ensures
            r.wf(),
            r.candidates@.len() == 0,
            r.stage == Stage::QueryVersion,
    {
        Resolver { candidates: Vec::new(), stage: Stage::QueryVersion, version: None }
    }

    /// The outside work to do next.
    pub fn next_action(&self) -> (r: Action)
        requires
            self.wf(),
        ensures
            match self.stage {
                Stage::Pin(i) => r matches Action::ReadFile(p) && p@ == self.candidates@[i as int]@,
                Stage::ListSdks => r matches Action::ListSdks,
                Stage::QueryVersion => r matches Action::QueryVersion,
                Stage::Done => r matches Action::Finished,
            },
    {
        match self.stage {
            Stage::Pin(i) => Action::ReadFile(self.candidates[i].as_str().to_owned()),
            Stage::ListSdks => Action::ListSdks,
            Stage::QueryVersion => Action::QueryVersion,
            Stage::Done => Action::Finished,
        }
    }

    /// Takes the content of the pin file asked for (`None` where it is absent
    /// or unreadable): a pinned version ends the resolution; else the next
    /// candidate, or the list of installed SDKs, comes next.
    pub fn on_pin_file(&mut self, content: Option<String>)
        requires
            old(self).wf(),
            old(self).stage matches Stage::Pin(_),
        ensures
            final(self).wf(),
            final(self).candidates == old(self).candidates,
            ({
                let i = old(self).stage->Pin_0;
                let pinned = match content {
                    Some(t) => pinned_version_of_text(t@),
                    None => None,
                };
                match pinned {
                    Some(v) => final(self).stage == Stage::Done && opt_version(final(self).version)
                        == Some(v),
                    None => final(self).version.is_none() && final(self).stage == (if i + 1
                        < old(self).candidates@.len() {
                        Stage::Pin((i + 1) as usize)
                    } else {
                        Stage::ListSdks
                    }),
                }
            }),
    {
        let i = match self.stage {
            Stage::Pin(i) => i,
            _ => 0,
        };
        match get_pinned_sdk_version_from_file(content) {
            Some(v) => {
                self.version = Some(v);
                self.stage = Stage::Done;
            },
            None => {
                if i < self.candidates.len() - 1 {
                    self.stage = Stage::Pin(i + 1);
                } else {
                    self.stage = Stage::ListSdks;
                }
            },
        }
    }

    /// Takes the outcome of `dotnet --list-sdks` (`None` where it could not
    /// run): success ends the resolution with the newest SDK listed; failure,
    /// as from a toolchain that lacks the command, leads to the version query.
    pub fn on_list_sdks(&mut self, output: Option<CommandOutput>)
        requires
            old(self).wf(),
            old(self).stage == Stage::ListSdks,
        ensures
            final(self).wf(),
            final(self).candidates == old(self).candidates,
            match output {
                None => final(self).stage == Stage::Done && final(self).version.is_none(),
                Some(o) => if o.success {
                    final(self).stage == Stage::Done && opt_version(final(self).version)
                        == latest_sdk_from_list(o.stdout@)
                } else {
                    final(self).stage == Stage::QueryVersion && final(self).version.is_none()
                },
            },
    {
        match output {
            None => {
                self.stage = Stage::Done;
            },
            Some(o) => {
                if o.success {
                    self.version = get_latest_sdk_from_cli(o.stdout.as_str());
                    self.stage = Stage::Done;
                } else {
                    self.stage = Stage::QueryVersion;
                }
            },
        }
    }

    /// Takes what `dotnet --version` printed (`None` where it could not run)
    /// and ends the resolution; blank output gives no version.
    pub fn on_version(&mut self, stdout: Option<String>)
        requires
            old(self).wf(),
            old(self).stage == Stage::QueryVersion,
        ensures
            final(self).wf(),
            final(self).candidates == old(self).candidates,
            final(self).stage == Stage::Done,
            opt_version(final(self).version) == match stdout {
                Some(s) => version_from_output(s@),
                None => None,
            },
    {
        match stdout {
            Some(s) => {
                self.version = get_version_from_cli(s.as_str());
            },
            None => {},
        }
        self.stage = Stage::Done;
    }

    /// The resolved version, once resolution has ended.
    pub fn into_version(self) -> (r: Option<Version>)
        ensures
            r == self.version,
    {
        self.version
    }
}

/// Whether version pinning by files is on for the module (the default).
pub open spec fn heuristic_enabled(ctx: Context) -> bool {
    flag_for(ctx.config_spec(), "dotnet"@, "heuristic"@) != Some(false)
}

/// The resolution planned for a context: with pinning on, the pin files of
/// `pin_candidates` in order, starting with the first of them (or with the
/// list of installed SDKs where there is none); with pinning off, only the
/// version query.
pub open spec fn is_plan_for(ctx: Context, res: Resolver) -> bool {
    &&& res.wf()
    &&& res.version.is_none()
    &&& if heuristic_enabled(ctx) {
        pin_candidates(dotnet_files_of(ctx.dir_files_spec()), ctx.dir(), ctx.repo_root_spec()) == Some(
            texts(res.candidates@),
        ) && res.stage == (if res.candidates@.len() > 0 {
            Stage::Pin(0)
        } else {
            Stage::ListSdks
        })
    } else {
        res.stage == Stage::QueryVersion
    }
}

/// How the version is to be resolved in this context; `None` when the working
/// directory holds no marker file, so that nothing is read or run.
pub fn plan(context: &Context) -> (r: Option<Resolver>)
    ensures
        dotnet_files_of(context.dir_files_spec()).len() == 0 <==> r.is_none(),
        r matches Some(res) ==> is_plan_for(*context, res),
{
    let files = get_local_dotnet_files(context);
    if files.len() == 0 {
        return None;
    }
    let heuristic = match context.config().config_value_bool("dotnet", "heuristic") {
        Some(b) => b,
        None => true,
    };
    if heuristic {
        match estimate_dotnet_version(&files, context.current_dir(), context.repo_root()) {
            Some(c) => Some(Resolver::with_candidates(c)),
            None => None,
        }
    } else {
        Some(Resolver::version_query_only())
    }
}

/// The default style of the module.
pub open spec fn dotnet_style() -> Style {
    Style { foreground: Some(Color::Blue), bold: true }
}

/// The text of the module for a version: symbol and version in the module's
/// style, then its suffix.
pub open spec fn dotnet_module_text(ctx: Context, version: Seq<char>) -> Seq<char> {
    let style = style_for(ctx.config_spec(), "dotnet"@, dotnet_style());
    painted(style, DOTNET_SYMBOL@) + painted(style, version) + suffix_for(ctx.config_spec(), "dotnet"@)
}

/// The module for a version: a symbol segment and a version segment, both in
/// the module's style (configured, else bold blue), then the configured suffix.
pub open spec fn is_dotnet_module(ctx: Context, version: Seq<char>, m: Module) -> bool {
    &&& m.name@ == "dotnet"@
    &&& m.style == style_for(ctx.config_spec(), "dotnet"@, dotnet_style())
    &&& m.suffix@ == suffix_for(ctx.config_spec(), "dotnet"@)
    &&& m.segments@.len() == 2
    &&& m.segments@[0].name@ == "symbol"@
    &&& m.segments@[0].value@ == DOTNET_SYMBOL@
    &&& m.segments@[0].style.is_none()
    &&& m.segments@[1].name@ == "version"@
    &&& m.segments@[1].value@ == version
    &&& m.segments@[1].style.is_none()
}

/// The module shown for a resolved version: the symbol, then the version, in
/// the configured style (bold blue by default); nothing where the directory
/// holds no marker file or no version was resolved.
pub fn module(context: &Context, version: Option<Version>) -> (r: Option<Module>)
    ensures
        r.is_some() <==> dotnet_files_of(context.dir_files_spec()).len() > 0 && version.is_some(),
        r matches Some(m) ==> is_dotnet_module(*context, version->Some_0.0@, m) && module_text(m)
            == dotnet_module_text(*context, version->Some_0.0@),
{
    let files = get_local_dotnet_files(context);
    if files.len() == 0 {
        return None;
    }
    let version = match version {
        Some(v) => v,
        None => return None,
    };
    let mut m = context.new_module("dotnet", Style::fg(Color::Blue).bold());
    m.new_segment("symbol", DOTNET_SYMBOL);
    m.new_segment("version", version.as_str());
    proof {
        lemma_segments_text_short(m.style, m.segments@);
    }
    Some(m)
}

} // verus!
