//! The Go module: shows the installed Go version in a directory holding Go
//! sources or one of Go's project files.

use vstd::prelude::*;
use crate::context::{Context, style_for, suffix_for};
use crate::module::{Module, lemma_segments_text_short, module_text};
use crate::probe::{FileProbe, ProbeModel, probe_matches};
use crate::style::{Color, Style, painted};
use crate::text::{find_char, first_index_of, lemma_first_index_bounds, same_text, trim, trimmed};

verus! {

pub const GO_CHAR: &'static str = "🐹 ";

/// Go's markers: `.go` files, the project files of Go's package managers, and
/// a `Godeps` directory.
pub open spec fn go_markers() -> ProbeModel {
    ProbeModel {
        extensions: seq!["go"@],
        file_names: seq!["go.mod"@, "go.sum"@, "glide.yaml"@, "Gopkg.yml"@, "Gopkg.lock"@, ".go-version"@],
        folders: seq!["Godeps"@],
    }
}

/// The probe for Go's markers.
pub fn go_probe() -> (r: FileProbe)
    ensures
        r@ == go_markers(),
{
    let mut extensions: Vec<String> = Vec::new();
    extensions.push(String::from_str("go"));
    let mut file_names: Vec<String> = Vec::new();
    file_names.push(String::from_str("go.mod"));
    file_names.push(String::from_str("go.sum"));
    file_names.push(String::from_str("glide.yaml"));
    file_names.push(String::from_str("Gopkg.yml"));
    file_names.push(String::from_str("Gopkg.lock"));
    file_names.push(String::from_str(".go-version"));
    let mut folders: Vec<String> = Vec::new();
    folders.push(String::from_str("Godeps"));
    let r = FileProbe { extensions, file_names, folders };
    assert(r@.extensions =~= go_markers().extensions);
    assert(r@.file_names =~= go_markers().file_names);
    assert(r@.folders =~= go_markers().folders);
    r
}

/// The version in what `go version` printed (`go version go1.12.1 linux/amd64`):
/// `v` and the word after `go version go`; none for any other output.
pub open spec fn go_version_of(stdout: Seq<char>) -> Option<Seq<char>> {
    let t = trimmed(stdout);
    let n = "go version go"@.len() as int;
    if t.len() >= n && t.subrange(0, n) == "go version go"@ {
        let rest = t.subrange(n, t.len() as int);
        let end = if first_index_of(rest, ' ') < 0 {
            rest.len() as int
        } else {
            first_index_of(rest, ' ')
        };
        if end > 0 {
            Some(seq!['v'] + rest.subrange(0, end))
        } else {
            None
        }
    } else {
        None
    }
}

/// The version in what `go version` printed.
pub fn format_go_version(stdout: &str) -> (r: Option<String>)
    ensures
        match r {
            Some(v) => go_version_of(stdout@) == Some(v@),
            None => go_version_of(stdout@).is_none(),
        },
{
    let t = trim(stdout);
    let prefix = "go version go";
    let n = prefix.unicode_len();
    let len = t.unicode_len();
    if len < n {
        return None;
    }
    if !same_text(t.substring_char(0, n), prefix) {
        return None;
    }
    let rest = t.substring_char(n, len);
    let rest_len = rest.unicode_len();
    proof {
        lemma_first_index_bounds(rest@, ' ');
    }
    let end = match find_char(rest, ' ') {
        Some(i) => i,
        None => rest_len,
    };
    if end == 0 {
        return None;
    }
    let mut out = String::from_str("v");
    proof {
        reveal_strlit("v");
    }
    out.append(rest.substring_char(0, end));
    Some(out)
}

pub open spec fn go_style() -> Style {
    Style { foreground: Some(Color::Cyan), bold: true }
}

/// The text of the module for a version: symbol and version in the module's
/// style, then its suffix.
pub open spec fn golang_module_text(ctx: Context, version: Seq<char>) -> Seq<char> {
    let style = style_for(ctx.config_spec(), "golang"@, go_style());
    painted(style, GO_CHAR@) + painted(style, version) + suffix_for(ctx.config_spec(), "golang"@)
}

/// The module for a version: a symbol segment and a version segment, both in
/// the module's style (configured, else bold cyan), then the configured suffix.
pub open spec fn is_golang_module(ctx: Context, version: Seq<char>, m: Module) -> bool {
    &&& m.name@ == "golang"@
    &&& m.style == style_for(ctx.config_spec(), "golang"@, go_style())
    &&& m.suffix@ == suffix_for(ctx.config_spec(), "golang"@)
    &&& m.segments@.len() == 2
    &&& m.segments@[0].name@ == "symbol"@
    &&& m.segments@[0].value@ == GO_CHAR@
    &&& m.segments@[0].style.is_none()
    &&& m.segments@[1].name@ == "version"@
    &&& m.segments@[1].value@ == version
    &&& m.segments@[1].style.is_none()
}

/// Whether the version query is to be run in this context.
pub fn needs_version(context: &Context) -> (r: bool)
    ensures
        r == probe_matches(go_markers(), context.dir_files_spec()),
{
    go_probe().matches(context.dir_files())
}

/// The module for what `go version` printed (`None` where it could not run):
/// the symbol, then the version, in the configured style (bold cyan by
/// default); nothing outside a Go project or where no version could be read.
pub fn module(context: &Context, go_output: Option<String>) -> (r: Option<Module>)
    ensures
        r.is_some() <==> probe_matches(go_markers(), context.dir_files_spec()) && go_output.is_some()
            && go_version_of(go_output->Some_0@).is_some(),
        r matches Some(m) ==> is_golang_module(*context, go_version_of(go_output->Some_0@)->Some_0, m)
            && module_text(m) == golang_module_text(*context, go_version_of(go_output->Some_0@)->Some_0),
{
    if !needs_version(context) {
        return None;
    }
    let output = match go_output {
        Some(o) => o,
        None => return None,
    };
    let version = match format_go_version(output.as_str()) {
        Some(v) => v,
        None => return None,
    };
    let mut m = context.new_module("golang", Style::fg(Color::Cyan).bold());
    m.new_segment("symbol", GO_CHAR);
    m.new_segment("version", version.as_str());
    proof {
        lemma_segments_text_short(m.style, m.segments@);
    }
    Some(m)
}

} // verus!
