//! The Node.js module: shows the installed Node.js version in a directory
//! holding a `.js` file, a `package.json` file or a `node_modules` directory.

use vstd::prelude::*;
use crate::context::{Context, style_for, suffix_for};
use crate::module::{Module, Segment, lemma_segments_text_short, module_text};
use crate::probe::{DirEntry, extension, extension_of};
use crate::style::{Color, Style, painted};
use crate::text::{eq_ignore_ascii_case, eq_ignoring_ascii_case, same_text, trim, trimmed};

verus! {

pub const NODE_SYMBOL: &'static str = "⬢ ";

/// Whether an entry marks a Node.js project: a file with extension `js`
/// (regardless of ASCII case), a `package.json` file, or a `node_modules`
/// directory.
pub open spec fn is_js_marker(e: DirEntry) -> bool {
    (!e.is_dir && (extension_of(e.name@) matches Some(x) && eq_ignoring_ascii_case(x, "js"@))) || (
    e.is_dir && e.name@ == "node_modules"@) || (!e.is_dir && e.name@ == "package.json"@)
}

pub open spec fn is_js_project(entries: Seq<DirEntry>) -> bool {
    exists|i: int| 0 <= i < entries.len() && is_js_marker(#[trigger] entries[i])
}

/// The version in what `node --version` printed: the trimmed output; none
/// for blank output.
pub open spec fn node_version_of(stdout: Seq<char>) -> Option<Seq<char>> {
    if trimmed(stdout).len() == 0 {
        None
    } else {
        Some(trimmed(stdout))
    }
}

pub open spec fn node_style() -> Style {
    Style { foreground: Some(Color::Green), bold: false }
}

/// The module for a version: a symbol segment and a version segment, both in
/// the module's style (configured, else green), then the configured suffix.
pub open spec fn is_nodejs_module(ctx: Context, version: Seq<char>, m: Module) -> bool {
    &&& m.name@ == "nodejs"@
    &&& m.style == style_for(ctx.config_spec(), "nodejs"@, node_style())
    &&& m.suffix@ == suffix_for(ctx.config_spec(), "nodejs"@)
    &&& m.segments@.len() == 2
    &&& m.segments@[0].name@ == "symbol"@
    &&& m.segments@[0].value@ == NODE_SYMBOL@
    &&& m.segments@[0].style.is_none()
    &&& m.segments@[1].name@ == "version"@
    &&& m.segments@[1].value@ == version
    &&& m.segments@[1].style.is_none()
}

/// The text of the module for a version: symbol and version painted in the
/// module's style, then its suffix.
pub open spec fn nodejs_module_text(ctx: Context, version: Seq<char>) -> Seq<char> {
    let style = style_for(ctx.config_spec(), "nodejs"@, node_style());
    painted(style, NODE_SYMBOL@) + painted(style, version) + suffix_for(ctx.config_spec(), "nodejs"@)
}

/// Whether an entry marks a Node.js project.
pub fn has_js_files(dir_entry: &DirEntry) -> (r: bool)
    ensures
        r == is_js_marker(*dir_entry),
{
    let name = dir_entry.name.as_str();
    let is_js_file = !dir_entry.is_dir && match extension(name) {
        Some(e) => eq_ignore_ascii_case(e, "js"),
        None => false,
    };
    let is_node_modules = dir_entry.is_dir && same_text(name, "node_modules");
    let is_package_json = !dir_entry.is_dir && same_text(name, "package.json");
    is_js_file || is_node_modules || is_package_json
}

fn any_js_files(entries: &[DirEntry]) -> (r: bool)
    ensures
        r == is_js_project(entries@),
{
    let mut i: usize = 0;
    while i < entries.len()
        invariant
            i <= entries@.len(),
            forall|j: int| 0 <= j < i ==> !is_js_marker(#[trigger] entries@[j]),
        decreases entries@.len() - i,
    {
        if has_js_files(&entries[i]) {
            return true;
        }
        i = i + 1;
    }
    false
}

/// Whether the version query is to be run in this context.
pub fn needs_version(context: &Context) -> (r: bool)
    ensures
        r == is_js_project(context.dir_files_spec()),
{
    any_js_files(context.dir_files())
}

/// The segment for what `node --version` printed (`None` where it could not
/// run): the symbol and the version, in green; nothing outside a Node.js
/// project or for blank output.
pub fn segment(context: &Context, node_version: Option<String>) -> (r: Option<Segment>)
    ensures
        r.is_some() <==> is_js_project(context.dir_files_spec()) && (node_version matches Some(o)
            && node_version_of(o@) is Some),
        r matches Some(s) ==> s.name@ == "node"@ && s.style == Some(node_style()) && s.value@
            == NODE_SYMBOL@ + node_version_of(node_version->Some_0@)->Some_0,
{
    if !any_js_files(context.dir_files()) {
        return None;
    }
    let output = match node_version {
        Some(v) => v,
        None => return None,
    };
    let version = trim(output.as_str());
    if version.unicode_len() == 0 {
        return None;
    }
    let mut value = NODE_SYMBOL.to_owned();
    value.append(version);
    let mut seg = Segment::new("node");
    seg.set_style(Style::fg(Color::Green));
    seg.set_value(value);
    Some(seg)
}

/// The module for what `node --version` printed: a symbol segment, then a
/// version segment; nothing outside a Node.js project or for blank output.
pub fn module(context: &Context, node_version: Option<String>) -> (r: Option<Module>)
    ensures
        r.is_some() <==> is_js_project(context.dir_files_spec()) && (node_version matches Some(o)
            && node_version_of(o@) is Some),
        r matches Some(m) ==> is_nodejs_module(*context, node_version_of(node_version->Some_0@)->Some_0, m)
            && module_text(m) == nodejs_module_text(*context, node_version_of(node_version->Some_0@)->Some_0),
{
    if !any_js_files(context.dir_files()) {
        return None;
    }
    let output = match node_version {
        Some(v) => v,
        None => return None,
    };
    let version = trim(output.as_str());
    if version.unicode_len() == 0 {
        return None;
    }
    let mut m = context.new_module("nodejs", Style::fg(Color::Green));
    m.new_segment("symbol", NODE_SYMBOL);
    m.new_segment("version", version);
    proof {
        lemma_segments_text_short(m.style, m.segments@);
    }
    Some(m)
}

} // verus!
