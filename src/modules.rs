//! The prompt's modules, and the choice of a module by its name.

pub mod directory;
pub mod dotnet;
pub mod golang;
pub mod nodejs;

use vstd::prelude::*;
use crate::context::Context;
use crate::json::Version;
use crate::module::{Module, lemma_segments_text_short, module_text};
use crate::style::{Style, painted};
use crate::text::same_text;
use self::dotnet::{Resolver, dotnet_files_of, dotnet_module_text, is_dotnet_module, is_plan_for};
use self::directory::{directory_module_text, is_directory_module};
use self::golang::{go_markers, go_version_of, golang_module_text, is_golang_module};
use self::nodejs::{is_js_project, is_nodejs_module, node_version_of, nodejs_module_text};
use crate::probe::probe_matches;

verus! {

/// Whether `name` is one of the modules of this library.
pub open spec fn is_known_module(name: Seq<char>) -> bool {
    name == "directory"@ || name == "dotnet"@ || name == "golang"@ || name == "nodejs"@ || name
        == "line_break"@
}

/// Whether `name` is one of the modules of this library.
pub fn is_known(name: &str) -> (r: bool)
    ensures
        r == is_known_module(name@),
{
    same_text(name, "directory") || same_text(name, "dotnet") || same_text(name, "golang") || same_text(
        name,
        "nodejs",
    ) || same_text(name, "line_break")
}

/// Whether the module reads the repository root, which is then to be located
/// before it is evaluated.
pub fn uses_repository(name: &str) -> (r: bool)
    ensures
        r == (name@ == "dotnet"@),
{
    same_text(name, "dotnet")
}

/// The module names are distinct.
proof fn lemma_names_distinct()
    ensures
        "directory"@ != "dotnet"@,
        "directory"@ != "golang"@,
        "directory"@ != "nodejs"@,
        "directory"@ != "line_break"@,
        "dotnet"@ != "golang"@,
        "dotnet"@ != "nodejs"@,
        "dotnet"@ != "line_break"@,
        "golang"@ != "nodejs"@,
        "golang"@ != "line_break"@,
        "nodejs"@ != "line_break"@,
{
    reveal_strlit("directory");
    reveal_strlit("dotnet");
    reveal_strlit("golang");
    reveal_strlit("nodejs");
    reveal_strlit("line_break");
    assert("directory"@.len() != "dotnet"@.len());
    assert("directory"@.len() != "golang"@.len());
    assert("directory"@.len() != "nodejs"@.len());
    assert("directory"@.len() != "line_break"@.len());
    assert("dotnet"@[0] != "golang"@[0]);
    assert("dotnet"@[0] != "nodejs"@[0]);
    assert("dotnet"@.len() != "line_break"@.len());
    assert("golang"@[0] != "nodejs"@[0]);
    assert("golang"@.len() != "line_break"@.len());
    assert("nodejs"@.len() != "line_break"@.len());
}

/// The outside work a module needs before it can be rendered.
#[derive(Debug)]
pub enum Need {
    /// Nothing: the module renders from the context alone.
    Nothing,
    /// The output of `node --version`.
    NodeVersion,
    /// The output of `go version`.
    GoVersion,
    /// The SDK version, found by following the resolver.
    DotnetVersion(Resolver),
}

/// The text of the line break: a newline and no suffix.
pub open spec fn line_break_text() -> Seq<char> {
    seq!['\n']
}

/// The line break: one unstyled segment holding a newline, and no suffix.
pub open spec fn is_line_break_module(m: Module) -> bool {
    &&& m.name@ == "line_break"@
    &&& m.style == Style::plain_spec()
    &&& m.suffix@.len() == 0
    &&& m.segments@.len() == 1
    &&& m.segments@[0].name@ == "character"@
    &&& m.segments@[0].value@ == seq!['\n']
    &&& m.segments@[0].style.is_none()
}

/// The module that starts a new line of the prompt.
pub fn line_break() -> (r: Module)
    ensures
        is_line_break_module(r),
        module_text(r) == line_break_text(),
{
    let mut m = Module::new("line_break", Style::plain(), "");
    m.new_segment("character", "\n");
    proof {
        reveal_strlit("");
        reveal_strlit("\n");
        reveal_strlit("character");
        assert("\n"@ =~= seq!['\n']);
        lemma_segments_text_short(m.style, m.segments@);
        assert(painted(m.style, "\n"@) =~= seq!['\n']);
        assert(seq!['\n'] + ""@ =~= seq!['\n']);
    }
    m
}

/// What the module `module` needs from outside in this context; `None` where
/// it is unknown or its markers are absent, so that nothing is read or run.
pub fn needs(module: &str, context: &Context) -> (r: Option<Need>)
    ensures
        module@ == "dotnet"@ ==> (r.is_some() <==> dotnet_files_of(context.dir_files_spec()).len() > 0)
            && (r.is_some() ==> (r matches Some(Need::DotnetVersion(res)) && is_plan_for(*context, res))),
        module@ == "nodejs"@ ==> (r.is_some() <==> is_js_project(context.dir_files_spec())) && (
        r.is_some() ==> r matches Some(Need::NodeVersion)),
        module@ == "golang"@ ==> (r.is_some() <==> probe_matches(go_markers(), context.dir_files_spec()))
            && (r.is_some() ==> (r matches Some(Need::GoVersion))),
        module@ == "line_break"@ || module@ == "directory"@ ==> (r matches Some(Need::Nothing)),
        !is_known_module(module@) ==> r.is_none(),
{
    proof {
        lemma_names_distinct();
    }
    if same_text(module, "dotnet") {
        match dotnet::plan(context) {
            Some(res) => Some(Need::DotnetVersion(res)),
            None => None,
        }
    } else if same_text(module, "nodejs") {
        if nodejs::needs_version(context) {
            Some(Need::NodeVersion)
        } else {
            None
        }
    } else if same_text(module, "golang") {
        if golang::needs_version(context) {
            Some(Need::GoVersion)
        } else {
            None
        }
    } else if same_text(module, "line_break") || same_text(module, "directory") {
        Some(Need::Nothing)
    } else {
        None
    }
}

/// Renders the module `module` from the context and what its need brought
/// back (the SDK version, or what `node --version` or `go version` printed);
/// nothing for an unknown name.
pub fn handle(module: &str, context: &Context, answer: Option<String>) -> (r: Option<Module>)
    ensures
        module@ == "dotnet"@ ==> (r.is_some() <==> dotnet_files_of(context.dir_files_spec()).len() > 0
            && answer.is_some()) && (r matches Some(m) ==> is_dotnet_module(*context, answer->Some_0@, m)
            && module_text(m) == dotnet_module_text(*context, answer->Some_0@)),
        module@ == "nodejs"@ ==> (r.is_some() <==> is_js_project(context.dir_files_spec()) && (
        answer matches Some(o) && node_version_of(o@) is Some)) && (r matches Some(m) ==> is_nodejs_module(
            *context,
            node_version_of(answer->Some_0@)->Some_0,
            m,
        ) && module_text(m) == nodejs_module_text(*context, node_version_of(answer->Some_0@)->Some_0)),
        module@ == "golang"@ ==> (r.is_some() <==> probe_matches(go_markers(), context.dir_files_spec())
            && (answer matches Some(o) && go_version_of(o@) is Some)) && (r matches Some(m)
            ==> is_golang_module(*context, go_version_of(answer->Some_0@)->Some_0, m) && module_text(m)
            == golang_module_text(*context, go_version_of(answer->Some_0@)->Some_0)),
        module@ == "directory"@ ==> (r matches Some(m) && is_directory_module(*context, m) && module_text(m)
            == directory_module_text(*context)),
        module@ == "line_break"@ ==> (r matches Some(m) && is_line_break_module(m) && module_text(m)
            == line_break_text()),
        !is_known_module(module@) ==> r.is_none(),
{
    proof {
        lemma_names_distinct();
    }
    if same_text(module, "dotnet") {
        let version = match answer {
            Some(v) => Some(Version(v)),
            None => None,
        };
        dotnet::module(context, version)
    } else if same_text(module, "nodejs") {
        nodejs::module(context, answer)
    } else if same_text(module, "golang") {
        golang::module(context, answer)
    } else if same_text(module, "directory") {
        Some(directory::module(context))
    } else if same_text(module, "line_break") {
        Some(line_break())
    } else {
        None
    }
}

} // verus!
