//! The directory module: shows the working directory.

use vstd::prelude::*;
use crate::context::{Context, style_for, suffix_for};
use crate::module::{Module, lemma_segments_text_short, module_text};
use crate::style::{Color, Style, painted};

verus! {

pub open spec fn directory_style() -> Style {
    Style { foreground: Some(Color::Cyan), bold: true }
}

/// The text of the module: the working directory in the module's style, then
/// its suffix.
pub open spec fn directory_module_text(ctx: Context) -> Seq<char> {
    painted(style_for(ctx.config_spec(), "directory"@, directory_style()), ctx.dir()) + suffix_for(
        ctx.config_spec(),
        "directory"@,
    )
}

/// The module: one segment holding the working directory, in the module's
/// style (configured, else bold cyan), then the configured suffix.
pub open spec fn is_directory_module(ctx: Context, m: Module) -> bool {
    &&& m.name@ == "directory"@
    &&& m.style == style_for(ctx.config_spec(), "directory"@, directory_style())
    &&& m.suffix@ == suffix_for(ctx.config_spec(), "directory"@)
    &&& m.segments@.len() == 1
    &&& m.segments@[0].name@ == "path"@
    &&& m.segments@[0].value@ == ctx.dir()
    &&& m.segments@[0].style.is_none()
}

/// The module showing the working directory, in the configured style (bold
/// cyan by default).
pub fn module(context: &Context) -> (r: Module)
    ensures
        is_directory_module(*context, r),
        module_text(r) == directory_module_text(*context),
{
    let mut m = context.new_module("directory", Style::fg(Color::Cyan).bold());
    m.new_segment("path", context.current_dir());
    proof {
        lemma_segments_text_short(m.style, m.segments@);
    }
    m
}

} // verus!
