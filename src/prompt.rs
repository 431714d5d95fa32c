//! Prompt assembly: the configured modules in order, the disabled ones left
//! out before anything is evaluated, and the rendered ones concatenated.

use vstd::prelude::*;
use crate::context::{Config, Context, is_disabled_in};
use crate::module::{Module, module_text};
use crate::text::texts;

verus! {

/// The module order used when the configuration gives none.
pub open spec fn default_order_spec() -> Seq<Seq<char>> {
    seq!["directory"@, "dotnet"@, "golang"@, "nodejs"@, "line_break"@]
}

/// The configured module order, else the default one.
pub open spec fn order_of(c: Config) -> Seq<Seq<char>> {
    match c.order {
        Some(o) => texts(o@),
        None => default_order_spec(),
    }
}

/// The names of `order` whose modules are not disabled, in order.
pub open spec fn enabled_of(order: Seq<Seq<char>>, c: Config) -> Seq<Seq<char>>
    decreases order.len(),
{
    if order.len() == 0 {
        Seq::empty()
    } else {
        let before = enabled_of(order.drop_last(), c);
        if is_disabled_in(c, order.last()) {
            before
        } else {
            before.push(order.last())
        }
    }
}

/// The prompt: the text of each rendered module, in order.
pub open spec fn prompt_text(mods: Seq<Option<Module>>) -> Seq<char>
    decreases mods.len(),
{
    if mods.len() == 0 {
        Seq::empty()
    } else {
        prompt_text(mods.drop_last()) + match mods.last() {
            Some(m) => module_text(m),
            None => Seq::<char>::empty(),
        }
    }
}

/// The module order used when the configuration gives none.
pub fn default_order() -> (r: Vec<String>)
    ensures
        texts(r@) == default_order_spec(),
{
    let mut v: Vec<String> = Vec::new();
    v.push(String::from_str("directory"));
    v.push(String::from_str("dotnet"));
    v.push(String::from_str("golang"));
    v.push(String::from_str("nodejs"));
    v.push(String::from_str("line_break"));
    assert(texts(v@) =~= default_order_spec());
    v
}

/// The modules to evaluate, in order: those of the configured order (else of
/// the default one) that are not disabled.
pub fn modules_to_evaluate(context: &Context) -> (r: Vec<String>)
    ensures
        texts(r@) == enabled_of(order_of(context.config_spec()), context.config_spec()),
{
    let config = context.config();
    let default = default_order();
    let order: &Vec<String> = match &config.order {
        Some(o) => o,
        None => &default,
    };
    let ghost full = texts(order@);
    let mut out: Vec<String> = Vec::new();
    let mut i: usize = 0;
    while i < order.len()
        invariant
            full == texts(order@),
            full == order_of(*config),
            *config == context.config_spec(),
            i <= order@.len(),
            texts(out@) == enabled_of(full.subrange(0, i as int), *config),
        decreases order@.len() - i,
    {
        let ghost before = out@;
        assert(full.subrange(0, i + 1).drop_last() =~= full.subrange(0, i as int));
        assert(full.subrange(0, i + 1).last() == order@[i as int]@);
        if !config.is_disabled(order[i].as_str()) {
            out.push(order[i].clone());
            assert(texts(out@) =~= texts(before).push(order@[i as int]@));
        }
        i = i + 1;
    }
    assert(full.subrange(0, i as int) =~= full);
    out
}

/// Concatenates the text of the modules that rendered, in order.
pub fn render_prompt(modules: &Vec<Option<Module>>) -> (r: String)
    ensures
        r@ == prompt_text(modules@),
{
    let mut out = String::new();
    let mut i: usize = 0;
    while i < modules.len()
        invariant
            i <= modules@.len(),
            out@ == prompt_text(modules@.subrange(0, i as int)),
        decreases modules@.len() - i,
    {
        assert(modules@.subrange(0, i + 1).drop_last() =~= modules@.subrange(0, i as int));
        match &modules[i] {
            Some(m) => {
                let text = m.to_string();
                out.append(text.as_str());
            },
            None => {
                assert(out@ + Seq::<char>::empty() =~= out@);
            },
        }
        i = i + 1;
    }
    assert(modules@.subrange(0, i as int) =~= modules@);
    out
}

/// A module configured as disabled is never among the modules evaluated,
/// whatever the order.
pub proof fn disabled_module_not_evaluated(order: Seq<Seq<char>>, c: Config, name: Seq<char>)
    requires
        is_disabled_in(c, name),
    ensures
        !enabled_of(order, c).contains(name),
    decreases order.len(),
{
    if order.len() > 0 {
        disabled_module_not_evaluated(order.drop_last(), c, name);
        if !is_disabled_in(c, order.last()) {
            assert(order.last() != name);
            let before = enabled_of(order.drop_last(), c);
            assert forall|i: int| 0 <= i < before.push(order.last()).len() implies before.push(
                order.last(),
            )[i] != name by {
                if i < before.len() {
                    assert(before.push(order.last())[i] == before[i]);
                }
            }
        }
    }
}

proof fn lemma_enabled_of_concat(a: Seq<Seq<char>>, b: Seq<Seq<char>>, c: Config)
    ensures
        enabled_of(a + b, c) == enabled_of(a, c) + enabled_of(b, c),
    decreases b.len(),
{
    if b.len() == 0 {
        assert(a + b =~= a);
        assert(enabled_of(a, c) + enabled_of(b, c) =~= enabled_of(a, c));
    } else {
        lemma_enabled_of_concat(a, b.drop_last(), c);
        assert((a + b).drop_last() =~= a + b.drop_last());
        assert((a + b).last() == b.last());
        if !is_disabled_in(c, b.last()) {
            assert(enabled_of(a, c) + enabled_of(b.drop_last(), c).push(b.last()) =~= (enabled_of(a, c)
                + enabled_of(b.drop_last(), c)).push(b.last()));
        }
    }
}

/// A module configured as disabled leaves no trace: removing it from the
/// order leaves the modules evaluated, and so the prompt, unchanged.
pub proof fn disabled_module_leaves_no_trace(
    before: Seq<Seq<char>>,
    name: Seq<char>,
    after: Seq<Seq<char>>,
    c: Config,
)
    requires
        is_disabled_in(c, name),
    ensures
        enabled_of(before + seq![name] + after, c) == enabled_of(before + after, c),
{
    lemma_enabled_of_concat(before + seq![name], after, c);
    lemma_enabled_of_concat(before, seq![name], c);
    lemma_enabled_of_concat(before, after, c);
    let one = seq![name];
    assert(one.drop_last() =~= Seq::<Seq<char>>::empty());
    assert(one.last() == name);
    assert(enabled_of(one.drop_last(), c) == Seq::<Seq<char>>::empty());
    assert(enabled_of(one, c) == enabled_of(one.drop_last(), c));
    assert(enabled_of(before, c) + enabled_of(one, c) =~= enabled_of(before, c));
}

/// Every module evaluated appears in the order and is not disabled.
pub proof fn evaluated_modules_are_enabled(order: Seq<Seq<char>>, c: Config)
    ensures
        forall|i: int|
            0 <= i < enabled_of(order, c).len() ==> order.contains(#[trigger] enabled_of(order, c)[i])
                && !is_disabled_in(c, enabled_of(order, c)[i]),
    decreases order.len(),
{
    if order.len() > 0 {
        let rest = order.drop_last();
        evaluated_modules_are_enabled(rest, c);
        let e = enabled_of(order, c);
        assert forall|i: int| 0 <= i < e.len() implies order.contains(#[trigger] e[i])
            && !is_disabled_in(c, e[i]) by {
            let before = enabled_of(rest, c);
            if i < before.len() {
                assert(e[i] == before[i]);
                let k = choose|k: int| 0 <= k < rest.len() && rest[k] == before[i];
                assert(order[k] == rest[k]);
            } else {
                assert(order[order.len() - 1] == order.last());
            }
        }
    }
}

/// A prompt in which no module rendered is empty.
pub proof fn nothing_rendered_gives_empty_prompt(mods: Seq<Option<Module>>)
    requires
        forall|i: int| 0 <= i < mods.len() ==> (#[trigger] mods[i]).is_none(),
    ensures
        prompt_text(mods) == Seq::<char>::empty(),
    decreases mods.len(),
{
    if mods.len() > 0 {
        nothing_rendered_gives_empty_prompt(mods.drop_last());
        assert(mods[mods.len() - 1] == mods.last());
        assert(Seq::<char>::empty() + Seq::<char>::empty() =~= Seq::<char>::empty());
    }
}

} // verus!
