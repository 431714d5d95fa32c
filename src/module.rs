//! Modules and their segments: named, styled text that a prompt is made of.

use vstd::prelude::*;
use crate::style::{Style, paint, painted};

verus! {

/// A named text fragment; without a style of its own it takes its module's.
#[derive(Clone, Debug)]
pub struct Segment {
    pub name: String,
    pub value: String,
    pub style: Option<Style>,
}

/// One module's output: its segments in order, then its suffix.
#[derive(Debug)]
pub struct Module {
    pub name: String,
    pub style: Style,
    pub segments: Vec<Segment>,
    pub suffix: String,
}

pub open spec fn style_of(module_style: Style, seg: Segment) -> Style {
    match seg.style {
        Some(s) => s,
        None => module_style,
    }
}

pub open spec fn segments_text(module_style: Style, segs: Seq<Segment>) -> Seq<char>
    decreases segs.len(),
{
    if segs.len() == 0 {
        Seq::empty()
    } else {
        segments_text(module_style, segs.drop_last()) + painted(
            style_of(module_style, segs.last()),
            segs.last().value@,
        )
    }
}

/// The text of a module: each segment painted in its style, then the suffix.
pub open spec fn module_text(m: Module) -> Seq<char> {
    segments_text(m.style, m.segments@) + m.suffix@
}

/// The text of one or two segments, each painted in its style.
pub proof fn lemma_segments_text_short(module_style: Style, segs: Seq<Segment>)
    ensures
        segs.len() == 1 ==> segments_text(module_style, segs) == painted(
            style_of(module_style, segs[0]),
            segs[0].value@,
        ),
        segs.len() == 2 ==> segments_text(module_style, segs) == painted(
            style_of(module_style, segs[0]),
            segs[0].value@,
        ) + painted(style_of(module_style, segs[1]), segs[1].value@),
{
    if segs.len() == 1 {
        assert(segs.drop_last().len() == 0);
        assert(segments_text(module_style, segs.drop_last()) =~= Seq::<char>::empty());
        assert(Seq::<char>::empty() + painted(style_of(module_style, segs[0]), segs[0].value@)
            =~= painted(style_of(module_style, segs[0]), segs[0].value@));
    }
    if segs.len() == 2 {
        let first = segs.drop_last();
        assert(first.drop_last().len() == 0);
        assert(segments_text(module_style, first.drop_last()) =~= Seq::<char>::empty());
        assert(Seq::<char>::empty() + painted(style_of(module_style, first[0]), first[0].value@)
            =~= painted(style_of(module_style, segs[0]), segs[0].value@));
        assert(segments_text(module_style, first) == painted(style_of(module_style, segs[0]), segs[0].value@));
        assert(segs.last() == segs[1]);
    }
}

impl Segment {
    pub fn new(name: &str) -> (r: Segment)
        ensures
            r.name@ == name@,
            r.value@.len() == 0,
            r.style.is_none(),
    {
        Segment { name: name.to_owned(), value: String::new(), style: None }
    }

    pub fn set_style(&mut self, style: Style)
        ensures
            *final(self) == (Segment { style: Some(style), ..*old(self) }),
    {
        self.style = Some(style);
    }

    pub fn set_value(&mut self, value: String)
        ensures
            *final(self) == (Segment { value: value, ..*old(self) }),
    {
        self.value = value;
    }

    /// The segment's text painted in its own style, or plain.
    pub fn to_string(&self) -> (r: String)
        ensures
            r@ == painted(style_of(Style { foreground: None, bold: false }, *self), self.value@),
    {
        let style = match self.style {
            Some(s) => s,
            None => Style::plain(),
        };
        paint(style, self.value.as_str())
    }
}

impl Module {
    /// An empty module with a style and the suffix written after it.
    pub fn new(name: &str, style: Style, suffix: &str) -> (r: Module)
        ensures
            r.name@ == name@,
            r.style == style,
            r.segments@.len() == 0,
            r.suffix@ == suffix@,
    {
        Module { name: name.to_owned(), style, segments: Vec::new(), suffix: suffix.to_owned() }
    }

    pub fn set_style(&mut self, style: Style)
        ensures
            final(self).style == style,
            final(self).name == old(self).name,
            final(self).segments == old(self).segments,
            final(self).suffix == old(self).suffix,
    {
        self.style = style;
    }

    /// Appends a segment in the module's style.
    pub fn new_segment(&mut self, name: &str, value: &str)
        ensures
            final(self).segments@.len() == old(self).segments@.len() + 1,
            final(self).segments@.drop_last() == old(self).segments@,
            final(self).segments@.last().name@ == name@,
            final(self).segments@.last().value@ == value@,
            final(self).segments@.last().style.is_none(),
            final(self).style == old(self).style,
            final(self).name == old(self).name,
            final(self).suffix == old(self).suffix,
    {
        let seg = Segment { name: name.to_owned(), value: value.to_owned(), style: None };
        self.segments.push(seg);
        assert(final(self).segments@.drop_last() =~= old(self).segments@);
    }

    /// Whether the module holds no segment.
    pub fn is_empty(&self) -> (r: bool)
        ensures
            r == (self.segments@.len() == 0),
    {
        self.segments.len() == 0
    }

    /// The module's text: each segment painted, then the suffix.
    pub fn to_string(&self) -> (r: String)
        ensures
            r@ == module_text(*self),
    {
        let mut out = String::new();
        let mut i: usize = 0;
        while i < self.segments.len()
            invariant
                i <= self.segments@.len(),
                out@ == segments_text(self.style, self.segments@.subrange(0, i as int)),
            decreases self.segments@.len() - i,
        {
            let seg = &self.segments[i];
            let style = match seg.style {
                Some(s) => s,
                None => self.style,
            };
            let text = paint(style, seg.value.as_str());
            out.append(text.as_str());
            assert(self.segments@.subrange(0, i + 1).drop_last() =~= self.segments@.subrange(0, i as int));
            i = i + 1;
        }
        assert(self.segments@.subrange(0, i as int) =~= self.segments@);
        out.append(self.suffix.as_str());
        out
    }
}

} // verus!
