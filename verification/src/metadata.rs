//! What the layer reads of the spans and events that reach it.

use crate::field::{Field, FieldView, views};
use crate::level::Level;
use vstd::prelude::*;

verus! {

/// The text of an optional string.
pub open spec fn text_of(text: Option<String>) -> Option<Seq<char>> {
    match text {
        Some(t) => Some(t@),
        None => None,
    }
}

/// The text of an optional string slice.
pub open spec fn slice_text_of(text: Option<&str>) -> Option<Seq<char>> {
    match text {
        Some(t) => Some(t@),
        None => None,
    }
}

/// An event: a severity, the place in the source that emitted it, and its
/// fields in the order in which they were given.
#[derive(Debug)]
pub struct Event {
    pub level: Level,
    pub file: Option<String>,
    pub line: Option<u32>,
    pub fields: Vec<Field>,
}

/// What an [`Event`] holds.
pub struct EventView {
    pub level: Level,
    pub file: Option<Seq<char>>,
    pub line: Option<u32>,
    pub fields: Seq<FieldView>,
}

impl View for Event {
    type V = EventView;

    open spec fn view(&self) -> EventView {
        EventView {
            level: self.level,
            file: text_of(self.file),
            line: self.line,
            fields: views(self.fields@),
        }
    }
}

/// A span as its call site describes it.
#[derive(Debug)]
pub struct Span {
    pub name: String,
    pub module: Option<String>,
}

/// What a [`Span`] holds.
pub struct SpanView {
    pub name: Seq<char>,
    pub module: Option<Seq<char>>,
}

impl View for Span {
    type V = SpanView;

    open spec fn view(&self) -> SpanView {
        SpanView { name: self.name@, module: text_of(self.module) }
    }
}

/// The span that a lookup found, if it found one.
pub open spec fn span_view(span: Option<&Span>) -> Option<SpanView> {
    match span {
        Some(s) => Some(s@),
        None => None,
    }
}

} // verus!
