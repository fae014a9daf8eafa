//! Fields: the named, typed values that spans and events carry.

use crate::numeral::{decimal, push_decimal, push_signed_decimal, signed_decimal};
use vstd::prelude::*;

verus! {

/// The value of a field.
#[derive(Debug)]
pub enum Value {
    Bool(bool),
    Signed(i128),
    Unsigned(u128),
    /// A string, which is rendered in quotes.
    Str(String),
    /// A value of any other kind, already rendered by whoever observed it.
    Rendered(String),
}

/// What a [`Value`] holds.
pub enum ValueView {
    Bool(bool),
    Signed(int),
    Unsigned(nat),
    Str(Seq<char>),
    Rendered(Seq<char>),
}

impl View for Value {
    type V = ValueView;

    open spec fn view(&self) -> ValueView {
        match self {
            Value::Bool(b) => ValueView::Bool(*b),
            Value::Signed(v) => ValueView::Signed(*v as int),
            Value::Unsigned(v) => ValueView::Unsigned(*v as nat),
            Value::Str(s) => ValueView::Str(s@),
            Value::Rendered(s) => ValueView::Rendered(s@),
        }
    }
}

/// `text` as a string literal of the host: in double quotes, with the
/// characters escaped that cannot stand for themselves there.
pub uninterp spec fn quoted(text: Seq<char>) -> Seq<char>;

impl ValueView {
    /// The text that stands for the value in a rendered line: booleans as
    /// `true` and `false`, integers as bare decimal numerals, strings in
    /// quotes, anything else as it was handed in.
    pub open spec fn text(self) -> Seq<char> {
        match self {
            ValueView::Bool(b) => if b {
                seq!['t', 'r', 'u', 'e']
            } else {
                seq!['f', 'a', 'l', 's', 'e']
            },
            ValueView::Signed(v) => signed_decimal(v),
            ValueView::Unsigned(v) => decimal(v),
            ValueView::Str(s) => quoted(s),
            ValueView::Rendered(s) => s,
        }
    }
}

/// `fmt` of `Debug` for `str`, as `{:?}` calls it: the string in double
/// quotes, with its characters escaped. Nothing is claimed of the result but
/// that the characters of `text` decide it.
#[verifier::external_body]
fn quote(text: &str) -> (r: String)
    ensures
        r@ == quoted(text@),
{
    format!("{:?}", text)
}

impl Value {
    /// Renders the value.
    pub fn render(&self) -> (r: String)
        ensures
            r@ == self@.text(),
    {
        match self {
            Value::Bool(b) => {
                proof {
                    reveal_strlit("true");
                    reveal_strlit("false");
                }
                let word = if *b {
                    "true"
                } else {
                    "false"
                };
                assert(word@ =~= self@.text());
                String::from_str(word)
            },
            Value::Signed(v) => {
                let mut text = String::new();
                push_signed_decimal(&mut text, *v);
                assert(text@ =~= self@.text());
                text
            },
            Value::Unsigned(v) => {
                let mut text = String::new();
                push_decimal(&mut text, *v);
                assert(text@ =~= self@.text());
                text
            },
            Value::Str(s) => quote(s.as_str()),
            Value::Rendered(s) => s.clone(),
        }
    }
}

/// A field: a name and a value.
#[derive(Debug)]
pub struct Field {
    pub name: String,
    pub value: Value,
}

/// What a [`Field`] holds.
pub struct FieldView {
    pub name: Seq<char>,
    pub value: ValueView,
}

impl View for Field {
    type V = FieldView;

    open spec fn view(&self) -> FieldView {
        FieldView { name: self.name@, value: self.value@ }
    }
}

/// The fields of a list, each by its view.
pub open spec fn views(fields: Seq<Field>) -> Seq<FieldView> {
    fields.map_values(|f: Field| f@)
}

} // verus!
