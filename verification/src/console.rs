//! The recorder: the text that the fields of one span or one event add up to.

use crate::field::{Field, FieldView, views};
use vstd::prelude::*;

verus! {

/// The name of the field whose value is pinned to the head of the text.
pub open spec fn message_name() -> Seq<char> {
    "message"@
}

/// What a message adds: its rendered value and a line break.
pub open spec fn message_line(rendered: Seq<char>) -> Seq<char> {
    rendered + seq!['\n']
}

/// What any other field adds: `name=rendered`, a space and a line break.
pub open spec fn field_line(name: Seq<char>, rendered: Seq<char>) -> Seq<char> {
    name + seq!['='] + rendered + seq![' ', '\n']
}

/// The text after a field called `name`, whose value renders as `rendered`,
/// has been recorded into `buffer`: a message goes in front of everything
/// recorded so far, any other field behind it.
pub open spec fn with_field(buffer: Seq<char>, name: Seq<char>, rendered: Seq<char>) -> Seq<char> {
    if name == message_name() {
        message_line(rendered) + buffer
    } else {
        buffer + field_line(name, rendered)
    }
}

/// The text after `fields` have been recorded into `buffer` one by one, in
/// the order of the sequence.
pub open spec fn with_fields(buffer: Seq<char>, fields: Seq<FieldView>) -> Seq<char>
    decreases fields.len(),
{
    if fields.len() == 0 {
        buffer
    } else {
        with_field(
            with_fields(buffer, fields.drop_last()),
            fields.last().name,
            fields.last().value.text(),
        )
    }
}

/// The messages among `fields`, the most recent first, each on its own line.
pub open spec fn pinned(fields: Seq<FieldView>) -> Seq<char>
    decreases fields.len(),
{
    if fields.len() == 0 {
        Seq::empty()
    } else if fields.last().name == message_name() {
        message_line(fields.last().value.text()) + pinned(fields.drop_last())
    } else {
        pinned(fields.drop_last())
    }
}

/// The fields among `fields` that are no message, in the order in which they
/// arrived, each on its own line.
pub open spec fn trailing(fields: Seq<FieldView>) -> Seq<char>
    decreases fields.len(),
{
    if fields.len() == 0 {
        Seq::empty()
    } else if fields.last().name == message_name() {
        trailing(fields.drop_last())
    } else {
        trailing(fields.drop_last()) + field_line(fields.last().name, fields.last().value.text())
    }
}

/// The rendered value of the message that arrived last, if any arrived.
pub open spec fn latest_message(fields: Seq<FieldView>) -> Option<Seq<char>>
    decreases fields.len(),
{
    if fields.len() == 0 {
        None
    } else if fields.last().name == message_name() {
        Some(fields.last().value.text())
    } else {
        latest_message(fields.drop_last())
    }
}

/// What stands in `text` before its first line break.
pub open spec fn first_line(text: Seq<char>) -> Seq<char>
    decreases text.len(),
{
    if text.len() == 0 || text[0] == '\n' {
        Seq::empty()
    } else {
        seq![text[0]] + first_line(text.skip(1))
    }
}

/// Recording fields in two batches gives what recording them in one does.
pub proof fn recording_in_batches(
    buffer: Seq<char>,
    first: Seq<FieldView>,
    second: Seq<FieldView>,
)
    ensures
        with_fields(with_fields(buffer, first), second) == with_fields(buffer, first + second),
    decreases second.len(),
{
    if second.len() == 0 {
        assert(first + second =~= first);
    } else {
        recording_in_batches(buffer, first, second.drop_last());
        assert((first + second).drop_last() =~= first + second.drop_last());
        assert((first + second).last() == second.last());
    }
}

/// However many fields a recorder has received, its text holds all of them:
/// first the messages, the most recent at the head, then what it held before,
/// then the other fields in the order in which they arrived.
pub proof fn field_accumulation(buffer: Seq<char>, fields: Seq<FieldView>)
    ensures
        with_fields(buffer, fields) == pinned(fields) + buffer + trailing(fields),
    decreases fields.len(),
{
    if fields.len() == 0 {
        assert(buffer =~= pinned(fields) + buffer + trailing(fields));
    } else {
        let before = fields.drop_last();
        field_accumulation(buffer, before);
        assert(with_fields(buffer, fields) =~= pinned(fields) + buffer + trailing(fields));
    }
}

/// Once a recorder has received a message, its text begins with the rendered
/// value of the most recent message and a line break.
pub proof fn message_at_head(buffer: Seq<char>, fields: Seq<FieldView>)
    requires
        latest_message(fields) is Some,
    ensures
        message_line(latest_message(fields).unwrap()).is_prefix_of(with_fields(buffer, fields)),
    decreases fields.len(),
{
    let head = message_line(latest_message(fields).unwrap());
    let text = with_fields(buffer, fields);
    if fields.last().name != message_name() {
        message_at_head(buffer, fields.drop_last());
    }
    assert(head =~= text.subrange(0, head.len() as int));
}

/// Once a recorder has received a message, the first line of its text is the
/// rendered value of the most recent message, provided that this value holds
/// no line break itself.
pub proof fn message_priority(buffer: Seq<char>, fields: Seq<FieldView>)
    requires
        latest_message(fields) is Some,
        !latest_message(fields).unwrap().contains('\n'),
    ensures
        first_line(with_fields(buffer, fields)) == latest_message(fields).unwrap(),
{
    let latest = latest_message(fields).unwrap();
    let text = with_fields(buffer, fields);
    message_at_head(buffer, fields);
    let rest = text.skip(message_line(latest).len() as int);
    assert(text =~= latest + seq!['\n'] + rest);
    lemma_first_line(latest, rest);
}

/// A line is the first line of whatever text begins with it and a line break.
proof fn lemma_first_line(line: Seq<char>, rest: Seq<char>)
    requires
        !line.contains('\n'),
    ensures
        first_line(line + seq!['\n'] + rest) == line,
    decreases line.len(),
{
    let whole = line + seq!['\n'] + rest;
    if line.len() == 0 {
        assert(whole[0] == '\n');
        assert(line =~= Seq::empty());
    } else {
        assert(whole[0] == line[0]);
        assert(line.contains(line[0]));
        let tail = line.skip(1);
        assert(whole.skip(1) =~= tail + seq!['\n'] + rest);
        assert forall|i: int| 0 <= i < tail.len() implies tail[i] != '\n' by {
            assert(line.contains(line[i + 1]));
        }
        lemma_first_line(tail, rest);
        assert(seq![line[0]] + tail =~= line);
    }
}

/// `eq` of `str`, as `==` calls it: two string slices are equal exactly when
/// they hold the same characters in the same order.
#[verifier::external_body]
fn same_text(left: &str, right: &str) -> (r: bool)
    ensures
        r == (left@ == right@),
{
    left == right
}

/// Accumulates the fields of one span or one event as text.
pub struct Recorder {
    buffer: String,
}

impl View for Recorder {
    type V = Seq<char>;

    closed spec fn view(&self) -> Seq<char> {
        self.buffer@
    }
}

impl Default for Recorder {
    fn default() -> (r: Self)
        ensures
            r@ == Seq::<char>::empty(),
    {
        Recorder { buffer: String::new() }
    }
}

impl Recorder {
    /// A recorder that holds nothing yet.
    pub fn new() -> (r: Self)
        ensures
            r@ == Seq::<char>::empty(),
    {
        Recorder { buffer: String::new() }
    }

    /// Records a field whose value has already been rendered.
    pub fn record_debug(&mut self, field: &str, rendered: &str)
        ensures
            final(self)@ == with_field(old(self)@, field@, rendered@),
    {
        proof {
            reveal_strlit("\n");
            reveal_strlit("=");
            reveal_strlit(" \n");
        }
        if same_text(field, "message") {
            let mut head = String::from_str(rendered);
            head.append("\n");
            head.append(self.buffer.as_str());
            self.buffer = head;
            assert(self@ =~= with_field(old(self)@, field@, rendered@));
        } else {
            self.buffer.append(field);
            self.buffer.append("=");
            self.buffer.append(rendered);
            self.buffer.append(" \n");
            assert(self@ =~= with_field(old(self)@, field@, rendered@));
        }
    }

    /// Renders the value of `field` and records it.
    pub fn record(&mut self, field: &Field)
        ensures
            final(self)@ == with_field(old(self)@, field@.name, field@.value.text()),
    {
        let rendered = field.value.render();
        self.record_debug(field.name.as_str(), rendered.as_str());
    }

    /// Records `fields` one by one, first to last.
    pub fn record_all(&mut self, fields: &Vec<Field>)
        ensures
            final(self)@ == with_fields(old(self)@, views(fields@)),
    {
        let ghost all = views(fields@);
        let mut i: usize = 0;
        while i < fields.len()
            invariant
                i <= fields.len(),
                all == views(fields@),
                self@ == with_fields(old(self)@, all.take(i as int)),
            decreases fields.len() - i,
        {
            self.record(&fields[i]);
            proof {
                let next = all.take(i + 1);
                assert(next.drop_last() =~= all.take(i as int));
                assert(next.last() == fields@[i as int]@);
            }
            i += 1;
        }
        assert(all.take(i as int) =~= all);
    }

    /// The text recorded so far, borrowed.
    pub fn as_str(&self) -> (r: &str)
        ensures
            r@ == self@,
    {
        self.buffer.as_str()
    }

    /// The text recorded so far.
    pub fn render(&self) -> (r: String)
        ensures
            r@ == self@,
    {
        self.buffer.clone()
    }
}

} // verus!
