//! A tracing layer for the browser: every event becomes one line on the
//! developer console, every span a mark when it is entered and a measure when
//! it is left.
//!
//! The layer decides what the host is to be called with; it makes no call
//! itself. Each hook takes what the tracing framework knows of a span or an
//! event as plain values and returns the [`HostCall`] to perform, if any. The
//! recorder of a span lives in the extensions that the registry keeps for the
//! span; the hooks that need it take those extensions.

pub mod console;
pub mod extensions;
pub mod field;
pub mod level;
pub mod metadata;
pub mod numeral;
pub mod typings;

use crate::console::{
    field_accumulation, pinned, recording_in_batches, trailing, with_fields, Recorder,
};
use crate::extensions::{attached, attached_to, insert_recorder, recorder_mut};
use crate::field::{views, Field, FieldView};
use crate::level::Level;
use crate::metadata::{slice_text_of, span_view, Event, EventView, Span, SpanView};
use crate::numeral::{
    decimal, lower_hex, numeral_names_one_number, push_decimal, push_lower_hex,
};
use crate::typings::{call_view, HostCall, HostCallView};
use tracing_subscriber::registry::ExtensionsMut;
use vstd::prelude::*;

verus! {

/// The name of the mark of a span: `[name]` and the id in lower-case
/// hexadecimal without padding, or the id alone where the name is unknown.
pub open spec fn mark_name(name: Option<Seq<char>>, id: u64) -> Seq<char> {
    match name {
        Some(n) => seq!['['] + n + seq![']'] + lower_hex(id as nat),
        None => lower_hex(id as nat),
    }
}

/// Where an event comes from: `file:line`, or nothing where either is unknown.
pub open spec fn origin(file: Option<Seq<char>>, line: Option<u32>) -> Seq<char> {
    match (file, line) {
        (Some(f), Some(l)) => f + seq![':'] + decimal(l as nat),
        _ => Seq::empty(),
    }
}

/// The console line of an event: the level's name, the origin and the
/// recorded fields, with one space between them.
pub open spec fn event_line(level: Level, origin: Seq<char>, fields: Seq<char>) -> Seq<char> {
    level.label() + seq![' '] + origin + seq![' '] + fields
}

/// The console call of a level, with `line` as its argument.
pub open spec fn console_call(level: Level, line: Seq<char>) -> HostCallView {
    match level {
        Level::Error => HostCallView::Error(line),
        Level::Warn => HostCallView::Warn(line),
        Level::Info => HostCallView::Info(line),
        Level::Debug => HostCallView::Debug(line),
        Level::Trace => HostCallView::Trace(line),
    }
}

/// The call that an event leads to once it has reached the layer.
pub open spec fn event_call(event: EventView) -> HostCallView {
    console_call(
        event.level,
        event_line(
            event.level,
            origin(event.file, event.line),
            with_fields(Seq::empty(), event.fields),
        ),
    )
}

/// The module of a span, or three dots where it is unknown.
pub open spec fn module_text(module: Option<Seq<char>>) -> Seq<char> {
    match module {
        Some(m) => m,
        None => seq!['.', '.', '.'],
    }
}

/// The label of the measure of a span: `[name] module`, followed by a space
/// and the recorded fields where the span has a recorder. A recorder that
/// holds nothing still adds the space; a span without one adds nothing.
pub open spec fn measure_label(span: SpanView, recorded: Option<Seq<char>>) -> Seq<char> {
    let head = seq!['['] + span.name + seq![']', ' '] + module_text(span.module);
    match recorded {
        Some(fields) => head + seq![' '] + fields,
        None => head,
    }
}

/// What the extensions of a span hold once the span has been created with
/// `attrs`: a recorder of their own filled with the attributes, or the
/// recorder that they held before.
pub open spec fn created(slot: Option<Seq<char>>, attrs: Seq<FieldView>) -> Option<Seq<char>> {
    match slot {
        Some(text) => Some(text),
        None => Some(with_fields(Seq::empty(), attrs)),
    }
}

/// What the extensions of a span hold once the span has recorded `values`:
/// the recorder with the values added, or still nothing where they held no
/// recorder.
pub open spec fn updated(slot: Option<Seq<char>>, values: Seq<FieldView>) -> Option<Seq<char>> {
    match slot {
        Some(text) => Some(with_fields(text, values)),
        None => None,
    }
}

/// What the extensions of a span hold once the span has made `calls` to
/// record values, one batch of values with each call.
pub open spec fn updated_by_all(slot: Option<Seq<char>>, calls: Seq<Seq<FieldView>>) -> Option<
    Seq<char>,
>
    decreases calls.len(),
{
    if calls.len() == 0 {
        slot
    } else {
        updated(updated_by_all(slot, calls.drop_last()), calls.last())
    }
}

/// The values of all `calls` in one sequence, in the order in which they
/// arrived.
pub open spec fn joined(calls: Seq<Seq<FieldView>>) -> Seq<FieldView>
    decreases calls.len(),
{
    if calls.len() == 0 {
        Seq::empty()
    } else {
        joined(calls.drop_last()) + calls.last()
    }
}

/// Formats the name of the mark of span `id`.
pub fn format_mark(name: Option<&str>, id: u64) -> (r: String)
    ensures
        r@ == mark_name(slice_text_of(name), id),
{
    let mut buffer = String::new();
    if let Some(n) = name {
        proof {
            reveal_strlit("[");
            reveal_strlit("]");
        }
        buffer.append("[");
        buffer.append(n);
        buffer.append("]");
    }
    push_lower_hex(&mut buffer, id);
    assert(buffer@ =~= mark_name(slice_text_of(name), id));
    buffer
}

/// Formats the origin of an event.
pub fn format_origin(file: Option<&str>, line: Option<u32>) -> (r: String)
    ensures
        r@ == origin(slice_text_of(file), line),
{
    let mut buffer = String::new();
    if let Some(f) = file {
        if let Some(l) = line {
            proof {
                reveal_strlit(":");
            }
            buffer.append(f);
            buffer.append(":");
            push_decimal(&mut buffer, l as u128);
        }
    }
    assert(buffer@ =~= origin(slice_text_of(file), line));
    buffer
}

/// The layer: a threshold of severity and a switch for the timings.
pub struct BrowserLayer {
    record_timings: bool,
    max_level: Level,
}

impl Default for BrowserLayer {
    fn default() -> (r: Self)
        ensures
            r.max_level() == Level::Info,
            r.record_timings(),
    {
        BrowserLayer { record_timings: true, max_level: Level::Info }
    }
}

impl BrowserLayer {
    /// The least severe level that the layer lets through.
    pub closed spec fn max_level(&self) -> Level {
        self.max_level
    }

    /// Whether entering and leaving a span calls the host.
    pub closed spec fn record_timings(&self) -> bool {
        self.record_timings
    }

    /// The layer lets `level` through.
    pub open spec fn allows(&self, level: Level) -> bool {
        level.within(self.max_level())
    }

    /// What entering span `id` calls the host with.
    pub open spec fn entered(&self, id: u64, span: Option<SpanView>) -> Option<HostCallView> {
        if self.record_timings() {
            Some(
                HostCallView::Mark(
                    mark_name(
                        match span {
                            Some(s) => Some(s.name),
                            None => None,
                        },
                        id,
                    ),
                ),
            )
        } else {
            None
        }
    }

    /// What leaving span `id` calls the host with.
    pub open spec fn exited(
        &self,
        id: u64,
        span: Option<SpanView>,
        recorded: Option<Seq<char>>,
    ) -> Option<HostCallView> {
        match span {
            Some(s) if self.record_timings() => Some(
                HostCallView::Measure(measure_label(s, recorded), mark_name(Some(s.name), id)),
            ),
            _ => None,
        }
    }

    /// What an event that the framework offers calls the host with.
    pub open spec fn dispatched(&self, event: EventView) -> Option<HostCallView> {
        if self.allows(event.level) {
            Some(event_call(event))
        } else {
            None
        }
    }

    /// A layer that lets `Info` and everything more severe through and records
    /// timings.
    pub fn new() -> (r: Self)
        ensures
            r.max_level() == Level::Info,
            r.record_timings(),
    {
        BrowserLayer { record_timings: true, max_level: Level::Info }
    }

    /// The layer that is installed as the default of the whole process: it
    /// lets `Debug` and everything more severe through and records timings.
    pub fn global_default() -> (r: Self)
        ensures
            r.max_level() == Level::Debug,
            r.record_timings(),
    {
        BrowserLayer::new().with_max_level(Level::Debug)
    }

    /// Sets the threshold.
    pub fn with_max_level(self, level: Level) -> (r: Self)
        ensures
            r.max_level() == level,
            r.record_timings() == self.record_timings(),
    {
        let mut layer = self;
        layer.max_level = level;
        layer
    }

    /// Switches the timings on or off.
    pub fn with_record_timings(self, record_timings: bool) -> (r: Self)
        ensures
            r.record_timings() == record_timings,
            r.max_level() == self.max_level(),
    {
        let mut layer = self;
        layer.record_timings = record_timings;
        layer
    }

    /// The console call for one event: the line goes to the function of the
    /// console that bears the level's name.
    pub fn write_for_level(&self, level: &Level, origin: String, recorder: Recorder) -> (r:
        HostCall)
        ensures
            r@ == console_call(*level, event_line(*level, origin@, recorder@)),
    {
        proof {
            reveal_strlit(" ");
        }
        let mut line = String::from_str(level.name());
        line.append(" ");
        line.append(origin.as_str());
        line.append(" ");
        line.append(recorder.as_str());
        assert(line@ =~= event_line(*level, origin@, recorder@));
        match level {
            Level::Error => HostCall::Error(line),
            Level::Warn => HostCall::Warn(line),
            Level::Info => HostCall::Info(line),
            Level::Debug => HostCall::Debug(line),
            Level::Trace => HostCall::Trace(line),
        }
    }

    /// Whether the framework is to hand spans and events of `level` to the
    /// layer at all.
    pub fn enabled(&self, level: &Level) -> (r: bool)
        ensures
            r == self.allows(*level),
    {
        level.is_within(self.max_level)
    }

    /// Attaches a recorder to a new span and records the attributes that the
    /// span was created with. `extensions` are those of the span, if the
    /// framework still knows it; nothing happens where it does not. A span
    /// that has a recorder already keeps it as it is.
    pub fn on_new_span(&self, attrs: &Vec<Field>, extensions: Option<&mut ExtensionsMut<'_>>)
        ensures
            extensions matches Some(e) ==> attached(*final(e)) == created(
                attached(*e),
                views(attrs@),
            ),
    {
        if let Some(e) = extensions {
            if recorder_mut(e).is_none() {
                let mut recorder = Recorder::new();
                recorder.record_all(attrs);
                insert_recorder(e, recorder);
            }
        }
    }

    /// Adds the values that a span records later to its recorder.
    /// `extensions` are those of the span, if the framework still knows it;
    /// nothing happens where it does not, and nothing where the span has no
    /// recorder.
    pub fn on_record(&self, values: &Vec<Field>, extensions: Option<&mut ExtensionsMut<'_>>)
        ensures
            extensions matches Some(e) ==> attached(*final(e)) == updated(
                attached(*e),
                views(values@),
            ),
    {
        if let Some(e) = extensions {
            if let Some(recorder) = recorder_mut(e) {
                recorder.record_all(values);
            }
        }
    }

    /// The console call for an event that has reached the layer.
    pub fn on_event(&self, event: &Event) -> (r: HostCall)
        ensures
            r@ == event_call(event@),
    {
        let mut recorder = Recorder::new();
        recorder.record_all(&event.fields);
        let file: Option<&str> = match &event.file {
            Some(f) => Some(f.as_str()),
            None => None,
        };
        self.write_for_level(&event.level, format_origin(file, event.line), recorder)
    }

    /// Offers an event to the layer as the framework does: the event reaches
    /// [`BrowserLayer::on_event`] only if its level is enabled, and is dropped
    /// before anything is recorded otherwise.
    pub fn dispatch_event(&self, event: &Event) -> (r: Option<HostCall>)
        ensures
            call_view(r) == self.dispatched(event@),
    {
        if self.enabled(&event.level) {
            Some(self.on_event(event))
        } else {
            None
        }
    }

    /// The mark for a span that is entered. `span` is what the framework
    /// knows of the span, if it still knows it.
    pub fn on_enter(&self, id: u64, span: Option<&Span>) -> (r: Option<HostCall>)
        ensures
            call_view(r) == self.entered(id, span_view(span)),
    {
        if self.record_timings {
            let name: Option<&str> = match span {
                Some(s) => Some(s.name.as_str()),
                None => None,
            };
            Some(HostCall::Mark(format_mark(name, id)))
        } else {
            None
        }
    }

    /// The measure for a span that is left. `span` is what the framework knows
    /// of the span and `extensions` are those of the span, if the framework
    /// still knows it. The extensions stay as they are.
    pub fn on_exit(
        &self,
        id: u64,
        span: Option<&Span>,
        extensions: Option<&mut ExtensionsMut<'_>>,
    ) -> (r: Option<HostCall>)
        ensures
            call_view(r) == self.exited(id, span_view(span), attached_to(extensions)),
            extensions matches Some(e) ==> attached(*final(e)) == attached(*e),
    {
        if !self.record_timings {
            return None;
        }
        match span {
            Some(s) => {
                proof {
                    reveal_strlit("[");
                    reveal_strlit("] ");
                    reveal_strlit(" ");
                    reveal_strlit("...");
                }
                let mut label = String::from_str("[");
                label.append(s.name.as_str());
                label.append("] ");
                match &s.module {
                    Some(m) => label.append(m.as_str()),
                    None => label.append("..."),
                }
                if let Some(e) = extensions {
                    if let Some(recorder) = recorder_mut(e) {
                        label.append(" ");
                        label.append(recorder.as_str());
                    }
                }
                assert(label@ =~= measure_label(s@, attached_to(extensions)));
                Some(HostCall::Measure(label, format_mark(Some(s.name.as_str()), id)))
            },
            None => None,
        }
    }
}

/// An event that is less severe than the threshold of the layer calls nothing
/// on the host. Every other event makes exactly one call: on the function of
/// the console that belongs to the event's own level, with the event's line.
pub proof fn level_gating(layer: BrowserLayer, event: EventView)
    ensures
        event.level.severity() > layer.max_level().severity() ==> layer.dispatched(event) is None,
        event.level.severity() <= layer.max_level().severity() ==> {
            &&& layer.dispatched(event) == Some(event_call(event))
            &&& event_call(event).console_level() == Some(event.level)
        },
{
}

/// The recorder of a span holds what the span was created with and what
/// every later call has recorded: the messages at the head, the most recent
/// first, and behind them the other fields in the order in which they arrived.
pub proof fn span_accumulation(attrs: Seq<FieldView>, calls: Seq<Seq<FieldView>>)
    ensures
        updated_by_all(created(None, attrs), calls) == Some(
            pinned(attrs + joined(calls)) + trailing(attrs + joined(calls)),
        ),
    decreases calls.len(),
{
    let all = attrs + joined(calls);
    field_accumulation(Seq::empty(), all);
    assert(pinned(all) + Seq::<char>::empty() + trailing(all) =~= pinned(all) + trailing(all));
    if calls.len() == 0 {
        assert(all =~= attrs);
    } else {
        let before = attrs + joined(calls.drop_last());
        span_accumulation(attrs, calls.drop_last());
        field_accumulation(Seq::empty(), before);
        recording_in_batches(Seq::empty(), before, calls.last());
        assert(before + calls.last() =~= all);
    }
}

/// While timings are recorded, entering a span makes exactly one call, a
/// mark, whether the framework still knows the span or not. Leaving a span
/// that the framework knows makes exactly one call, a measure, and the measure
/// starts at the mark that entering the same span under the same id has set.
pub proof fn mark_measure_pairing(
    layer: BrowserLayer,
    id: u64,
    span: SpanView,
    recorded: Option<Seq<char>>,
)
    requires
        layer.record_timings(),
    ensures
        layer.entered(id, None) == Some(HostCallView::Mark(mark_name(None, id))),
        layer.entered(id, Some(span)) == Some(HostCallView::Mark(mark_name(Some(span.name), id))),
        layer.exited(id, Some(span), recorded) == Some(
            HostCallView::Measure(measure_label(span, recorded), mark_name(Some(span.name), id)),
        ),
{
}

/// Spans of one name that differ in their id have different marks, so a
/// measure never starts at the mark of another such span.
pub proof fn marks_tell_ids_apart(name: Option<Seq<char>>, a: u64, b: u64)
    requires
        a != b,
    ensures
        mark_name(name, a) != mark_name(name, b),
{
    if mark_name(name, a) == mark_name(name, b) {
        let head = match name {
            Some(n) => seq!['['] + n + seq![']'],
            None => Seq::empty(),
        };
        assert(mark_name(name, a) =~= head + lower_hex(a as nat));
        assert(mark_name(name, b) =~= head + lower_hex(b as nat));
        assert((head + lower_hex(a as nat)).skip(head.len() as int) =~= lower_hex(a as nat));
        assert((head + lower_hex(b as nat)).skip(head.len() as int) =~= lower_hex(b as nat));
        numeral_names_one_number(a as nat, b as nat, 16);
    }
}

/// While timings are not recorded, no span calls the host, whatever happens
/// to it.
pub proof fn timings_toggle(
    layer: BrowserLayer,
    id: u64,
    span: Option<SpanView>,
    recorded: Option<Seq<char>>,
)
    requires
        !layer.record_timings(),
    ensures
        layer.entered(id, span) is None,
        layer.exited(id, span, recorded) is None,
{
}

} // verus!
