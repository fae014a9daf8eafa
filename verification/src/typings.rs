//! The calls that the layer makes on its host: the five severities of the
//! developer console and the two entry points of the User Timing API.

use crate::level::Level;
use vstd::prelude::*;

verus! {

/// One call on the host, with its arguments.
#[derive(Debug, PartialEq, Eq)]
pub enum HostCall {
    /// `console.error(message)`
    Error(String),
    /// `console.warn(message)`
    Warn(String),
    /// `console.info(message)`
    Info(String),
    /// `console.debug(message)`
    Debug(String),
    /// `console.trace(message)`
    Trace(String),
    /// `performance.mark(name)`
    Mark(String),
    /// `performance.measure(label, start_mark)`
    Measure(String, String),
}

/// What a [`HostCall`] holds.
pub enum HostCallView {
    Error(Seq<char>),
    Warn(Seq<char>),
    Info(Seq<char>),
    Debug(Seq<char>),
    Trace(Seq<char>),
    Mark(Seq<char>),
    Measure(Seq<char>, Seq<char>),
}

impl View for HostCall {
    type V = HostCallView;

    open spec fn view(&self) -> HostCallView {
        match self {
            HostCall::Error(message) => HostCallView::Error(message@),
            HostCall::Warn(message) => HostCallView::Warn(message@),
            HostCall::Info(message) => HostCallView::Info(message@),
            HostCall::Debug(message) => HostCallView::Debug(message@),
            HostCall::Trace(message) => HostCallView::Trace(message@),
            HostCall::Mark(name) => HostCallView::Mark(name@),
            HostCall::Measure(label, start_mark) => HostCallView::Measure(label@, start_mark@),
        }
    }
}

impl HostCallView {
    /// The level whose console function the call goes to, if it goes to the
    /// console at all.
    pub open spec fn console_level(self) -> Option<Level> {
        match self {
            HostCallView::Error(_) => Some(Level::Error),
            HostCallView::Warn(_) => Some(Level::Warn),
            HostCallView::Info(_) => Some(Level::Info),
            HostCallView::Debug(_) => Some(Level::Debug),
            HostCallView::Trace(_) => Some(Level::Trace),
            HostCallView::Mark(_) => None,
            HostCallView::Measure(_, _) => None,
        }
    }
}

/// The call that a layer makes, if it makes one.
pub open spec fn call_view(call: Option<HostCall>) -> Option<HostCallView> {
    match call {
        Some(c) => Some(c@),
        None => None,
    }
}

} // verus!
