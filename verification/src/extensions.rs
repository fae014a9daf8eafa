//! The extensions of a span: the storage that the registry keeps for each
//! span, in which the layer keeps the span's recorder.

use crate::console::Recorder;
use tracing_subscriber::registry::ExtensionsMut;
use vstd::prelude::*;

verus! {

/// `tracing_subscriber::registry::ExtensionsMut`: exclusive access to the
/// extensions of one span, which hold at most one value of each type.
#[verifier::external_type_specification]
#[verifier::external_body]
pub struct ExExtensionsMut<'a>(ExtensionsMut<'a>);

/// The text of the recorder that the extensions hold, if they hold one.
pub uninterp spec fn attached(extensions: ExtensionsMut<'_>) -> Option<Seq<char>>;

/// The text of the recorder of a span, where the span was found and has one.
pub open spec fn attached_to(extensions: Option<&mut ExtensionsMut<'_>>) -> Option<Seq<char>> {
    match extensions {
        Some(e) => attached(*e),
        None => None,
    }
}

/// `ExtensionsMut::insert` with a recorder: the extensions then hold it. The
/// method panics where they hold a recorder already.
#[verifier::external_body]
pub(crate) fn insert_recorder(extensions: &mut ExtensionsMut<'_>, recorder: Recorder)
    requires
        attached(*old(extensions)) is None,
    ensures
        attached(*final(extensions)) == Some(recorder@),
{
    extensions.insert(recorder)
}

/// `ExtensionsMut::get_mut` for the recorder: a mutable reference to the
/// recorder that the extensions hold, or nothing where they hold none. What
/// is written through the reference is what the extensions hold afterwards.
#[verifier::external_body]
pub(crate) fn recorder_mut<'a, 'b>(extensions: &'a mut ExtensionsMut<'b>) -> (r: Option<
    &'a mut Recorder,
>)
    ensures
        attached(*old(extensions)) == (match r {
            Some(found) => Some(found@),
            None => None,
        }),
        attached(*final(extensions)) == (match r {
            Some(found) => Some(final(found)@),
            None => None,
        }),
{
    extensions.get_mut::<Recorder>()
}

} // verus!
