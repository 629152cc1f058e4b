//! What holds of the watcher from one poll to the next.
//!
//! The statements are over `WatcherModel` and the readings as plain values,
//! the terms in which the watcher's functions are specified: `None` is a
//! reading that failed.

use crate::codec::{encoding_of, CodecError};
use crate::fingerprint::fingerprint_of;
use crate::payload::{lemma_labels_differ, PayloadKind, PayloadView};
use crate::raw_image::RawImageView;
use crate::watcher::WatcherModel;
use vstd::prelude::*;

verus! {

/// A poll that reads what the poll before it read sends nothing and changes
/// nothing, whatever the state before the first of the two was.
pub proof fn lemma_repeated_poll_is_silent(
    state: WatcherModel,
    text: Option<Seq<char>>,
    image: Option<RawImageView>,
)
    ensures
        state.after_poll(text, image).poll_emissions(text, image) == Seq::<PayloadView>::empty(),
        state.after_poll(text, image).after_poll(text, image) == state.after_poll(text, image),
{
}

/// Two texts read one after the other, the first not the remembered one and
/// the second not the first, are each sent, in that order, as text payloads
/// with the texts as their contents. An image reading in between does not
/// matter.
pub proof fn lemma_changed_texts_are_sent_in_turn(
    state: WatcherModel,
    a: Seq<char>,
    b: Seq<char>,
    image: Option<RawImageView>,
)
    requires
        a != state.last_text,
        a != b,
    ensures
        state.text_emission(Some(a)) == Some(PayloadView::of(PayloadKind::Text, a)),
        state.after_poll(Some(a), image).text_emission(Some(b)) == Some(
            PayloadView::of(PayloadKind::Text, b),
        ),
        state.after_poll(Some(a), image).after_text(Some(b)).last_text == b,
        state.poll_emissions(Some(a), None) == seq![PayloadView::of(PayloadKind::Text, a)],
        state.after_poll(Some(a), None).poll_emissions(Some(b), None) == seq![
            PayloadView::of(PayloadKind::Text, b),
        ],
{
}

/// From the start, any two different texts of which the first is not empty
/// are each sent, in that order.
pub proof fn lemma_first_texts_are_sent_in_turn(a: Seq<char>, b: Seq<char>)
    requires
        a.len() > 0,
        a != b,
    ensures
        WatcherModel::initial().text_emission(Some(a)) == Some(
            PayloadView::of(PayloadKind::Text, a),
        ),
        WatcherModel::initial().after_text(Some(a)).text_emission(Some(b)) == Some(
            PayloadView::of(PayloadKind::Text, b),
        ),
{
}

/// An image with the bytes of the one read before is not sent again, whatever
/// its dimensions are.
pub proof fn lemma_same_bytes_are_not_sent_again(
    state: WatcherModel,
    first: RawImageView,
    second: RawImageView,
)
    requires
        first.bytes == second.bytes,
    ensures
        fingerprint_of(first.bytes) == fingerprint_of(second.bytes),
        state.after_image(Some(first)).image_emission(Some(second)) is None,
{
}

/// Readings that fail send nothing and leave the state as it was.
pub proof fn lemma_failed_readings_change_nothing(state: WatcherModel)
    ensures
        state.after_poll(None, None) == state,
        state.poll_emissions(None, None) == Seq::<PayloadView>::empty(),
{
}

/// What the watcher remembers is not cleared by failure: a text that was
/// read, and is read again after any number of polls in which the text
/// reading failed, is not sent again.
pub proof fn lemma_text_is_not_sent_again_after_failures(
    state: WatcherModel,
    text: Seq<char>,
    images: Seq<Option<RawImageView>>,
)
    ensures
        after_failed_text_polls(state.after_text(Some(text)), images).text_emission(Some(text))
            is None,
        after_failed_text_polls(state.after_text(Some(text)), images).last_text == text,
    decreases images.len(),
{
    if images.len() > 0 {
        let before = after_failed_text_polls(state.after_text(Some(text)), images.drop_last());
        lemma_text_is_not_sent_again_after_failures(state, text, images.drop_last());
        assert(after_failed_text_polls(state.after_text(Some(text)), images)
            == before.after_poll(None, images.last()));
    }
}

/// The state after a run of polls in each of which the text reading failed
/// and the image reading was the one given.
pub open spec fn after_failed_text_polls(
    state: WatcherModel,
    images: Seq<Option<RawImageView>>,
) -> WatcherModel
    decreases images.len(),
{
    if images.len() == 0 {
        state
    } else {
        after_failed_text_polls(state, images.drop_last()).after_poll(None, images.last())
    }
}

/// An image whose buffer does not fit its dimensions is never sent. Its
/// fingerprint is remembered all the same.
pub proof fn lemma_mismatched_image_is_not_sent(state: WatcherModel, image: RawImageView)
    requires
        !image.well_sized(),
    ensures
        encoding_of(image) == Err::<Seq<char>, CodecError>(CodecError::DimensionMismatch),
        state.image_emission(Some(image)) is None,
        state.after_image(Some(image)).last_image_fingerprint == Some(fingerprint_of(image.bytes)),
{
}

/// An image without pixels is never sent: no PNG can hold it.
pub proof fn lemma_image_without_pixels_is_not_sent(state: WatcherModel, image: RawImageView)
    requires
        image.width == 0 || image.height == 0,
    ensures
        encoding_of(image) is Err,
        state.image_emission(Some(image)) is None,
{
}

/// An image that cannot be encoded is tried once: after the poll that read
/// it, the same image sends nothing, for its fingerprint is remembered.
pub proof fn lemma_failed_encoding_is_not_tried_again(state: WatcherModel, image: RawImageView)
    requires
        encoding_of(image) is Err,
    ensures
        state.image_emission(Some(image)) is None,
        !state.after_image(Some(image)).image_changed(Some(image)),
{
}

/// A poll in which both the text and the image have changed, and the image
/// can be encoded, sends two payloads: the text first, the image second.
pub proof fn lemma_text_is_sent_before_image(
    state: WatcherModel,
    text: Seq<char>,
    image: RawImageView,
)
    requires
        state.text_changed(Some(text)),
        state.image_changed(Some(image)),
        encoding_of(image) is Ok,
    ensures
        state.poll_emissions(Some(text), Some(image)) == seq![
            PayloadView::of(PayloadKind::Text, text),
            PayloadView::of(PayloadKind::Image, encoding_of(image)->Ok_0),
        ],
{
}

/// A poll sends at most one payload of each kind, and a payload of a kind
/// only where the content of that kind has changed; a text payload comes
/// before an image payload.
pub proof fn lemma_at_most_one_payload_of_each_kind(
    state: WatcherModel,
    text: Option<Seq<char>>,
    image: Option<RawImageView>,
    i: int,
    j: int,
)
    requires
        0 <= i < j < state.poll_emissions(text, image).len(),
    ensures
        state.poll_emissions(text, image).len() == 2,
        i == 0 && j == 1,
        state.poll_emissions(text, image)[i].kind == PayloadKind::Text.label(),
        state.poll_emissions(text, image)[j].kind == PayloadKind::Image.label(),
        state.poll_emissions(text, image)[i].kind != state.poll_emissions(text, image)[j].kind,
        state.text_changed(text),
        state.image_changed(image),
{
    lemma_labels_differ(PayloadKind::Text, PayloadKind::Image);
}

} // verus!
