//! The change detector: what the watcher remembers between polls, and what
//! one poll makes of what was read.
//!
//! Text and images are two channels that do not touch each other. On each, a
//! reading is reported when it differs from the last one that succeeded. A
//! reading that failed changes nothing and reports nothing, so what the
//! watcher remembers outlives an empty clipboard: content that comes back
//! unchanged after a failure is not reported again.

use crate::codec::{encode, encoding_of, text_seen, CodecError};
use crate::fingerprint::{fingerprint, fingerprint_of};
use crate::payload::{payload_seen, payloads_seen, ClipboardPayload, PayloadKind, PayloadView};
use crate::raw_image::{RawImage, RawImageView};
use vstd::prelude::*;

verus! {

/// The name of the event under which payloads are delivered.
pub const EVENT_NAME: &'static str = "clipboard-changed";

/// The time between two polls, in milliseconds.
pub const POLL_INTERVAL_MS: u64 = 300;

/// Why the clipboard gave no content of the kind asked for. Whatever the
/// reason, the watcher treats the poll as having seen nothing of that kind.
#[derive(Clone, Copy, Debug, PartialEq, Eq, Structural)]
pub enum ClipboardError {
    /// The clipboard holds no content of the kind.
    Empty,
    /// The clipboard could not be reached.
    Unavailable,
    /// The clipboard holds content that cannot be read as the kind.
    Unsupported,
}

/// The text that a reading brought, if it succeeded.
pub open spec fn text_read(reading: Result<String, ClipboardError>) -> Option<Seq<char>> {
    match reading {
        Ok(text) => Some(text@),
        Err(_) => None,
    }
}

/// The image that a reading brought, if it succeeded.
pub open spec fn image_read(reading: Result<RawImage, ClipboardError>) -> Option<RawImageView> {
    match reading {
        Ok(image) => Some(image@),
        Err(_) => None,
    }
}

/// What the watcher remembers: the last text that a reading brought, and the
/// fingerprint of the last image.
#[derive(Clone, Debug, PartialEq, Eq)]
pub struct WatcherState {
    pub last_text: String,
    pub last_image_fingerprint: Option<u64>,
}

/// What a `WatcherState` holds, as plain values.
pub struct WatcherModel {
    pub last_text: Seq<char>,
    pub last_image_fingerprint: Option<u64>,
}

impl View for WatcherState {
    type V = WatcherModel;

    open spec fn view(&self) -> WatcherModel {
        WatcherModel {
            last_text: self.last_text@,
            last_image_fingerprint: self.last_image_fingerprint,
        }
    }
}

impl WatcherModel {
    /// The state before the first poll: the empty text, and no image.
    pub open spec fn initial() -> WatcherModel {
        WatcherModel { last_text: Seq::empty(), last_image_fingerprint: None }
    }

    /// Whether a text reading brings a change: it succeeded, and the text is
    /// not the one remembered.
    pub open spec fn text_changed(self, seen: Option<Seq<char>>) -> bool {
        seen matches Some(text) && text != self.last_text
    }

    /// The state after a text reading.
    pub open spec fn after_text(self, seen: Option<Seq<char>>) -> WatcherModel {
        match seen {
            Some(text) => WatcherModel { last_text: text, ..self },
            None => self,
        }
    }

    /// What a text reading makes the watcher send.
    pub open spec fn text_emission(self, seen: Option<Seq<char>>) -> Option<PayloadView> {
        match seen {
            Some(text) if text != self.last_text => Some(PayloadView::of(PayloadKind::Text, text)),
            _ => None,
        }
    }

    /// Whether a fingerprint is not the one remembered.
    pub open spec fn fingerprint_is_new(self, digest: u64) -> bool {
        self.last_image_fingerprint != Some(digest)
    }

    /// The state after an image of the given fingerprint was read.
    pub open spec fn after_fingerprint(self, digest: u64) -> WatcherModel {
        WatcherModel { last_image_fingerprint: Some(digest), ..self }
    }

    /// Whether an image reading brings a change: it succeeded, and the
    /// fingerprint of the image's bytes is not the one remembered.
    pub open spec fn image_changed(self, seen: Option<RawImageView>) -> bool {
        seen matches Some(image) && self.fingerprint_is_new(fingerprint_of(image.bytes))
    }

    /// The state after an image reading. A new fingerprint is remembered
    /// whether or not the image can be encoded.
    pub open spec fn after_image(self, seen: Option<RawImageView>) -> WatcherModel {
        match seen {
            Some(image) => self.after_fingerprint(fingerprint_of(image.bytes)),
            None => self,
        }
    }

    /// What an image reading makes the watcher send: the encoding of a
    /// changed image, where it has one.
    pub open spec fn image_emission(self, seen: Option<RawImageView>) -> Option<PayloadView> {
        match seen {
            Some(image) if self.fingerprint_is_new(fingerprint_of(image.bytes)) =>
                encoded_emission(encoding_of(image)),
            _ => None,
        }
    }

    /// The state after one poll: the text reading first, then the image
    /// reading.
    pub open spec fn after_poll(
        self,
        text: Option<Seq<char>>,
        image: Option<RawImageView>,
    ) -> WatcherModel {
        self.after_text(text).after_image(image)
    }

    /// What one poll makes the watcher send, in order: the text payload, if
    /// any, and then the image payload, if any.
    pub open spec fn poll_emissions(
        self,
        text: Option<Seq<char>>,
        image: Option<RawImageView>,
    ) -> Seq<PayloadView> {
        in_order(self.text_emission(text), self.after_text(text).image_emission(image))
    }
}

/// The payload for the outcome of encoding a changed image: the encoded
/// image, or nothing where encoding failed.
pub open spec fn encoded_emission(encoded: Result<Seq<char>, CodecError>) -> Option<PayloadView> {
    match encoded {
        Ok(text) => Some(PayloadView::of(PayloadKind::Image, text)),
        Err(_) => None,
    }
}

/// The payloads that are there, the first before the second.
pub open spec fn in_order(first: Option<PayloadView>, second: Option<PayloadView>) -> Seq<
    PayloadView,
> {
    let head = match first {
        Some(p) => seq![p],
        None => Seq::empty(),
    };
    match second {
        Some(p) => head.push(p),
        None => head,
    }
}

/// The payload for the outcome of encoding a changed image: the encoded
/// image, or nothing where encoding failed.
pub fn image_payload(encoded: Result<String, CodecError>) -> (emitted: Option<ClipboardPayload>)
    ensures
        payload_seen(emitted) == encoded_emission(text_seen(encoded)),
{
    match encoded {
        Ok(text) => Some(ClipboardPayload::new(PayloadKind::Image, text)),
        Err(_) => None,
    }
}

impl WatcherState {
    /// The state before the first poll.
    pub fn new() -> (state: WatcherState)
        ensures
            state@ == WatcherModel::initial(),
    {
        WatcherState { last_text: String::new(), last_image_fingerprint: None }
    }

    /// Takes in one text reading. A text that differs from the one remembered
    /// is remembered and returned as a payload. An equal text, or a reading
    /// that failed, changes nothing and returns nothing.
    pub fn observe_text(&mut self, reading: Result<String, ClipboardError>) -> (emitted: Option<
        ClipboardPayload,
    >)
        ensures
            final(self)@ == old(self)@.after_text(text_read(reading)),
            payload_seen(emitted) == old(self)@.text_emission(text_read(reading)),
            emitted is Some <==> old(self)@.text_changed(text_read(reading)),
    {
        match reading {
            Ok(text) => {
                if text != self.last_text {
                    self.last_text = text.clone();
                    Some(ClipboardPayload::new(PayloadKind::Text, text))
                } else {
                    None
                }
            },
            Err(_) => None,
        }
    }

    /// Remembers the fingerprint of an image that was read, and tells whether
    /// it differs from the one remembered before.
    pub fn note_fingerprint(&mut self, digest: u64) -> (fresh: bool)
        ensures
            final(self)@ == old(self)@.after_fingerprint(digest),
            fresh == old(self)@.fingerprint_is_new(digest),
    {
        let fresh = match self.last_image_fingerprint {
            Some(last) => last != digest,
            None => true,
        };
        self.last_image_fingerprint = Some(digest);
        fresh
    }

    /// Takes in one image reading. An image whose fingerprint differs from the
    /// one remembered has its fingerprint remembered and is then encoded; the
    /// encoding, if there is one, is returned as a payload. An image with the
    /// remembered fingerprint, or a reading that failed, changes nothing and
    /// returns nothing.
    pub fn observe_image(&mut self, reading: Result<RawImage, ClipboardError>) -> (emitted: Option<
        ClipboardPayload,
    >)
        ensures
            final(self)@ == old(self)@.after_image(image_read(reading)),
            payload_seen(emitted) == old(self)@.image_emission(image_read(reading)),
            emitted is Some ==> old(self)@.image_changed(image_read(reading)),
            emitted is Some ==> (reading matches Ok(image) && image@.well_sized()
                && image.width > 0 && image.height > 0),
    {
        match reading {
            Ok(image) => {
                let digest = fingerprint(image.bytes.as_slice());
                if self.note_fingerprint(digest) {
                    image_payload(encode(&image))
                } else {
                    None
                }
            },
            Err(_) => None,
        }
    }

    /// One poll: the text reading is taken in, then the image reading. The
    /// payloads to send come back in the order in which they are to be sent,
    /// the text payload before the image payload.
    pub fn poll(
        &mut self,
        text: Result<String, ClipboardError>,
        image: Result<RawImage, ClipboardError>,
    ) -> (emitted: Vec<ClipboardPayload>)
        ensures
            final(self)@ == old(self)@.after_poll(text_read(text), image_read(image)),
            payloads_seen(emitted) == old(self)@.poll_emissions(
                text_read(text),
                image_read(image),
            ),
            emitted@.len() <= 2,
    {
        let mut emitted: Vec<ClipboardPayload> = Vec::new();
        let from_text = self.observe_text(text);
        let ghost first = payload_seen(from_text);
        if let Some(payload) = from_text {
            emitted.push(payload);
        }
        let from_image = self.observe_image(image);
        let ghost second = payload_seen(from_image);
        if let Some(payload) = from_image {
            emitted.push(payload);
        }
        assert(payloads_seen(emitted) =~= in_order(first, second));
        emitted
    }
}

} // verus!
