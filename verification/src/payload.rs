//! The notification that goes out when the clipboard has changed.

use vstd::prelude::*;

verus! {

/// The two kinds of content that the watcher reports.
#[derive(Clone, Copy, Debug, PartialEq, Eq, Structural)]
pub enum PayloadKind {
    Text,
    Image,
}

impl PayloadKind {
    /// The word that names the kind in a payload.
    pub open spec fn label(self) -> Seq<char> {
        match self {
            PayloadKind::Text => "text"@,
            PayloadKind::Image => "image"@,
        }
    }

    /// The word that names the kind in a payload: `"text"` or `"image"`.
    pub fn as_str(self) -> (word: &'static str)
        ensures
            word@ == self.label(),
    {
        match self {
            PayloadKind::Text => "text",
            PayloadKind::Image => "image",
        }
    }
}

/// The two kinds have different labels, so a payload's label tells its kind.
pub proof fn lemma_labels_differ(a: PayloadKind, b: PayloadKind)
    ensures
        a.label() == b.label() <==> a == b,
{
    reveal_strlit("text");
    reveal_strlit("image");
    assert("text"@.len() != "image"@.len());
}

/// One notification: the kind of the new content, by its label, and the
/// content itself. For text the content is the text; for an image it is the
/// image as a base64-encoded PNG.
#[derive(Clone, Debug, PartialEq, Eq)]
pub struct ClipboardPayload {
    pub kind: String,
    pub content: String,
}

/// What a payload holds, as plain values.
pub struct PayloadView {
    pub kind: Seq<char>,
    pub content: Seq<char>,
}

impl PayloadView {
    /// The payload of the given kind and content.
    pub open spec fn of(kind: PayloadKind, content: Seq<char>) -> PayloadView {
        PayloadView { kind: kind.label(), content }
    }
}

impl View for ClipboardPayload {
    type V = PayloadView;

    open spec fn view(&self) -> PayloadView {
        PayloadView { kind: self.kind@, content: self.content@ }
    }
}

impl ClipboardPayload {
    /// Makes the payload of the given kind and content.
    pub fn new(kind: PayloadKind, content: String) -> (payload: ClipboardPayload)
        ensures
            payload@ == PayloadView::of(kind, content@),
    {
        ClipboardPayload { kind: kind.as_str().to_owned(), content }
    }
}

/// What an optional payload holds.
pub open spec fn payload_seen(payload: Option<ClipboardPayload>) -> Option<PayloadView> {
    match payload {
        Some(p) => Some(p@),
        None => None,
    }
}

/// What a list of payloads holds, in order.
pub open spec fn payloads_seen(payloads: Vec<ClipboardPayload>) -> Seq<PayloadView> {
    Seq::new(payloads@.len(), |i: int| payloads@[i]@)
}

} // verus!
