//! How a generated response reaches the channel: inline, or as a file when it
//! is longer than one message may be.
use vstd::prelude::*;
use vstd::slice::slice_to_vec;
use vstd::string::StringSliceAdditionalSpecFns;
use vstd::utf8::encode_utf8;

verus! {

/// Discord's limit on the length of one message, held here against the bytes
/// of its UTF-8 text.
pub const MESSAGE_LIMIT: usize = 2000;

/// The name of the attachment that carries a long response.
pub open spec fn attachment_name() -> Seq<char> {
    "response.txt"@
}

/// The message sent along with a long response.
pub open spec fn attachment_caption() -> Seq<char> {
    "My response is too long for Discord, so I'm sending it to you as a file:"@
}

/// A file sent to a channel, with a caption.
pub struct FileDelivery {
    pub data: Vec<u8>,
    pub filename: String,
    pub caption: String,
}

/// What is sent to the channel for one response.
pub enum Delivery {
    Inline(String),
    File(FileDelivery),
}

pub enum DeliveryView {
    Inline(Seq<char>),
    File { data: Seq<u8>, filename: Seq<char>, caption: Seq<char> },
}

impl View for Delivery {
    type V = DeliveryView;

    open spec fn view(&self) -> DeliveryView {
        match self {
            Delivery::Inline(t) => DeliveryView::Inline(t@),
            Delivery::File(f) => DeliveryView::File {
                data: f.data@,
                filename: f.filename@,
                caption: f.caption@,
            },
        }
    }
}

/// The length of `text` as Discord counts it here: the bytes of its UTF-8 form.
pub open spec fn byte_len(text: Seq<char>) -> nat {
    encode_utf8(text).len()
}

/// The delivery of a response text: the text itself where it fits in one
/// message, else its UTF-8 bytes as `response.txt` under a fixed caption.
pub open spec fn delivery_of(text: Seq<char>) -> DeliveryView {
    if byte_len(text) <= MESSAGE_LIMIT {
        DeliveryView::Inline(text)
    } else {
        DeliveryView::File {
            data: encode_utf8(text),
            filename: attachment_name(),
            caption: attachment_caption(),
        }
    }
}

/// Chooses how `text` is delivered.
pub fn plan_delivery(text: String) -> (r: Delivery)
    ensures
        r@ == delivery_of(text@),
{
    let bytes: &[u8] = text.as_str().as_bytes();
    if bytes.len() <= MESSAGE_LIMIT {
        Delivery::Inline(text)
    } else {
        let data: Vec<u8> = slice_to_vec(bytes);
        let filename: String = "response.txt".to_owned();
        let caption: String =
            "My response is too long for Discord, so I'm sending it to you as a file:".to_owned();
        Delivery::File(FileDelivery { data, filename, caption })
    }
}

} // verus!
