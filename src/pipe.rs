use vstd::prelude::*;

verus! {

/// The text that lossy UTF-8 decoding makes of a byte string.
pub uninterp spec fn lossy_utf8(b: Seq<u8>) -> Seq<char>;

/// Relies on `String::from_utf8_lossy`: invalid sequences become U+FFFD, never
/// an error; the text depends on the bytes alone, and no bytes give no text.
#[verifier::external_body]
fn decode_lossy(b: &[u8]) -> (r: String)
    ensures
        r@ == lossy_utf8(b@),
        b@.len() == 0 ==> r@.len() == 0,
{
    String::from_utf8_lossy(b).to_string()
}

/// The decisions of the adapter bound to one data channel: whether it
/// notifies a readiness observer when the channel opens, and how a received
/// message becomes a payload for the application.
#[derive(Clone, Copy, Debug, PartialEq, Eq, Structural)]
pub struct ChannelPipe {
    pub has_observer: bool,
}

impl ChannelPipe {
    pub fn new(has_observer: bool) -> (r: ChannelPipe)
        ensures
            r.has_observer == has_observer,
    {
        ChannelPipe { has_observer }
    }

    /// Whether opening the channel delivers a readiness notification.
    pub fn on_open(&self) -> (notify: bool)
        ensures
            notify == self.has_observer,
    {
        self.has_observer
    }

    /// The text payload that a received message becomes.
    pub fn on_message(&self, msg: &[u8]) -> (r: String)
        ensures
            r@ == lossy_utf8(msg@),
    {
        decode_lossy(msg)
    }
}

} // verus!
