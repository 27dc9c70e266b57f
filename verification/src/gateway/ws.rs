//! Turning what the socket yields into a payload, a pause, or a failure.

use flate2::read::ZlibDecoder;
use std::io::Read;
use vstd::prelude::*;

verus! {

/// How long one receive waits for a frame before it reports that nothing came,
/// in milliseconds.
pub const TIMEOUT_MILLIS: u64 = 500;

/// The text buffer for a compressed frame starts at this multiple of the
/// compressed size.
pub const DECOMPRESSION_MULTIPLIER: usize = 3;

/// The limits that a connection puts on what it accepts and queues. `None`
/// stands for no limit.
#[derive(Debug, Clone, Copy, PartialEq, Eq, Structural)]
pub struct FramePolicy {
    pub max_message_size: Option<usize>,
    pub max_frame_size: Option<usize>,
    pub max_send_queue: Option<usize>,
    /// Whether frames that the peer did not mask are taken.
    pub accept_unmasked_frames: bool,
}

/// The policy of every gateway connection: no cap on messages, frames or the
/// send queue, and no unmasked frames.
pub open spec fn spec_frame_policy() -> FramePolicy {
    FramePolicy {
        max_message_size: None,
        max_frame_size: None,
        max_send_queue: None,
        accept_unmasked_frames: false,
    }
}

/// The policy with which a connection is opened.
pub fn frame_policy() -> (policy: FramePolicy)
    ensures
        policy == spec_frame_policy(),
{
    FramePolicy {
        max_message_size: None,
        max_frame_size: None,
        max_send_queue: None,
        accept_unmasked_frames: false,
    }
}

/// The code and reason that a peer gives when it closes the connection.
#[derive(Debug, Clone, PartialEq, Eq)]
pub struct CloseFrame {
    pub code: u16,
    pub reason: String,
}

/// One message as the transport delivers it.
#[derive(Debug, Clone, PartialEq, Eq)]
pub enum Frame {
    Text(String),
    Binary(Vec<u8>),
    Ping(Vec<u8>),
    Pong(Vec<u8>),
    Close(Option<CloseFrame>),
    /// A bare protocol frame, which a reading socket does not normally hand out.
    Raw,
}

/// What one bounded wait on the socket came back with.
#[derive(Debug)]
pub enum Polled<E> {
    /// The wait ran out before a frame arrived.
    TimedOut,
    /// The stream has no more frames.
    Ended,
    /// The transport failed.
    Failed(E),
    Frame(Frame),
}

/// The text of one inbound envelope, ready to be decoded.
#[derive(Debug, Clone, PartialEq, Eq)]
pub struct Payload {
    pub text: String,
    /// The compressed bytes that `text` was inflated from, if it came in a
    /// binary frame; kept so that a decoding failure can be diagnosed.
    pub compressed: Option<Vec<u8>>,
}

/// Why a receive produced no payload and must be reported to the driver.
#[derive(Debug)]
pub enum RecvError<E> {
    /// The transport failed; the error is handed on untouched.
    Transport(E),
    /// A binary frame did not inflate to text. `bytes` is the frame as received.
    Decompression { bytes: Vec<u8>, cause: std::io::Error },
    /// The peer closed the connection and said why.
    Closed(CloseFrame),
}

/// A payload that did not decode. The connection itself is still good.
#[derive(Debug)]
pub struct DecodeError<D> {
    /// The payload as it was received, for diagnosis.
    pub payload: Payload,
    /// What the decoder objected to.
    pub cause: D,
}

/// `std::io::Error`, which the decoder fails with. It is only carried
/// through: nothing is read out of it here.
#[verifier::external_type_specification]
#[verifier::external_body]
pub struct ExIoError(std::io::Error);

/// `String::with_capacity` makes an empty string; it panics where asked for
/// more than `isize::MAX` bytes.
pub assume_specification[ String::with_capacity ](capacity: usize) -> (text: String)
    requires
        capacity <= isize::MAX,
    ensures
        text@ == Seq::<char>::empty(),
;

/// The text that the zlib decoder reads out of `bytes`, or `None` where it
/// fails: because the stream is corrupt or cut short, or because what it
/// inflates to is not UTF-8.
pub uninterp spec fn zlib_text(bytes: Seq<u8>) -> Option<Seq<char>>;

/// Runs `flate2::read::ZlibDecoder` over `bytes` and reads it to the end into
/// `text`, which must be empty. The decoder reads nothing but `bytes`, so
/// whether it succeeds, and the text it yields, depend on `bytes` alone: that
/// text is what `zlib_text` names. Nothing is claimed of `text` after a
/// failure.
#[verifier::external_body]
fn inflate(bytes: &[u8], text: &mut String) -> (read: Result<usize, std::io::Error>)
    requires
        old(text)@.len() == 0,
    ensures
        match read {
            Ok(_) => zlib_text(bytes@) == Some(final(text)@),
            Err(_) => zlib_text(bytes@).is_none(),
        },
{
    ZlibDecoder::new(bytes).read_to_string(text)
}

/// The room to reserve for the text of a compressed frame of `compressed_len`
/// bytes: three times its size, or nothing where that is more than a buffer can
/// ever hold.
pub open spec fn spec_text_capacity(compressed_len: usize) -> usize {
    if compressed_len * DECOMPRESSION_MULTIPLIER <= isize::MAX {
        (compressed_len * DECOMPRESSION_MULTIPLIER) as usize
    } else {
        0
    }
}

pub fn text_capacity(compressed_len: usize) -> (capacity: usize)
    ensures
        capacity == spec_text_capacity(compressed_len),
        capacity <= isize::MAX,
{
    if compressed_len <= (isize::MAX as usize) / DECOMPRESSION_MULTIPLIER {
        compressed_len * DECOMPRESSION_MULTIPLIER
    } else {
        0
    }
}

/// What a binary frame comes to once it has been inflated: its text as a
/// payload that remembers the compressed bytes, or a decompression error that
/// carries the frame as it was received.
pub open spec fn spec_inflated_payload<E>(
    bytes: Vec<u8>,
    inflated: Result<String, std::io::Error>,
) -> Result<Option<Payload>, RecvError<E>> {
    match inflated {
        Ok(text) => Ok(Some(Payload { text, compressed: Some(bytes) })),
        Err(cause) => Err(RecvError::Decompression { bytes, cause }),
    }
}

/// Settles a binary frame from the outcome of inflating it. A failure is never
/// swallowed: it is returned together with the offending bytes.
pub fn inflated_payload<E>(bytes: Vec<u8>, inflated: Result<String, std::io::Error>) -> (outcome:
    Result<Option<Payload>, RecvError<E>>)
    ensures
        outcome == spec_inflated_payload::<E>(bytes, inflated),
{
    match inflated {
        Ok(text) => Ok(Some(Payload { text, compressed: Some(bytes) })),
        Err(cause) => Err(RecvError::Decompression { bytes, cause }),
    }
}

/// Whether `outcome` is what receiving the binary frame `bytes` must give:
/// the inflated text where the bytes are a zlib stream of text, and a
/// decompression error holding exactly `bytes` where they are not.
pub open spec fn binary_outcome<E>(
    bytes: Vec<u8>,
    outcome: Result<Option<Payload>, RecvError<E>>,
) -> bool {
    match zlib_text(bytes@) {
        Some(text) => outcome matches Ok(Some(payload)) && payload.text@ == text
            && payload.compressed == Some(bytes),
        None => outcome matches Err(RecvError::Decompression { bytes: kept, .. }) && kept == bytes,
    }
}

/// Whether `outcome` is what one receive must report for `polled`.
///
/// - nothing arrived in time, or the stream ended: no payload, no error;
/// - the transport failed: that error, unchanged;
/// - a text frame: its text;
/// - a binary frame: see [`binary_outcome`];
/// - a close frame with a reason: the reason, as an error;
/// - any other frame: no payload, no error.
pub open spec fn recv_outcome<E>(
    polled: Polled<E>,
    outcome: Result<Option<Payload>, RecvError<E>>,
) -> bool {
    match polled {
        Polled::TimedOut | Polled::Ended => outcome == Ok::<Option<Payload>, RecvError<E>>(None),
        Polled::Failed(error) => outcome == Err::<Option<Payload>, RecvError<E>>(
            RecvError::Transport(error),
        ),
        Polled::Frame(Frame::Text(text)) => outcome == Ok::<Option<Payload>, RecvError<E>>(
            Some(Payload { text, compressed: None }),
        ),
        Polled::Frame(Frame::Binary(bytes)) => binary_outcome(bytes, outcome),
        Polled::Frame(Frame::Close(Some(frame))) => outcome == Err::<
            Option<Payload>,
            RecvError<E>,
        >(RecvError::Closed(frame)),
        Polled::Frame(_) => outcome == Ok::<Option<Payload>, RecvError<E>>(None),
    }
}

/// Decides what one bounded wait on the socket amounts to. A binary frame is
/// taken to be zlib-compressed text and is inflated here; every other case is
/// settled by the kind of frame alone.
pub fn recv_payload<E>(polled: Polled<E>) -> (outcome: Result<Option<Payload>, RecvError<E>>)
    ensures
        recv_outcome(polled, outcome),
{
    match polled {
        Polled::TimedOut | Polled::Ended => Ok(None),
        Polled::Failed(error) => Err(RecvError::Transport(error)),
        Polled::Frame(frame) => match frame {
            Frame::Text(text) => Ok(Some(Payload { text, compressed: None })),
            Frame::Binary(bytes) => {
                let mut text = String::with_capacity(text_capacity(bytes.len()));
                let inflated = match inflate(bytes.as_slice(), &mut text) {
                    Ok(_) => Ok(text),
                    Err(cause) => Err(cause),
                };
                inflated_payload(bytes, inflated)
            },
            Frame::Close(Some(frame)) => Err(RecvError::Closed(frame)),
            _ => Ok(None),
        },
    }
}

/// What a payload comes to once the decoder has seen it: the decoded event,
/// or the decoder's objection together with the payload it objected to.
pub open spec fn spec_decoded_event<T, D>(payload: Payload, decoded: Result<T, D>) -> Result<
    Option<T>,
    DecodeError<D>,
> {
    match decoded {
        Ok(event) => Ok(Some(event)),
        Err(cause) => Err(DecodeError { payload, cause }),
    }
}

/// Settles a payload from the outcome of decoding it. A failure carries the
/// whole payload, text and compressed bytes, so that it can be diagnosed
/// without asking for the frame again.
pub fn decoded_event<T, D>(payload: Payload, decoded: Result<T, D>) -> (outcome: Result<
    Option<T>,
    DecodeError<D>,
>)
    ensures
        outcome == spec_decoded_event(payload, decoded),
{
    match decoded {
        Ok(event) => Ok(Some(event)),
        Err(cause) => Err(DecodeError { payload, cause }),
    }
}

/// A binary frame whose bytes inflate to some text is received as the text
/// frame with that text would be, but for the compressed bytes it remembers.
pub proof fn lemma_binary_frame_is_its_text<E>(
    bytes: Vec<u8>,
    text: String,
    binary: Result<Option<Payload>, RecvError<E>>,
    plain: Result<Option<Payload>, RecvError<E>>,
)
    requires
        zlib_text(bytes@) == Some(text@),
        recv_outcome(Polled::<E>::Frame(Frame::Binary(bytes)), binary),
        recv_outcome(Polled::<E>::Frame(Frame::Text(text)), plain),
    ensures
        binary matches Ok(Some(from_binary)) && plain matches Ok(Some(from_text))
            && from_binary.text@ == from_text.text@,
{
}

/// A binary frame that does not inflate is always reported, with every byte
/// of the frame kept.
pub proof fn lemma_corrupt_frame_keeps_its_bytes<E>(
    bytes: Vec<u8>,
    outcome: Result<Option<Payload>, RecvError<E>>,
)
    requires
        zlib_text(bytes@).is_none(),
        recv_outcome(Polled::<E>::Frame(Frame::Binary(bytes)), outcome),
    ensures
        outcome matches Err(RecvError::Decompression { bytes: kept, .. }) && kept@ == bytes@
            && kept@.len() == bytes@.len(),
{
}

} // verus!
