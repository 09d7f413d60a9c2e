//! Inbound frames as the transport hands them over, and the step from a frame
//! to its text.

use vstd::prelude::*;

verus! {

/// Why a single inbound frame was dropped.
#[derive(Clone, Copy, Debug, PartialEq, Eq, Structural)]
pub enum FrameError {
    /// A binary frame did not inflate to UTF-8 text.
    Decompress,
    /// The text is not the JSON of an envelope.
    Malformed,
}

/// A data frame read from the transport.
#[derive(Clone, Debug, PartialEq, Eq)]
pub enum Frame {
    /// A text frame: the JSON of one envelope.
    Text(String),
    /// A binary frame: the same JSON, deflated in a zlib stream.
    Binary(Vec<u8>),
}

/// What a frame holds.
pub enum FrameView {
    Text(Seq<char>),
    Binary(Seq<u8>),
}

impl View for Frame {
    type V = FrameView;

    open spec fn view(&self) -> FrameView {
        match self {
            Frame::Text(text) => FrameView::Text(text@),
            Frame::Binary(bytes) => FrameView::Binary(bytes@),
        }
    }
}

/// The text that the zlib stream at the head of `data` inflates to; `None`
/// where `data` begins with no complete zlib stream or what the stream holds
/// is not UTF-8.
pub uninterp spec fn zlib_inflated(data: Seq<u8>) -> Option<Seq<char>>;

/// The text that a frame carries, or why it carries none.
pub open spec fn frame_text(frame: FrameView) -> Result<Seq<char>, FrameError> {
    match frame {
        FrameView::Text(text) => Ok(text),
        FrameView::Binary(bytes) => match zlib_inflated(bytes) {
            Some(text) => Ok(text),
            None => Err(FrameError::Decompress),
        },
    }
}

/// Reads `data` to its end through `flate2::read::ZlibDecoder` with
/// `std::io::Read::read_to_string`. Trusted: the result is what
/// `zlib_inflated` names.
#[verifier::external_body]
fn inflate(data: &[u8]) -> (text: Option<String>)
    ensures
        match text {
            Some(inflated) => zlib_inflated(data@) == Some(inflated@),
            None => zlib_inflated(data@).is_none(),
        },
{
    let mut decoder = flate2::read::ZlibDecoder::new(data);
    let mut output = String::new();
    match std::io::Read::read_to_string(&mut decoder, &mut output) {
        Ok(_) => Some(output),
        Err(_) => None,
    }
}

/// Inflates the payload of a binary frame into text. The whole stream is
/// consumed before any of it is used; a stream that fails costs only its frame.
pub fn decompress_zlib(data: &[u8]) -> (text: Result<String, FrameError>)
    ensures
        match text {
            Ok(inflated) => zlib_inflated(data@) == Some(inflated@),
            Err(error) => error == FrameError::Decompress && zlib_inflated(data@).is_none(),
        },
{
    match inflate(data) {
        Some(inflated) => Ok(inflated),
        None => Err(FrameError::Decompress),
    }
}

} // verus!
