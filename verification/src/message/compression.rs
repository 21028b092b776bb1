//! Compression of rendered messages.
//!
//! The codecs are libflate's: its encoders, and its decoders for
//! non-blocking input, which take a stream block by block in a loop. What
//! this module takes on trust of them is stated at the four functions that
//! call them.

use vstd::prelude::*;
use vstd::slice::slice_to_vec;
use vstd::utf8::encode_utf8;
use crate::errors::Error;
use crate::message::wire_message::{encoding, WireMessage, WireView};

verus! {

/// `std::io::Error`, the failure of libflate's codecs. It is carried, never
/// looked into.
#[verifier::external_type_specification]
#[verifier::external_body]
pub struct ExIoError(std::io::Error);

/// What libflate's gzip decoder for non-blocking input reads from a stream
/// up to its end: the decoded bytes, or nothing where the decoder reports an
/// error.
pub uninterp spec fn gzip_decoded(stream: Seq<u8>) -> Option<Seq<u8>>;

/// What libflate's zlib decoder for non-blocking input reads from a stream
/// up to its end: the decoded bytes, or nothing where the decoder reports an
/// error.
pub uninterp spec fn zlib_decoded(stream: Seq<u8>) -> Option<Seq<u8>>;

/// The stream that libflate's zlib encoder, with its default options, writes
/// for given bytes.
pub uninterp spec fn zlib_encoded(data: Seq<u8>) -> Seq<u8>;

/// Runs libflate's gzip encoder with its default options over the bytes, into
/// a vector: `gzip::Encoder::new`, one `write_all`, `finish`.
///
/// Trusted: the encoder succeeds, and its stream is one that the gzip
/// decoder of the same crate reads back as the bytes that went in. Every
/// failure that the encoder can report is a failed write to its sink, and the
/// sink here is a vector, which takes every write. The stream itself is not
/// named: its header holds the time of the call.
#[verifier::external_body]
fn gzip_encode(data: &[u8]) -> (r: Result<Vec<u8>, std::io::Error>)
    ensures
        r is Ok,
        r matches Ok(stream) ==> gzip_decoded(stream@) == Some(data@),
{
    let mut encoder = libflate::gzip::Encoder::new(Vec::new())?;
    std::io::Write::write_all(&mut encoder, data)?;
    encoder.finish().into_result()
}

/// Runs libflate's zlib encoder with its default options over the bytes, into
/// a vector: `zlib::Encoder::new`, one `write_all`, `finish`.
///
/// Trusted: the encoder succeeds, its stream depends on the bytes alone, and
/// the zlib decoder of the same crate reads the stream back as the bytes that
/// went in. Every failure that the encoder can report is a failed write to
/// its sink, and the sink here is a vector, which takes every write.
#[verifier::external_body]
fn zlib_encode(data: &[u8]) -> (r: Result<Vec<u8>, std::io::Error>)
    ensures
        r is Ok,
        r matches Ok(stream) ==> stream@ == zlib_encoded(data@),
        r matches Ok(stream) ==> zlib_decoded(stream@) == Some(data@),
{
    let mut encoder = libflate::zlib::Encoder::new(Vec::new())?;
    std::io::Write::write_all(&mut encoder, data)?;
    encoder.finish().into_result()
}

/// Runs libflate's gzip decoder for non-blocking input over a stream:
/// `non_blocking::gzip::Decoder::new`, then `read_to_end`.
///
/// Trusted: the outcome depends on the stream alone.
#[verifier::external_body]
fn gzip_decode(stream: &[u8]) -> (r: Result<Vec<u8>, std::io::Error>)
    ensures
        match r {
            Ok(data) => gzip_decoded(stream@) == Some(data@),
            Err(_) => gzip_decoded(stream@) is None,
        },
{
    let mut decoder = libflate::non_blocking::gzip::Decoder::new(stream);
    let mut data = Vec::new();
    std::io::Read::read_to_end(&mut decoder, &mut data)?;
    Ok(data)
}

/// Runs libflate's zlib decoder for non-blocking input over a stream:
/// `non_blocking::zlib::Decoder::new`, then `read_to_end`.
///
/// Trusted: the outcome depends on the stream alone.
#[verifier::external_body]
fn zlib_decode(stream: &[u8]) -> (r: Result<Vec<u8>, std::io::Error>)
    ensures
        match r {
            Ok(data) => zlib_decoded(stream@) == Some(data@),
            Err(_) => zlib_decoded(stream@) is None,
        },
{
    let mut decoder = libflate::non_blocking::zlib::Decoder::new(stream);
    let mut data = Vec::new();
    std::io::Read::read_to_end(&mut decoder, &mut data)?;
    Ok(data)
}

/// The compression algorithms that GELF knows.
#[derive(Clone, Copy, Debug, PartialEq, Eq, Structural)]
pub enum MessageCompression {
    /// The payload is the rendered message itself.
    Uncompressed,
    Gzip,
    Zlib,
}

/// The bytes that a payload stands for under an algorithm, if it is a stream
/// of that algorithm.
pub open spec fn decompressed(algorithm: MessageCompression, payload: Seq<u8>) -> Option<Seq<u8>> {
    match algorithm {
        MessageCompression::Uncompressed => Some(payload),
        MessageCompression::Gzip => gzip_decoded(payload),
        MessageCompression::Zlib => zlib_decoded(payload),
    }
}

/// A payload is a compressed form of some bytes under an algorithm: the bytes
/// themselves without compression; a gzip stream that decodes to them; the
/// zlib stream of them.
pub open spec fn is_compressed_form(
    algorithm: MessageCompression,
    data: Seq<u8>,
    payload: Seq<u8>,
) -> bool {
    match algorithm {
        MessageCompression::Uncompressed => payload == data,
        MessageCompression::Gzip => gzip_decoded(payload) == Some(data),
        MessageCompression::Zlib => payload == zlib_encoded(data) && zlib_decoded(payload) == Some(
            data,
        ),
    }
}

/// What `compress` gives for a wire message under an algorithm: for a message
/// that can be rendered, a compressed form of the UTF-8 bytes of the rendered
/// text; for any other, the failure of rendering.
pub open spec fn compressed_as(
    algorithm: MessageCompression,
    wire: WireView,
    outcome: Result<Vec<u8>, Error>,
) -> bool {
    match outcome {
        Ok(payload) => encoding(wire) matches Ok(json) && is_compressed_form(
            algorithm,
            encode_utf8(json),
            payload@,
        ),
        Err(Error::EncodingFailed(name)) => encoding(wire) == Err::<Seq<char>, Seq<char>>(name@),
        Err(_) => false,
    }
}

/// What `decompress` gives for a payload under an algorithm: the bytes that
/// the payload stands for, or a failure where it is no stream of the
/// algorithm.
pub open spec fn decompressed_as(
    algorithm: MessageCompression,
    payload: Seq<u8>,
    outcome: Result<Vec<u8>, Error>,
) -> bool {
    match outcome {
        Ok(data) => decompressed(algorithm, payload) == Some(data@),
        Err(e) => e == Error::CompressionFailed(algorithm) && decompressed(algorithm, payload)
            is None,
    }
}

/// The name of an algorithm.
pub open spec fn name_of(algorithm: MessageCompression) -> Seq<char> {
    match algorithm {
        MessageCompression::Uncompressed => "none"@,
        MessageCompression::Gzip => "gzip"@,
        MessageCompression::Zlib => "zlib"@,
    }
}

impl MessageCompression {
    /// The default compression algorithm: gzip.
    pub fn default() -> (algorithm: MessageCompression)
        ensures
            algorithm == MessageCompression::Gzip,
    {
        MessageCompression::Gzip
    }

    /// The name of the algorithm, as a failure reports it.
    pub fn name(&self) -> (name: &'static str)
        ensures
            name@ == name_of(*self),
    {
        match self {
            MessageCompression::Uncompressed => "none",
            MessageCompression::Gzip => "gzip",
            MessageCompression::Zlib => "zlib",
        }
    }

    /// What becomes of the outcome of an encoder or a decoder: its bytes are
    /// handed on, and its failure is reported under the algorithm.
    pub fn payload_of(&self, outcome: Result<Vec<u8>, std::io::Error>) -> (r: Result<Vec<u8>, Error>)
        ensures
            match (outcome, r) {
                (Ok(stream), Ok(payload)) => payload@ == stream@,
                (Err(_), Err(e)) => e == Error::CompressionFailed(*self),
                _ => false,
            },
    {
        match outcome {
            Ok(stream) => Ok(stream),
            Err(_) => Err(Error::CompressionFailed(*self)),
        }
    }

    /// Compresses bytes in one go, into memory. Without compression the bytes
    /// come back as they are. An encoder's failure would be reported under
    /// the algorithm; writing into memory, the encoders do not fail.
    pub fn compress_bytes(&self, data: &[u8]) -> (r: Result<Vec<u8>, Error>)
        ensures
            r matches Ok(payload) && is_compressed_form(*self, data@, payload@),
    {
        match self {
            MessageCompression::Uncompressed => Ok(slice_to_vec(data)),
            MessageCompression::Gzip => self.payload_of(gzip_encode(data)),
            MessageCompression::Zlib => self.payload_of(zlib_encode(data)),
        }
    }

    /// Renders a message as GELF and compresses the UTF-8 bytes of the text.
    /// A message that cannot be rendered is reported as such, before any
    /// compression; every other message is compressed.
    pub fn compress(&self, message: &WireMessage) -> (r: Result<Vec<u8>, Error>)
        ensures
            compressed_as(*self, message@, r),
    {
        let json = match message.to_gelf() {
            Ok(json) => json,
            Err(e) => { return Err(e); },
        };
        self.compress_bytes(json.as_str().as_bytes())
    }

    /// Decompresses a payload in one go: the reverse of `compress_bytes`. A
    /// payload that is no stream of the algorithm is reported under the
    /// algorithm.
    pub fn decompress(&self, payload: &[u8]) -> (r: Result<Vec<u8>, Error>)
        ensures
            decompressed_as(*self, payload@, r),
    {
        match self {
            MessageCompression::Uncompressed => Ok(slice_to_vec(payload)),
            MessageCompression::Gzip => self.payload_of(gzip_decode(payload)),
            MessageCompression::Zlib => self.payload_of(zlib_decode(payload)),
        }
    }
}

/// Round trip. Under every algorithm, a wire message that can be rendered
/// is compressed, and decompressing the payload succeeds and gives exactly
/// the UTF-8 bytes of the rendered message.
pub proof fn decompressing_restores_the_rendering(
    algorithm: MessageCompression,
    wire: WireView,
    compressed: Result<Vec<u8>, Error>,
    restored: Result<Vec<u8>, Error>,
)
    requires
        encoding(wire) is Ok,
        compressed_as(algorithm, wire, compressed),
        compressed matches Ok(payload) ==> decompressed_as(algorithm, payload@, restored),
    ensures
        compressed is Ok,
        encoding(wire) matches Ok(json) && restored matches Ok(data) && data@ == encode_utf8(json),
{
}

/// Compressing fails exactly where rendering does, and then with the
/// failure of rendering.
pub proof fn compressing_fails_where_rendering_does(
    algorithm: MessageCompression,
    wire: WireView,
    compressed: Result<Vec<u8>, Error>,
)
    requires
        compressed_as(algorithm, wire, compressed),
    ensures
        compressed is Err <==> encoding(wire) is Err,
        compressed matches Err(e) ==> e matches Error::EncodingFailed(name) && encoding(wire)
            == Err::<Seq<char>, Seq<char>>(name@),
{
}

/// Without compression the payload is the rendered message, byte for byte.
pub proof fn uncompressed_payload_is_the_rendering(wire: WireView, compressed: Result<Vec<u8>, Error>)
    requires
        compressed_as(MessageCompression::Uncompressed, wire, compressed),
    ensures
        encoding(wire) matches Ok(json) ==> compressed matches Ok(payload) && payload@
            == encode_utf8(json),
{
}

} // verus!
