//! The invocation payload: the title, the symbol and the uri of the token, each
//! as one string on the wire, with nothing before, between or after them.

use crate::codec::{read_string, write_string};
use crate::wire::{
    fits_prefix, lemma_parse_cut_frame, lemma_parse_frame, lemma_parsed_frame, parse_string,
    string_frame, MAX_FIELD_BYTES,
};
use vstd::prelude::*;

verus! {

/// The three fields of a payload, in wire order.
#[derive(Clone, Copy, Debug, PartialEq, Eq, Structural)]
pub enum Field {
    Title,
    Symbol,
    Uri,
}

/// The request carried by one invocation.
#[derive(Debug)]
pub struct CreateTokenArgs {
    pub nft_title: String,
    pub nft_symbol: String,
    pub nft_uri: String,
}

/// What a request holds, as text.
pub ghost struct ArgsView {
    pub title: Seq<char>,
    pub symbol: Seq<char>,
    pub uri: Seq<char>,
}

impl View for CreateTokenArgs {
    type V = ArgsView;

    open spec fn view(&self) -> ArgsView {
        ArgsView { title: self.nft_title@, symbol: self.nft_symbol@, uri: self.nft_uri@ }
    }
}

/// Why a payload was refused.
#[derive(Debug)]
pub enum DecodeError {
    /// A field is cut short, announces more bytes than remain, or is not
    /// UTF-8. `cause` is the codec's error, as it came.
    Field { field: Field, cause: std::io::Error },
    /// All three fields were read and bytes remain behind them.
    TrailingBytes,
}

/// Why a request could not be written: a field is longer than a length prefix
/// can announce. `cause` is the codec's error, as it came.
#[derive(Debug)]
pub struct EncodeError {
    pub field: Field,
    pub cause: std::io::Error,
}

impl ArgsView {
    /// Whether every field is short enough to be written with its prefix.
    pub open spec fn fits_wire(self) -> bool {
        fits_prefix(self.title) && fits_prefix(self.symbol) && fits_prefix(self.uri)
    }
}

/// The payload that carries `a`.
pub open spec fn encode_args(a: ArgsView) -> Seq<u8> {
    string_frame(a.title) + string_frame(a.symbol) + string_frame(a.uri)
}

/// The first field that is too long to be written, if there is one.
pub open spec fn first_oversized(a: ArgsView) -> Option<Field> {
    if !fits_prefix(a.title) {
        Some(Field::Title)
    } else if !fits_prefix(a.symbol) {
        Some(Field::Symbol)
    } else if !fits_prefix(a.uri) {
        Some(Field::Uri)
    } else {
        None
    }
}

/// The first field that cannot be read off `b`, if there is one.
pub open spec fn first_unreadable(b: Seq<u8>) -> Option<Field> {
    match parse_string(b) {
        None => Some(Field::Title),
        Some((_, after_title)) => match parse_string(after_title) {
            None => Some(Field::Symbol),
            Some((_, after_symbol)) => match parse_string(after_symbol) {
                None => Some(Field::Uri),
                Some(_) => None,
            },
        },
    }
}

/// The bytes of `b` that follow the three fields, where all three can be read.
pub open spec fn leftover(b: Seq<u8>) -> Seq<u8>
    recommends
        first_unreadable(b) is None,
{
    parse_string(parse_string(parse_string(b).unwrap().1).unwrap().1).unwrap().1
}

/// The request that `b` carries: all three fields can be read and no byte is
/// left behind them.
pub open spec fn decode_args(b: Seq<u8>) -> Option<ArgsView> {
    if first_unreadable(b) is None && leftover(b).len() == 0 {
        let (title, after_title) = parse_string(b).unwrap();
        let (symbol, after_symbol) = parse_string(after_title).unwrap();
        let (uri, _) = parse_string(after_symbol).unwrap();
        Some(ArgsView { title, symbol, uri })
    } else {
        None
    }
}

impl DecodeError {
    /// Whether this is the error that `b` is refused with: it names the first
    /// field that cannot be read, or, where all three can, says that bytes
    /// remain behind them.
    pub open spec fn is_fault_of(self, b: Seq<u8>) -> bool {
        match first_unreadable(b) {
            Some(f) => self matches DecodeError::Field { field, .. } && field == f,
            None => leftover(b).len() > 0 && self is TrailingBytes,
        }
    }
}

impl CreateTokenArgs {
    /// Whether every field is short enough to be written with its prefix.
    pub fn fits_wire(&self) -> (fits: bool)
        ensures
            fits == self@.fits_wire(),
    {
        let title = self.nft_title.as_str().as_bytes();
        let symbol = self.nft_symbol.as_str().as_bytes();
        let uri = self.nft_uri.as_str().as_bytes();
        title.len() <= MAX_FIELD_BYTES && symbol.len() <= MAX_FIELD_BYTES && uri.len()
            <= MAX_FIELD_BYTES
    }

    /// Decodes a payload. The whole buffer must be exactly one request: a
    /// buffer that ends early or goes on behind the third field is refused,
    /// and nothing is returned of the fields read until then.
    pub fn try_from_slice(v: &[u8]) -> (r: Result<CreateTokenArgs, DecodeError>)
        ensures
            match decode_args(v@) {
                Some(a) => r matches Ok(args) && args@ == a && a.fits_wire(),
                None => r matches Err(e) && e.is_fault_of(v@),
            },
    {
        let (title, after_title) = read_string(v);
        let nft_title = match title {
            Ok(s) => s,
            Err(cause) => {
                return Err(DecodeError::Field { field: Field::Title, cause });
            },
        };
        let (symbol, after_symbol) = read_string(after_title);
        let nft_symbol = match symbol {
            Ok(s) => s,
            Err(cause) => {
                return Err(DecodeError::Field { field: Field::Symbol, cause });
            },
        };
        let (uri, rest) = read_string(after_symbol);
        let nft_uri = match uri {
            Ok(s) => s,
            Err(cause) => {
                return Err(DecodeError::Field { field: Field::Uri, cause });
            },
        };
        if rest.len() != 0 {
            return Err(DecodeError::TrailingBytes);
        }
        proof {
            lemma_parsed_frame(v@);
            lemma_parsed_frame(after_title@);
            lemma_parsed_frame(after_symbol@);
        }
        Ok(CreateTokenArgs { nft_title, nft_symbol, nft_uri })
    }

    /// Encodes the request as a payload. A request with a field too long for
    /// its prefix has none.
    pub fn try_to_vec(&self) -> (r: Result<Vec<u8>, EncodeError>)
        ensures
            match first_oversized(self@) {
                Some(f) => r matches Err(e) && e.field == f,
                None => r matches Ok(bytes) && bytes@ == encode_args(self@),
            },
    {
        let mut out: Vec<u8> = Vec::new();
        if let Err(cause) = write_string(&self.nft_title, &mut out) {
            return Err(EncodeError { field: Field::Title, cause });
        }
        if let Err(cause) = write_string(&self.nft_symbol, &mut out) {
            return Err(EncodeError { field: Field::Symbol, cause });
        }
        if let Err(cause) = write_string(&self.nft_uri, &mut out) {
            return Err(EncodeError { field: Field::Uri, cause });
        }
        Ok(out)
    }
}

/// Round trip: a request whose fields fit their prefixes is decoded from its
/// own payload exactly as it was.
pub proof fn lemma_round_trip(a: ArgsView)
    requires
        a.fits_wire(),
    ensures
        decode_args(encode_args(a)) == Some(a),
{
    let (f1, f2, f3) = (string_frame(a.title), string_frame(a.symbol), string_frame(a.uri));
    lemma_parse_frame(a.title, f2 + f3);
    lemma_parse_frame(a.symbol, f3);
    lemma_parse_frame(a.uri, Seq::<u8>::empty());
    assert(f1 + (f2 + f3) =~= encode_args(a));
    assert(f3 + Seq::<u8>::empty() =~= f3);
}

/// A payload that decodes is the encoding of what it decodes to: no two
/// payloads carry the same request.
pub proof fn lemma_payload_is_canonical(b: Seq<u8>)
    requires
        decode_args(b) is Some,
    ensures
        decode_args(b).unwrap().fits_wire(),
        encode_args(decode_args(b).unwrap()) == b,
{
    let (_, after_title) = parse_string(b).unwrap();
    let (_, after_symbol) = parse_string(after_title).unwrap();
    let (uri, _) = parse_string(after_symbol).unwrap();
    lemma_parsed_frame(b);
    lemma_parsed_frame(after_title);
    lemma_parsed_frame(after_symbol);
    assert(string_frame(uri) =~= after_symbol);
}

/// A payload that was cut short is refused, wherever the cut falls.
pub proof fn lemma_truncated_is_refused(a: ArgsView, n: int)
    requires
        a.fits_wire(),
        0 <= n < encode_args(a).len(),
    ensures
        decode_args(encode_args(a).take(n)) is None,
{
    let (f1, f2, f3) = (string_frame(a.title), string_frame(a.symbol), string_frame(a.uri));
    assert(f1 + (f2 + f3) =~= encode_args(a));
    lemma_parse_cut_frame(a.title, f2 + f3, n);
    if n >= f1.len() {
        lemma_parse_cut_frame(a.symbol, f3, n - f1.len());
        if n - f1.len() >= f2.len() {
            assert(f3 + Seq::<u8>::empty() =~= f3);
            lemma_parse_cut_frame(a.uri, Seq::<u8>::empty(), n - f1.len() - f2.len());
        }
    }
}

/// A payload with anything added behind it is refused: the three fields are
/// read, and what was added remains.
pub proof fn lemma_oversized_is_refused(a: ArgsView, extra: Seq<u8>)
    requires
        a.fits_wire(),
        extra.len() > 0,
    ensures
        decode_args(encode_args(a) + extra) is None,
        first_unreadable(encode_args(a) + extra) is None,
        leftover(encode_args(a) + extra) == extra,
{
    let (f1, f2, f3) = (string_frame(a.title), string_frame(a.symbol), string_frame(a.uri));
    assert(f1 + (f2 + f3 + extra) =~= encode_args(a) + extra);
    assert(f2 + (f3 + extra) =~= f2 + f3 + extra);
    lemma_parse_frame(a.title, f2 + f3 + extra);
    lemma_parse_frame(a.symbol, f3 + extra);
    lemma_parse_frame(a.uri, extra);
}

} // verus!
