//! The type-dispatch decoder: from a column's declared type name and payload to a
//! dynamically typed value.
use crate::json::{
    decode_json, json_accepts, json_decodes, json_same, json_text, json_tree_of,
    lemma_projection_unique, JsonError, JsonValue,
};
use crate::wire::{
    be_bytes, be_int, be_nat, lemma_be_bytes_round_trip, pow256, read_i16, read_i32, read_i64, read_u128, same_text, utf8_text,
};
use vstd::prelude::*;
use vstd::string::StrSliceExecFns;
use vstd::utf8::{decode_utf8, valid_utf8};

verus! {

/// How much the host may rely on an identifier having been generated safely.
#[derive(Debug, Clone, Copy, PartialEq, Eq, Structural)]
pub enum Safety {
    Safe,
    Unsafe,
    Unknown,
}

/// A 128-bit identifier with its safety marker.
#[derive(Debug, Clone, Copy, PartialEq, Eq, Structural)]
pub struct Identifier {
    pub value: u128,
    pub safety: Safety,
}

/// Makes the identifier for a 128-bit integer; its provenance is unknown.
pub fn create_uuid(value: u128) -> (r: Identifier)
    ensures
        r == (Identifier { value, safety: Safety::Unknown }),
{
    Identifier { value, safety: Safety::Unknown }
}

/// One column of one row, as the server sent it.
#[derive(Debug, Clone)]
pub struct WireValue {
    pub declared_type: String,
    pub raw: Vec<u8>,
    pub is_null: bool,
}

/// A decoded column value.
#[derive(Debug, PartialEq)]
pub enum DecodedValue {
    Null,
    Int2(i16),
    Int4(i32),
    Int8(i64),
    Text(String),
    Bool(bool),
    Identifier(Identifier),
    Json(JsonValue),
    /// The elements of a one-dimensional array, in order; a null element is `Null`.
    Array(Vec<DecodedValue>),
    /// The payload of a type the decoder does not know, unchanged.
    Bytes(Vec<u8>),
}

/// Why a payload could not be decoded.
#[derive(Debug, Clone, Copy, PartialEq, Eq, Structural)]
pub enum DecodeError {
    /// A fixed-width payload of the wrong size.
    WrongLength { expected: usize, found: usize },
    InvalidUtf8,
    Json(JsonError),
    /// Array framing that is truncated, inconsistent or followed by extra bytes.
    MalformedArray,
    /// An array of more than one dimension.
    TooManyDimensions,
}

/// The element types the decoder knows.
#[derive(Debug, Clone, Copy, PartialEq, Eq, Structural)]
pub enum ScalarKind {
    Int2,
    Int4,
    Int8,
    Text,
    Bool,
    Uuid,
    Json,
    Jsonb,
}

/// How a declared type is decoded.
#[derive(Debug, Clone, Copy, PartialEq, Eq, Structural)]
pub enum Strategy {
    Scalar(ScalarKind),
    Array(ScalarKind),
    Opaque,
}

/// The registry of scalar type names.
pub open spec fn scalar_kind_of(name: Seq<char>) -> Option<ScalarKind> {
    if name == "int2"@ {
        Some(ScalarKind::Int2)
    } else if name == "int4"@ {
        Some(ScalarKind::Int4)
    } else if name == "int8"@ {
        Some(ScalarKind::Int8)
    } else if name == "text"@ || name == "varchar"@ || name == "char"@ || name == "bpchar"@ {
        Some(ScalarKind::Text)
    } else if name == "bool"@ {
        Some(ScalarKind::Bool)
    } else if name == "uuid"@ {
        Some(ScalarKind::Uuid)
    } else if name == "json"@ {
        Some(ScalarKind::Json)
    } else if name == "jsonb"@ {
        Some(ScalarKind::Jsonb)
    } else {
        None
    }
}

/// A registered scalar name decodes as that scalar; an underscore before one names
/// its array type; every other name falls back to the raw bytes.
pub open spec fn strategy_of(name: Seq<char>) -> Strategy {
    match scalar_kind_of(name) {
        Some(k) => Strategy::Scalar(k),
        None => if name.len() > 0 && name[0] == '_' {
            match scalar_kind_of(name.drop_first()) {
                Some(k) => Strategy::Array(k),
                None => Strategy::Opaque,
            }
        } else {
            Strategy::Opaque
        },
    }
}

/// Whether `r` is what decoding `raw` as a fixed-width value of `width` bytes
/// gives, when the value read is `ok`.
pub open spec fn fixed_width(
    raw: Seq<u8>,
    width: nat,
    r: Result<DecodedValue, DecodeError>,
    ok: bool,
) -> bool {
    if raw.len() == width {
        ok
    } else {
        r == Err::<DecodedValue, DecodeError>(
            DecodeError::WrongLength { expected: width as usize, found: raw.len() as usize },
        )
    }
}

/// What decoding `raw` as a value of kind `k` gives.
pub open spec fn scalar_decodes(k: ScalarKind, raw: Seq<u8>, r: Result<DecodedValue, DecodeError>) -> bool {
    match k {
        ScalarKind::Int2 => fixed_width(
            raw,
            2,
            r,
            r matches Ok(DecodedValue::Int2(v)) && v as int == be_int(raw),
        ),
        ScalarKind::Int4 => fixed_width(
            raw,
            4,
            r,
            r matches Ok(DecodedValue::Int4(v)) && v as int == be_int(raw),
        ),
        ScalarKind::Int8 => fixed_width(
            raw,
            8,
            r,
            r matches Ok(DecodedValue::Int8(v)) && v as int == be_int(raw),
        ),
        ScalarKind::Bool => fixed_width(
            raw,
            1,
            r,
            r == Ok::<DecodedValue, DecodeError>(DecodedValue::Bool(raw[0] != 0)),
        ),
        ScalarKind::Uuid => fixed_width(
            raw,
            16,
            r,
            r == Ok::<DecodedValue, DecodeError>(
                DecodedValue::Identifier(
                    Identifier { value: be_nat(raw) as u128, safety: Safety::Unknown },
                ),
            ),
        ),
        ScalarKind::Text => if valid_utf8(raw) {
            r matches Ok(DecodedValue::Text(s)) && s@ == decode_utf8(raw)
        } else {
            r == Err::<DecodedValue, DecodeError>(DecodeError::InvalidUtf8)
        },
        ScalarKind::Json | ScalarKind::Jsonb => match r {
            Ok(DecodedValue::Json(v)) => json_decodes(raw, k == ScalarKind::Jsonb, Ok(v)),
            Ok(_) => false,
            Err(DecodeError::Json(e)) => json_decodes(raw, k == ScalarKind::Jsonb, Err(e)),
            Err(_) => false,
        },
    }
}

/// Decodes a non-null payload of a registered scalar kind.
pub fn decode_scalar(k: ScalarKind, raw: &[u8]) -> (r: Result<DecodedValue, DecodeError>)
    ensures
        scalar_decodes(k, raw@, r),
{
    match k {
        ScalarKind::Int2 => {
            if raw.len() != 2 {
                return Err(DecodeError::WrongLength { expected: 2, found: raw.len() });
            }
            Ok(DecodedValue::Int2(read_i16(raw)))
        },
        ScalarKind::Int4 => {
            if raw.len() != 4 {
                return Err(DecodeError::WrongLength { expected: 4, found: raw.len() });
            }
            Ok(DecodedValue::Int4(read_i32(raw)))
        },
        ScalarKind::Int8 => {
            if raw.len() != 8 {
                return Err(DecodeError::WrongLength { expected: 8, found: raw.len() });
            }
            Ok(DecodedValue::Int8(read_i64(raw)))
        },
        ScalarKind::Bool => {
            if raw.len() != 1 {
                return Err(DecodeError::WrongLength { expected: 1, found: raw.len() });
            }
            Ok(DecodedValue::Bool(raw[0] != 0))
        },
        ScalarKind::Uuid => {
            if raw.len() != 16 {
                return Err(DecodeError::WrongLength { expected: 16, found: raw.len() });
            }
            Ok(DecodedValue::Identifier(create_uuid(read_u128(raw))))
        },
        ScalarKind::Text => match utf8_text(raw) {
            Some(s) => Ok(DecodedValue::Text(s)),
            None => Err(DecodeError::InvalidUtf8),
        },
        ScalarKind::Json | ScalarKind::Jsonb => {
            let binary = match k {
                ScalarKind::Jsonb => true,
                _ => false,
            };
            match decode_json(raw, binary) {
                Ok(v) => Ok(DecodedValue::Json(v)),
                Err(e) => Err(DecodeError::Json(e)),
            }
        },
    }
}

/// Looks a type name up in the registry of scalar types.
pub fn scalar_kind_for(name: &str) -> (r: Option<ScalarKind>)
    ensures
        r == scalar_kind_of(name@),
{
    if same_text(name, "int2") {
        Some(ScalarKind::Int2)
    } else if same_text(name, "int4") {
        Some(ScalarKind::Int4)
    } else if same_text(name, "int8") {
        Some(ScalarKind::Int8)
    } else if same_text(name, "text") || same_text(name, "varchar") || same_text(name, "char")
        || same_text(name, "bpchar") {
        Some(ScalarKind::Text)
    } else if same_text(name, "bool") {
        Some(ScalarKind::Bool)
    } else if same_text(name, "uuid") {
        Some(ScalarKind::Uuid)
    } else if same_text(name, "json") {
        Some(ScalarKind::Json)
    } else if same_text(name, "jsonb") {
        Some(ScalarKind::Jsonb)
    } else {
        None
    }
}

/// Chooses how a declared type is decoded.
pub fn strategy_for(name: &str) -> (r: Strategy)
    ensures
        r == strategy_of(name@),
{
    match scalar_kind_for(name) {
        Some(k) => Strategy::Scalar(k),
        None => {
            let n = name.unicode_len();
            if n > 0 && name.get_char(0) == '_' {
                let elem = name.substring_char(1, n);
                assert(elem@ =~= name@.drop_first());
                match scalar_kind_for(elem) {
                    Some(k) => Strategy::Array(k),
                    None => Strategy::Opaque,
                }
            } else {
                Strategy::Opaque
            }
        },
    }
}

/// The elements framed in `buf` when it holds exactly `n` of them: each is a
/// four-byte big-endian length, negative for a null element, followed by that
/// many bytes.
pub open spec fn element_frames(buf: Seq<u8>, n: nat) -> Option<Seq<Option<Seq<u8>>>>
    decreases n,
{
    if n == 0 {
        if buf.len() == 0 {
            Some(Seq::empty())
        } else {
            None
        }
    } else if buf.len() < 4 {
        None
    } else {
        let len = be_int(buf.subrange(0, 4));
        let body = buf.subrange(4, buf.len() as int);
        if len < 0 {
            match element_frames(body, (n - 1) as nat) {
                Some(rest) => Some(seq![None].add(rest)),
                None => None,
            }
        } else if len > body.len() {
            None
        } else {
            match element_frames(body.subrange(len, body.len() as int), (n - 1) as nat) {
                Some(rest) => Some(seq![Some(body.subrange(0, len))].add(rest)),
                None => None,
            }
        }
    }
}

/// The dimension count of an array payload, from its header.
pub open spec fn array_dims(raw: Seq<u8>) -> int {
    be_int(raw.subrange(0, 4))
}

/// The elements of a one-dimensional or empty array payload. Its header is the
/// dimension count, a has-nulls flag and the element type; a one-dimensional
/// array then gives its length and lower bound; the elements follow.
pub open spec fn array_frames(raw: Seq<u8>) -> Option<Seq<Option<Seq<u8>>>> {
    if raw.len() < 12 {
        None
    } else if array_dims(raw) == 0 {
        element_frames(raw.subrange(12, raw.len() as int), 0)
    } else if array_dims(raw) == 1 && raw.len() >= 20 && be_int(raw.subrange(12, 16)) >= 0 {
        element_frames(raw.subrange(20, raw.len() as int), be_int(raw.subrange(12, 16)) as nat)
    } else {
        None
    }
}

/// Whether `v` is what an element framed as `frame` decodes to.
pub open spec fn element_decodes(k: ScalarKind, frame: Option<Seq<u8>>, v: DecodedValue) -> bool {
    match frame {
        None => v == DecodedValue::Null,
        Some(b) => scalar_decodes(k, b, Ok(v)),
    }
}

/// Whether an element framed as `frame` fails to decode with `e`.
pub open spec fn element_fails(k: ScalarKind, frame: Option<Seq<u8>>, e: DecodeError) -> bool {
    match frame {
        None => false,
        Some(b) => scalar_decodes(k, b, Err(e)),
    }
}

/// What decoding `raw` as an array of `k` gives: the framing must be sound and
/// consumed to the last byte, and each element decodes by the rule of `k`, in order.
pub open spec fn array_decodes(k: ScalarKind, raw: Seq<u8>, r: Result<DecodedValue, DecodeError>) -> bool {
    match array_frames(raw) {
        None => r == Err::<DecodedValue, DecodeError>(
            if raw.len() >= 12 && array_dims(raw) > 1 {
                DecodeError::TooManyDimensions
            } else {
                DecodeError::MalformedArray
            },
        ),
        Some(frames) => match r {
            Ok(DecodedValue::Array(vs)) => vs@.len() == frames.len() && forall|i: int|
                0 <= i < frames.len() ==> element_decodes(k, #[trigger] frames[i], vs@[i]),
            Ok(_) => false,
            Err(e) => exists|i: int|
                0 <= i < frames.len() && element_fails(k, #[trigger] frames[i], e),
        },
    }
}

/// Reads the four-byte big-endian integer at `pos`.
fn int_at(raw: &[u8], pos: usize) -> (r: i32)
    requires
        pos + 4 <= raw@.len(),
    ensures
        r as int == be_int(raw@.subrange(pos as int, pos + 4)),
{
    let n = raw.len();
    read_i32(vstd::slice::slice_subrange(raw, pos, n - (n - pos - 4)))
}

/// Decodes the `count` elements that start at `start`, which must end the payload.
fn decode_elements(k: ScalarKind, raw: &[u8], start: usize, count: u32) -> (r: Result<
    DecodedValue,
    DecodeError,
>)
    requires
        start <= raw@.len(),
    ensures
        match element_frames(raw@.subrange(start as int, raw@.len() as int), count as nat) {
            None => r == Err::<DecodedValue, DecodeError>(DecodeError::MalformedArray),
            Some(frames) => match r {
                Ok(DecodedValue::Array(vs)) => vs@.len() == frames.len() && forall|i: int|
                    0 <= i < frames.len() ==> element_decodes(k, #[trigger] frames[i], vs@[i]),
                Ok(_) => false,
                Err(e) => exists|i: int|
                    0 <= i < frames.len() && element_fails(k, #[trigger] frames[i], e),
            },
        },
{
    let ghost all = raw@.subrange(start as int, raw@.len() as int);
    let ghost mut done: Seq<Option<Seq<u8>>> = Seq::empty();
    let mut out: Vec<DecodedValue> = Vec::new();
    let mut pos = start;
    let mut i: u32 = 0;
    // Elements whose payload fails to decode are remembered until the framing is known sound.
    let mut failure: Option<DecodeError> = None;
    let ghost mut failed_at: int = 0;
    while i < count
        invariant
            start <= pos <= raw@.len(),
            i <= count,
            all == raw@.subrange(start as int, raw@.len() as int),
            done.len() == i,
            match element_frames(raw@.subrange(pos as int, raw@.len() as int), (count - i) as nat) {
                Some(rest) => element_frames(all, count as nat) == Some(done.add(rest)),
                None => element_frames(all, count as nat) is None,
            },
            failure is None ==> out@.len() == i && forall|j: int|
                0 <= j < i ==> element_decodes(k, #[trigger] done[j], out@[j]),
            failure matches Some(e) ==> 0 <= failed_at < i && element_fails(k, done[failed_at], e),
        decreases count - i,
    {
        let ghost buf = raw@.subrange(pos as int, raw@.len() as int);
        if raw.len() - pos < 4 {
            return Err(DecodeError::MalformedArray);
        }
        let len = int_at(raw, pos);
        assert(buf.subrange(0, 4) =~= raw@.subrange(pos as int, pos + 4));
        let ghost body = buf.subrange(4, buf.len() as int);
        assert(body =~= raw@.subrange(pos + 4, raw@.len() as int));
        if len < 0 {
            pos = pos + 4;
            proof {
                match element_frames(raw@.subrange(pos as int, raw@.len() as int), (count - i - 1) as nat) {
                    Some(rest) => {
                        assert(done.push(None).add(rest) =~= done.add(seq![None].add(rest)));
                    },
                    None => {},
                }
                done = done.push(None);
            }
            if failure.is_none() {
                out.push(DecodedValue::Null);
            }
        } else {
            let n = len as usize;
            if n > raw.len() - pos - 4 {
                return Err(DecodeError::MalformedArray);
            }
            let item = vstd::slice::slice_subrange(raw, pos + 4, pos + 4 + n);
            assert(item@ =~= body.subrange(0, len as int));
            pos = pos + 4 + n;
            assert(body.subrange(len as int, body.len() as int) =~= raw@.subrange(pos as int, raw@.len() as int));
            proof {
                match element_frames(raw@.subrange(pos as int, raw@.len() as int), (count - i - 1) as nat) {
                    Some(rest) => {
                        assert(done.push(Some(item@)).add(rest) =~= done.add(seq![Some(item@)].add(rest)));
                    },
                    None => {},
                }
                done = done.push(Some(item@));
            }
            if failure.is_none() {
                match decode_scalar(k, item) {
                    Ok(v) => out.push(v),
                    Err(e) => {
                        failure = Some(e);
                        proof {
                            failed_at = i as int;
                        }
                    },
                }
            }
        }
        i = i + 1;
    }
    if pos != raw.len() {
        assert(raw@.subrange(pos as int, raw@.len() as int).len() > 0);
        return Err(DecodeError::MalformedArray);
    }
    assert(raw@.subrange(pos as int, raw@.len() as int) =~= Seq::<u8>::empty());
    assert(done.add(Seq::empty()) =~= done);
    match failure {
        Some(e) => Err(e),
        None => Ok(DecodedValue::Array(out)),
    }
}

/// Decodes a non-null array payload whose elements are of kind `k`.
pub fn decode_array(k: ScalarKind, raw: &[u8]) -> (r: Result<DecodedValue, DecodeError>)
    ensures
        array_decodes(k, raw@, r),
{
    if raw.len() < 12 {
        return Err(DecodeError::MalformedArray);
    }
    let dims = int_at(raw, 0);
    if dims == 0 {
        decode_elements(k, raw, 12, 0)
    } else if dims == 1 {
        if raw.len() < 20 {
            return Err(DecodeError::MalformedArray);
        }
        let count = int_at(raw, 12);
        if count < 0 {
            return Err(DecodeError::MalformedArray);
        }
        decode_elements(k, raw, 20, count as u32)
    } else if dims > 1 {
        Err(DecodeError::TooManyDimensions)
    } else {
        Err(DecodeError::MalformedArray)
    }
}

/// What decoding a column value gives.
pub open spec fn decodes(w: WireValue, r: Result<DecodedValue, DecodeError>) -> bool {
    if w.is_null {
        r == Ok::<DecodedValue, DecodeError>(DecodedValue::Null)
    } else {
        match strategy_of(w.declared_type@) {
            Strategy::Scalar(k) => scalar_decodes(k, w.raw@, r),
            Strategy::Array(k) => array_decodes(k, w.raw@, r),
            Strategy::Opaque => r matches Ok(DecodedValue::Bytes(b)) && b@ == w.raw@,
        }
    }
}

/// Decodes one column value. A null is `Null` whatever its type; a registered
/// type decodes by its rule; any other type gives its payload unchanged.
pub fn decode(w: &WireValue) -> (r: Result<DecodedValue, DecodeError>)
    ensures
        decodes(*w, r),
        w.is_null ==> r == Ok::<DecodedValue, DecodeError>(DecodedValue::Null),
        !w.is_null && strategy_of(w.declared_type@) == Strategy::Opaque ==> (r matches Ok(
            DecodedValue::Bytes(b)) && b@ == w.raw@),
{
    if w.is_null {
        return Ok(DecodedValue::Null);
    }
    match strategy_for(w.declared_type.as_str()) {
        Strategy::Scalar(k) => decode_scalar(k, w.raw.as_slice()),
        Strategy::Array(k) => decode_array(k, w.raw.as_slice()),
        Strategy::Opaque => Ok(DecodedValue::Bytes(w.raw.clone())),
    }
}

/// The declared type of a value that falls back to its raw bytes, for the caller
/// to record; `None` for a value that decodes by a registered rule or is null.
pub fn fallback_type(w: &WireValue) -> (r: Option<String>)
    ensures
        r is Some <==> !w.is_null && strategy_of(w.declared_type@) == Strategy::Opaque,
        r matches Some(t) ==> t@ == w.declared_type@,
{
    if w.is_null {
        return None;
    }
    match strategy_for(w.declared_type.as_str()) {
        Strategy::Opaque => Some(w.declared_type.clone()),
        _ => None,
    }
}

/// Two decoding outcomes that hold the same value: texts with the same characters,
/// JSON documents with the same values, everything else equal.
pub open spec fn same_outcome(a: Result<DecodedValue, DecodeError>, b: Result<DecodedValue, DecodeError>) -> bool {
    match (a, b) {
        (Ok(DecodedValue::Text(x)), Ok(DecodedValue::Text(y))) => x@ == y@,
        (Ok(DecodedValue::Json(x)), Ok(DecodedValue::Json(y))) => json_same(x, y),
        _ => a == b,
    }
}

/// Decoding a scalar is deterministic: the same kind and payload always give the
/// same value or the same error.
pub proof fn lemma_scalar_decode_deterministic(
    k: ScalarKind,
    raw: Seq<u8>,
    r1: Result<DecodedValue, DecodeError>,
    r2: Result<DecodedValue, DecodeError>,
)
    requires
        scalar_decodes(k, raw, r1),
        scalar_decodes(k, raw, r2),
    ensures
        same_outcome(r1, r2),
{
    if k == ScalarKind::Json || k == ScalarKind::Jsonb {
        let binary = k == ScalarKind::Jsonb;
        if let Some(t) = json_text(raw, binary) {
            if json_accepts(t) {
                lemma_projection_unique(json_tree_of(t), r1->Ok_0->Json_0, r2->Ok_0->Json_0);
            }
        }
    }
}

/// An identifier written as sixteen big-endian bytes decodes to the integer it was
/// written from, with an unknown safety marker.
pub proof fn lemma_uuid_round_trip(x: u128, r: Result<DecodedValue, DecodeError>)
    requires
        scalar_decodes(ScalarKind::Uuid, be_bytes(x as nat, 16), r),
    ensures
        r == Ok::<DecodedValue, DecodeError>(
            DecodedValue::Identifier(Identifier { value: x, safety: Safety::Unknown }),
        ),
{
    reveal_with_fuel(pow256, 17);
    assert(pow256(16) == 0x1_0000_0000_0000_0000_0000_0000_0000_0000);
    lemma_be_bytes_round_trip(x as nat, 16);
}

} // verus!
