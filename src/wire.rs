//! Reading the fields of a protobuf-encoded message.
use vstd::prelude::*;
use vstd::slice::slice_subrange;

verus! {

/// Value of base-128 digits, least significant first (the low seven bits of each byte).
pub open spec fn leb128(s: Seq<u8>) -> nat
    decreases s.len(),
{
    if s.len() == 0 {
        0
    } else {
        (s[0] % 128) as nat + 128 * leb128(s.drop_first())
    }
}

/// Length of the varint that starts `s`, looking from byte `j` on: `None` when no final
/// byte comes within ten bytes, or the tenth would overflow 64 bits.
pub open spec fn varint_len_from(s: Seq<u8>, j: nat) -> Option<nat>
    decreases 10 - j,
{
    if j >= 10 || j >= s.len() {
        None
    } else if s[j as int] < 128 {
        if j == 9 && s[j as int] >= 2 {
            None
        } else {
            Some(j + 1)
        }
    } else {
        varint_len_from(s, j + 1)
    }
}

pub open spec fn varint_len(s: Seq<u8>) -> Option<nat> {
    varint_len_from(s, 0)
}

/// Relies on prost::encoding::decode_varint: it reads one varint from the front of the
/// buffer and advances past it; it fails when none ends within ten bytes or the value
/// overflows 64 bits. Returns the value and the number of bytes left after it.
#[verifier::external_body]
fn read_varint(buf: &[u8]) -> (r: Result<(u64, usize), prost::DecodeError>)
    ensures
        match r {
            Ok((v, rest)) => varint_len(buf@) is Some && rest == buf@.len() - varint_len(
                buf@,
            )->0 && v as nat == leb128(buf@.take(varint_len(buf@)->0 as int)),
            Err(_) => varint_len(buf@) is None,
        },
{
    let mut rest: &[u8] = buf;
    match prost::encoding::decode_varint(&mut rest) {
        Ok(v) => Ok((v, rest.len())),
        Err(e) => Err(e),
    }
}

/// Relies on prost::DecodeError::new: an error that carries the given description.
/// prost keeps this constructor public for decoders written by hand, though deprecated.
#[verifier::external_body]
#[allow(deprecated)]
pub(crate) fn decode_failure(description: &'static str) -> (r: prost::DecodeError) {
    prost::DecodeError::new(description)
}

/// What one field carries, by wire type.
pub enum FieldValue {
    Varint(u64),
    Fixed64,
    Delimited(Seq<u8>),
    Fixed32,
}

/// The field at the front of `s`: its tag, what it carries, and how many bytes it takes.
/// Keys above 32 bits, tag 0, group wire types and truncated fields give `None`.
pub open spec fn field_at(s: Seq<u8>) -> Option<(u64, FieldValue, nat)> {
    match varint_len(s) {
        None => None,
        Some(k) => {
            let key = leb128(s.take(k as int));
            let rest = s.skip(k as int);
            if key > u32::MAX || key < 8 {
                None
            } else if key % 8 == 0 {
                match varint_len(rest) {
                    None => None,
                    Some(m) => Some(
                        ((key / 8) as u64, FieldValue::Varint(leb128(rest.take(m as int)) as u64), k + m),
                    ),
                }
            } else if key % 8 == 1 {
                if rest.len() >= 8 {
                    Some(((key / 8) as u64, FieldValue::Fixed64, k + 8))
                } else {
                    None
                }
            } else if key % 8 == 2 {
                match varint_len(rest) {
                    None => None,
                    Some(m) => {
                        let l = leb128(rest.take(m as int));
                        if m + l <= rest.len() {
                            Some(
                                (
                                    (key / 8) as u64,
                                    FieldValue::Delimited(rest.subrange(m as int, (m + l) as int)),
                                    k + m + l,
                                ),
                            )
                        } else {
                            None
                        }
                    }
                }
            } else if key % 8 == 5 {
                if rest.len() >= 4 {
                    Some(((key / 8) as u64, FieldValue::Fixed32, k + 4))
                } else {
                    None
                }
            } else {
                None
            }
        }
    }
}

/// What one field carries, as read from a buffer: a delimited payload is a range of it.
pub enum Payload {
    Varint(u64),
    Fixed64,
    Delimited(usize, usize),
    Fixed32,
}

impl Payload {
    pub open spec fn within(self, s: Seq<u8>) -> bool {
        match self {
            Payload::Delimited(a, b) => a <= b <= s.len(),
            _ => true,
        }
    }

    pub open spec fn value_in(self, s: Seq<u8>) -> FieldValue {
        match self {
            Payload::Varint(v) => FieldValue::Varint(v),
            Payload::Fixed64 => FieldValue::Fixed64,
            Payload::Delimited(a, b) => FieldValue::Delimited(s.subrange(a as int, b as int)),
            Payload::Fixed32 => FieldValue::Fixed32,
        }
    }
}

proof fn lemma_varint_len_bound(s: Seq<u8>, j: nat)
    ensures
        varint_len_from(s, j) matches Some(n) ==> j < n <= s.len() && n <= 10,
    decreases 10 - j,
{
    if j < 10 && j < s.len() && s[j as int] >= 128 {
        lemma_varint_len_bound(s, j + 1);
    }
}

/// Reads the field that starts at `pos`.
pub fn read_field(bytes: &[u8], pos: usize) -> (r: Result<(u64, Payload, usize), prost::DecodeError>)
    requires
        pos < bytes@.len(),
    ensures
        match r {
            Ok((tag, p, next)) => pos < next <= bytes@.len() && p.within(bytes@) && field_at(
                bytes@.skip(pos as int),
            ) == Some((tag, p.value_in(bytes@), (next - pos) as nat)),
            Err(_) => field_at(bytes@.skip(pos as int)) is None,
        },
{
    let len = bytes.len();
    let s0 = slice_subrange(bytes, pos, len);
    assert(s0@ == bytes@.skip(pos as int));
    proof {
        lemma_varint_len_bound(s0@, 0);
    }
    let (key, rest0) = match read_varint(s0) {
        Ok(x) => x,
        Err(e) => {
            return Err(e);
        },
    };
    let ghost k = varint_len(s0@)->0;
    let p1 = len - rest0;
    assert(p1 == pos + k);
    assert(s0@.skip(k as int) =~= bytes@.skip(p1 as int));
    if key > 0xFFFF_FFFFu64 || key < 8 {
        return Err(decode_failure("invalid field key"));
    }
    let tag = key / 8;
    let wire_type = key % 8;
    if wire_type == 0 {
        let s1 = slice_subrange(bytes, p1, len);
        proof {
            lemma_varint_len_bound(s1@, 0);
        }
        match read_varint(s1) {
            Ok((v, rest1)) => Ok((tag, Payload::Varint(v), len - rest1)),
            Err(e) => Err(e),
        }
    } else if wire_type == 1 {
        if len - p1 >= 8 {
            Ok((tag, Payload::Fixed64, p1 + 8))
        } else {
            Err(decode_failure("buffer underflow"))
        }
    } else if wire_type == 2 {
        let s1 = slice_subrange(bytes, p1, len);
        proof {
            lemma_varint_len_bound(s1@, 0);
        }
        match read_varint(s1) {
            Ok((l, rest1)) => {
                let start = len - rest1;
                if l <= rest1 as u64 {
                    let end = start + l as usize;
                    assert(bytes@.skip(p1 as int).subrange(
                        (start - p1) as int,
                        (end - p1) as int,
                    ) =~= bytes@.subrange(start as int, end as int));
                    Ok((tag, Payload::Delimited(start, end), end))
                } else {
                    Err(decode_failure("buffer underflow"))
                }
            },
            Err(e) => Err(e),
        }
    } else if wire_type == 5 {
        if len - p1 >= 4 {
            Ok((tag, Payload::Fixed32, p1 + 4))
        } else {
            Err(decode_failure("buffer underflow"))
        }
    } else {
        Err(decode_failure("invalid wire type"))
    }
}

} // verus!
