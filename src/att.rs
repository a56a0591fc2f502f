use vstd::prelude::*;

use crate::cursor::{le16, Cursor};
use crate::peripheral::{CharPropFlags, Characteristic, CharacteristicUUID, ALL_BITS};

verus! {

/// Opcode of the attribute protocol's read-by-type response.
pub const ATT_OP_READ_BY_TYPE_RESP: u8 = 0x09;

/// Record length of a discovery record that carries a 16-bit UUID.
pub const RECORD_LEN_B16: u8 = 7;

/// Record length of a discovery record that carries a 128-bit UUID.
pub const RECORD_LEN_B128: u8 = 21;

/// The end handle given to every discovered characteristic: the response
/// does not carry one, so the range is left open.
pub const OPEN_END_HANDLE: u16 = 0xFFFF;

/// Why a well-formed input was refused.
#[derive(Clone, Copy, Debug, PartialEq, Eq, Structural)]
pub enum ErrorKind {
    /// The expected opcode is not the first byte.
    Tag,
    /// A discovery response declares a record length other than 7 or 21.
    UnsupportedRecordLength,
}

/// The outcome of a parse: the unread rest of the input with the value,
/// the total input length needed to go on, or a structural failure.
#[derive(Debug, PartialEq, Eq)]
pub enum IResult<'a, O> {
    Done(&'a [u8], O),
    Incomplete(usize),
    Error(ErrorKind),
}

/// A read-by-type notification: `opcode | typ | handle | value`.
#[derive(Clone, Copy, Debug, PartialEq, Eq, Structural)]
pub struct NotifyResponse {
    pub typ: u8,
    pub handle: u16,
    pub value: u16,
}

/// The length of one discovery record.
pub open spec fn record_len(b16_uuid: bool) -> int {
    if b16_uuid {
        RECORD_LEN_B16 as int
    } else {
        RECORD_LEN_B128 as int
    }
}

/// `c` is the record that starts at `off` in `b`: handle, properties,
/// value handle and UUID, little-endian, with an open end handle.
pub open spec fn record_matches(c: Characteristic, b: Seq<u8>, off: int, b16_uuid: bool) -> bool {
    &&& c.start_handle == le16(b[off], b[off + 1])
    &&& c.properties.bits == b[off + 2] & ALL_BITS
    &&& c.value_handle == le16(b[off + 3], b[off + 4])
    &&& c.end_handle == OPEN_END_HANDLE
    &&& match c.uuid {
        CharacteristicUUID::B16(u) => b16_uuid && u == le16(b[off + 5], b[off + 6]),
        CharacteristicUUID::B128(u) => !b16_uuid && u@ == b.subrange(off + 5, off + 21),
    }
}

/// The input length a record parse asks for when `len` bytes are too few:
/// the end of the first field that does not fit.
pub open spec fn record_needed(len: int, b16_uuid: bool) -> int {
    if len < 2 {
        2
    } else if len < 3 {
        3
    } else if len < 5 {
        5
    } else {
        record_len(b16_uuid)
    }
}

/// Parses one discovery record at the start of `i`, with a 16-bit UUID when
/// `b16_uuid` holds and a 128-bit one otherwise.
pub fn characteristic(i: &[u8], b16_uuid: bool) -> (r: IResult<'_, Characteristic>)
    ensures
        i@.len() >= record_len(b16_uuid) ==> (r matches IResult::Done(rest, c) && rest@
            == i@.subrange(record_len(b16_uuid), i@.len() as int) && record_matches(
            c,
            i@,
            0,
            b16_uuid,
        )),
        i@.len() < record_len(b16_uuid) ==> r == IResult::<Characteristic>::Incomplete(
            record_needed(i@.len() as int, b16_uuid) as usize,
        ),
{
    let mut cur = Cursor::new(i);
    let start_handle = match cur.read_u16_le() {
        Ok(v) => v,
        Err(n) => return IResult::Incomplete(n),
    };
    let properties = match cur.read_u8() {
        Ok(v) => v,
        Err(n) => return IResult::Incomplete(n),
    };
    let value_handle = match cur.read_u16_le() {
        Ok(v) => v,
        Err(n) => return IResult::Incomplete(n),
    };
    let uuid = if b16_uuid {
        match cur.read_u16_le() {
            Ok(v) => CharacteristicUUID::B16(v),
            Err(n) => return IResult::Incomplete(n),
        }
    } else {
        match cur.read_bytes16() {
            Ok(v) => CharacteristicUUID::B128(v),
            Err(n) => return IResult::Incomplete(n),
        }
    };
    IResult::Done(
        cur.rest(),
        Characteristic {
            start_handle,
            value_handle,
            end_handle: OPEN_END_HANDLE,
            uuid,
            properties: CharPropFlags::from_bits_truncate(properties),
        },
    )
}

/// What `characteristics` returns for the input `b`.
pub open spec fn characteristics_spec<'a>(b: Seq<u8>, r: IResult<'a, Vec<Characteristic>>) -> bool {
    if b.len() == 0 {
        r == IResult::<Vec<Characteristic>>::Incomplete(1)
    } else if b[0] != ATT_OP_READ_BY_TYPE_RESP {
        r matches IResult::Done(rest, v) && rest@.len() == 0 && v@.len() == 0
    } else if b.len() == 1 {
        r == IResult::<Vec<Characteristic>>::Incomplete(2)
    } else if b[1] != RECORD_LEN_B16 && b[1] != RECORD_LEN_B128 {
        r == IResult::<Vec<Characteristic>>::Error(ErrorKind::UnsupportedRecordLength)
    } else {
        let b16_uuid = b[1] == RECORD_LEN_B16;
        let l = b[1] as int;
        let n = (b.len() - 2) / l;
        &&& r matches IResult::Done(rest, v)
        &&& rest@ == b.subrange(2 + n * l, b.len() as int)
        &&& v@.len() == n
        &&& forall|k: int| 0 <= k < n ==> record_matches(#[trigger] v@[k], b, 2 + k * l, b16_uuid)
    }
}

/// The `k`-th of `n == m / l` records of length `l` ends within `m` bytes.
proof fn lemma_record_fits(k: int, n: int, l: int, m: int)
    requires
        0 <= k < n,
        l > 0,
        m >= 0,
        n == m / l,
    ensures
        k * l + l <= m,
        k * l + l == (k + 1) * l,
        k * l >= 0,
{
    vstd::arithmetic::div_mod::lemma_fundamental_div_mod(m, l);
    vstd::arithmetic::mul::lemma_mul_inequality(k + 1, n, l);
    vstd::arithmetic::mul::lemma_mul_is_distributive_add_other_way(l, k, 1);
    vstd::arithmetic::mul::lemma_mul_nonnegative(k, l);
    vstd::arithmetic::div_mod::lemma_mod_pos_bound(m, l);
    assert(n * l == l * n) by {
        vstd::arithmetic::mul::lemma_mul_is_commutative(n, l);
    }
}

/// A record read at the start of a suffix of `b` is the record at the
/// suffix's offset in `b`.
proof fn lemma_record_in_suffix(c: Characteristic, b: Seq<u8>, off: int, b16_uuid: bool)
    requires
        0 <= off,
        off + record_len(b16_uuid) <= b.len(),
        record_matches(c, b.subrange(off, b.len() as int), 0, b16_uuid),
    ensures
        record_matches(c, b, off, b16_uuid),
{
    let s = b.subrange(off, b.len() as int);
    if !b16_uuid {
        assert(s.subrange(5, 21) =~= b.subrange(off + 5, off + 21));
    }
}

/// Parses a discovery response: an opcode, a record length `L`, then
/// `floor(remaining / L)` records. A trailing partial record is left in the
/// rest. A response with another opcode gives no characteristic and
/// consumes the whole input.
pub fn characteristics(i: &[u8]) -> (r: IResult<'_, Vec<Characteristic>>)
    ensures
        characteristics_spec(i@, r),
{
    let mut cur = Cursor::new(i);
    let opcode = match cur.read_u8() {
        Ok(v) => v,
        Err(n) => return IResult::Incomplete(n),
    };
    if opcode != ATT_OP_READ_BY_TYPE_RESP {
        return IResult::Done(vstd::slice::slice_subrange(i, i.len(), i.len()), Vec::new());
    }
    let rec_len = match cur.read_u8() {
        Ok(v) => v,
        Err(n) => return IResult::Incomplete(n),
    };
    let b16_uuid = if rec_len == RECORD_LEN_B16 {
        true
    } else if rec_len == RECORD_LEN_B128 {
        false
    } else {
        return IResult::Error(ErrorKind::UnsupportedRecordLength);
    };
    let mut rest = cur.rest();
    let num: usize = rest.len() / (rec_len as usize);
    let ghost l = rec_len as int;
    let ghost m = i@.len() - 2;
    let mut out: Vec<Characteristic> = Vec::new();
    let mut k: usize = 0;
    while k < num
        invariant
            i@.len() >= 2,
            m == i@.len() - 2,
            l == rec_len as int,
            l == record_len(b16_uuid),
            num == m / l,
            k <= num,
            k * l >= 0,
            rest@ == i@.subrange(2 + k * l, i@.len() as int),
            out@.len() == k,
            forall|j: int| 0 <= j < k ==> record_matches(#[trigger] out@[j], i@, 2 + j * l, b16_uuid),
        decreases num - k,
    {
        proof {
            lemma_record_fits(k as int, num as int, l, m);
        }
        if let IResult::Done(next, c) = characteristic(rest, b16_uuid) {
            proof {
                lemma_record_in_suffix(c, i@, 2 + k * l, b16_uuid);
                assert(next@ =~= i@.subrange(2 + (k + 1) * l, i@.len() as int));
            }
            out.push(c);
            rest = next;
        }
        k = k + 1;
    }
    IResult::Done(rest, out)
}

/// What `notify_response` returns for the input `b`.
pub open spec fn notify_response_spec<'a>(b: Seq<u8>, r: IResult<'a, NotifyResponse>) -> bool {
    if b.len() == 0 {
        r == IResult::<NotifyResponse>::Incomplete(1)
    } else if b[0] != ATT_OP_READ_BY_TYPE_RESP {
        r == IResult::<NotifyResponse>::Error(ErrorKind::Tag)
    } else if b.len() < 6 {
        r == IResult::<NotifyResponse>::Incomplete(
            if b.len() < 2 {
                2
            } else if b.len() < 4 {
                4
            } else {
                6
            },
        )
    } else {
        &&& r matches IResult::Done(rest, n)
        &&& rest@ == b.subrange(6, b.len() as int)
        &&& n == (NotifyResponse { typ: b[1], handle: le16(b[2], b[3]), value: le16(b[4], b[5]) })
    }
}

/// Parses a notification: the read-by-type response opcode, then `typ`,
/// `handle` and `value`, little-endian, six bytes in all.
pub fn notify_response(i: &[u8]) -> (r: IResult<'_, NotifyResponse>)
    ensures
        notify_response_spec(i@, r),
{
    let mut cur = Cursor::new(i);
    let opcode = match cur.read_u8() {
        Ok(v) => v,
        Err(n) => return IResult::Incomplete(n),
    };
    if opcode != ATT_OP_READ_BY_TYPE_RESP {
        return IResult::Error(ErrorKind::Tag);
    }
    let typ = match cur.read_u8() {
        Ok(v) => v,
        Err(n) => return IResult::Incomplete(n),
    };
    let handle = match cur.read_u16_le() {
        Ok(v) => v,
        Err(n) => return IResult::Incomplete(n),
    };
    let value = match cur.read_u16_le() {
        Ok(v) => v,
        Err(n) => return IResult::Incomplete(n),
    };
    IResult::Done(cur.rest(), NotifyResponse { typ, handle, value })
}

/// A discovery response with record length 7 gives `floor((len - 2) / 7)`
/// characteristics, each with a 16-bit UUID and an open end handle.
pub proof fn lemma_b16_records<'a>(b: Seq<u8>, r: IResult<'a, Vec<Characteristic>>)
    requires
        b.len() >= 2,
        b[0] == ATT_OP_READ_BY_TYPE_RESP,
        b[1] == RECORD_LEN_B16,
        characteristics_spec(b, r),
    ensures
        r matches IResult::Done(_, v) && v@.len() == (b.len() - 2) / 7 && forall|k: int|
            0 <= k < v@.len() ==> #[trigger] v@[k].uuid is B16 && v@[k].end_handle
                == OPEN_END_HANDLE,
{
    if let IResult::Done(_, v) = r {
        assert forall|k: int| 0 <= k < v@.len() implies #[trigger] v@[k].uuid is B16
            && v@[k].end_handle == OPEN_END_HANDLE by {
            assert(record_matches(v@[k], b, 2 + k * 7, true));
        }
    }
}

/// A discovery response with record length 21 gives characteristics whose
/// UUIDs are 128-bit values, the sixteen bytes of each record's UUID field.
pub proof fn lemma_b128_records<'a>(b: Seq<u8>, r: IResult<'a, Vec<Characteristic>>)
    requires
        b.len() >= 2,
        b[0] == ATT_OP_READ_BY_TYPE_RESP,
        b[1] == RECORD_LEN_B128,
        characteristics_spec(b, r),
    ensures
        r matches IResult::Done(_, v) && v@.len() == (b.len() - 2) / 21 && forall|k: int|
            0 <= k < v@.len() ==> (#[trigger] v@[k].uuid matches CharacteristicUUID::B128(u)
                && u@ == b.subrange(7 + 21 * k, 23 + 21 * k)),
{
    if let IResult::Done(_, v) = r {
        assert forall|k: int| 0 <= k < v@.len() implies (#[trigger] v@[k].uuid matches CharacteristicUUID::B128(u)
            && u@ == b.subrange(7 + 21 * k, 23 + 21 * k)) by {
            assert(record_matches(v@[k], b, 2 + k * 21, false));
        }
    }
}

/// A response with any opcode but the read-by-type response gives no
/// characteristic and consumes the whole input; it never fails.
pub proof fn lemma_other_opcode<'a>(b: Seq<u8>, r: IResult<'a, Vec<Characteristic>>)
    requires
        b.len() >= 1,
        b[0] != ATT_OP_READ_BY_TYPE_RESP,
        characteristics_spec(b, r),
    ensures
        r matches IResult::Done(rest, v) && rest@.len() == 0 && v@.len() == 0,
{
}

/// A trailing partial record is neither parsed nor an error: it is left,
/// whole, in the rest of the input.
pub proof fn lemma_partial_record_kept<'a>(b: Seq<u8>, r: IResult<'a, Vec<Characteristic>>)
    requires
        b.len() >= 2,
        b[0] == ATT_OP_READ_BY_TYPE_RESP,
        b[1] == RECORD_LEN_B16 || b[1] == RECORD_LEN_B128,
        (b.len() - 2) % (b[1] as int) != 0,
        characteristics_spec(b, r),
    ensures
        r matches IResult::Done(rest, v) && v@.len() == (b.len() - 2) / (b[1] as int) && rest@
            == b.subrange(b.len() - (b.len() - 2) % (b[1] as int), b.len() as int),
{
    let l = b[1] as int;
    let m = b.len() - 2;
    vstd::arithmetic::div_mod::lemma_fundamental_div_mod(m, l);
    vstd::arithmetic::mul::lemma_mul_is_commutative(l, m / l);
}

/// Two records that match the same bytes are the same record.
proof fn lemma_record_unique(c1: Characteristic, c2: Characteristic, b: Seq<u8>, off: int, b16_uuid: bool)
    requires
        record_matches(c1, b, off, b16_uuid),
        record_matches(c2, b, off, b16_uuid),
    ensures
        c1 == c2,
{
    if let CharacteristicUUID::B128(u1) = c1.uuid {
        if let CharacteristicUUID::B128(u2) = c2.uuid {
            assert(u1 =~= u2);
        }
    }
}

/// Decoding a discovery response depends on its bytes alone: two decodings
/// of the same bytes give the same rest and the same characteristics.
pub proof fn lemma_characteristics_deterministic<'a, 'b>(
    b: Seq<u8>,
    r1: IResult<'a, Vec<Characteristic>>,
    r2: IResult<'b, Vec<Characteristic>>,
)
    requires
        characteristics_spec(b, r1),
        characteristics_spec(b, r2),
    ensures
        r1 is Done <==> r2 is Done,
        r1 is Incomplete ==> r1 == IResult::<Vec<Characteristic>>::Incomplete(r2->Incomplete_0),
        r1 is Error ==> r1 == IResult::<Vec<Characteristic>>::Error(r2->Error_0),
        r1 matches IResult::Done(s1, v1) ==> (r2 matches IResult::Done(s2, v2) && s1@ == s2@ && v1@
            == v2@),
{
    if let IResult::Done(s1, v1) = r1 {
        if let IResult::Done(s2, v2) = r2 {
            if b.len() >= 2 && b[0] == ATT_OP_READ_BY_TYPE_RESP {
                let l = b[1] as int;
                let b16_uuid = b[1] == RECORD_LEN_B16;
                assert forall|k: int| 0 <= k < v1@.len() implies v1@[k] == v2@[k] by {
                    lemma_record_unique(v1@[k], v2@[k], b, 2 + k * l, b16_uuid);
                }
            }
            assert(v1@ =~= v2@);
        }
    }
}

/// Decoding a notification depends on its bytes alone.
pub proof fn lemma_notify_response_deterministic<'a, 'b>(
    b: Seq<u8>,
    r1: IResult<'a, NotifyResponse>,
    r2: IResult<'b, NotifyResponse>,
)
    requires
        notify_response_spec(b, r1),
        notify_response_spec(b, r2),
    ensures
        r1 is Done <==> r2 is Done,
        r1 is Incomplete ==> r1 == IResult::<NotifyResponse>::Incomplete(r2->Incomplete_0),
        r1 is Error ==> r1 == IResult::<NotifyResponse>::Error(r2->Error_0),
        r1 matches IResult::Done(s1, n1) ==> (r2 matches IResult::Done(s2, n2) && s1@ == s2@ && n1
            == n2),
{
}

/// The notification `[opcode, t, h_lo, h_hi, v_lo, v_hi]` decodes to
/// `typ == t`, `handle == h`, `value == v`, with nothing left over.
pub proof fn lemma_notify_fields<'a>(t: u8, h: u16, v: u16, b: Seq<u8>, r: IResult<'a, NotifyResponse>)
    requires
        b == seq![ATT_OP_READ_BY_TYPE_RESP, t, (h % 256) as u8, (h / 256) as u8, (v % 256) as u8, (v / 256) as u8],
        notify_response_spec(b, r),
    ensures
        r matches IResult::Done(rest, n) && rest@.len() == 0 && n == (NotifyResponse {
            typ: t,
            handle: h,
            value: v,
        }),
{
}

/// A notification whose first byte is not the read-by-type response opcode
/// fails with a tag mismatch.
pub proof fn lemma_notify_tag_mismatch<'a>(b: Seq<u8>, r: IResult<'a, NotifyResponse>)
    requires
        b.len() >= 1,
        b[0] != ATT_OP_READ_BY_TYPE_RESP,
        notify_response_spec(b, r),
    ensures
        r == IResult::<NotifyResponse>::Error(ErrorKind::Tag),
{
}

} // verus!
