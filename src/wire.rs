use vstd::prelude::*;
use vstd::slice::slice_subrange;
use vstd::slice::slice_to_vec;

use crate::error::ContractError;

verus! {

/// What one base-128 varint at the front of `b` decodes to: its value and the
/// number of bytes left after it, or `None` where the front is no varint.
pub uninterp spec fn varint_split(b: Seq<u8>) -> Option<(u64, nat)>;

/// Relies on prost::encoding::decode_varint: it reads one varint from the front
/// of the buffer, consuming at least one byte, and fails on an empty buffer.
#[verifier::external_body]
fn read_varint(b: &[u8]) -> (r: Result<(u64, usize), prost::DecodeError>)
    ensures
        r is Ok <==> varint_split(b@) is Some,
        r matches Ok((v, n)) ==> varint_split(b@) == Some((v, n as nat)) && n < b@.len(),
{
    let mut buf: &[u8] = b;
    match prost::encoding::decode_varint(&mut buf) {
        Ok(v) => Ok((v, buf.len())),
        Err(e) => Err(e),
    }
}

/// Relies on std::str::from_utf8: it succeeds exactly on well-formed UTF-8.
#[verifier::external_body]
fn is_utf8(b: &[u8]) -> (r: bool)
    ensures
        r == vstd::utf8::valid_utf8(b@),
{
    std::str::from_utf8(b).is_ok()
}

/// Wire type of a varint field.
pub const WIRE_VARINT: u64 = 0;

/// Wire type of a length-delimited field.
pub const WIRE_LEN: u64 = 2;

/// One balance record of a query result, as bytes: the account it belongs
/// to, the denomination, and the amount.
pub struct BalanceEntry {
    pub recipient: Vec<u8>,
    pub denom: Vec<u8>,
    pub amount: u64,
}

/// A balance record as plain values.
pub struct EntryView {
    pub recipient: Seq<u8>,
    pub denom: Seq<u8>,
    pub amount: u64,
}

impl View for BalanceEntry {
    type V = EntryView;

    open spec fn view(&self) -> EntryView {
        EntryView { recipient: self.recipient@, denom: self.denom@, amount: self.amount }
    }
}

/// A varint at the front of `b` and the bytes after it.
pub open spec fn take_varint(b: Seq<u8>) -> Option<(u64, Seq<u8>)> {
    match varint_split(b) {
        Some((v, n)) => if n < b.len() {
            Some((v, b.skip(b.len() - n)))
        } else {
            None
        },
        None => None,
    }
}

/// A length-delimited field body at the front of `b` and the bytes after it.
pub open spec fn take_delimited(b: Seq<u8>) -> Option<(Seq<u8>, Seq<u8>)> {
    match take_varint(b) {
        Some((n, t)) => if n <= t.len() {
            Some((t.take(n as int), t.skip(n as int)))
        } else {
            None
        },
        None => None,
    }
}

pub open spec fn empty_entry() -> EntryView {
    EntryView { recipient: Seq::empty(), denom: Seq::empty(), amount: 0 }
}

/// The fields of one balance record: 1 the recipient and 2 the denomination,
/// both UTF-8 text, and 3 the amount as a varint. A later field overrides an
/// earlier one of the same number; any other field makes the record malformed.
pub open spec fn parse_entry(b: Seq<u8>, e: EntryView) -> Option<EntryView>
    decreases b.len(),
{
    if b.len() == 0 {
        Some(e)
    } else {
        match take_varint(b) {
            None => None,
            Some((key, t)) => if t.len() >= b.len() {
                None
            } else if key == 3 * 8 + WIRE_VARINT {
                match take_varint(t) {
                    Some((v, t2)) => if t2.len() < b.len() {
                        parse_entry(t2, EntryView { amount: v, ..e })
                    } else {
                        None
                    },
                    None => None,
                }
            } else if key == 1 * 8 + WIRE_LEN || key == 2 * 8 + WIRE_LEN {
                match take_delimited(t) {
                    Some((s, t2)) => if !vstd::utf8::valid_utf8(s) || t2.len() >= b.len() {
                        None
                    } else if key == 1 * 8 + WIRE_LEN {
                        parse_entry(t2, EntryView { recipient: s, ..e })
                    } else {
                        parse_entry(t2, EntryView { denom: s, ..e })
                    },
                    None => None,
                }
            } else {
                None
            },
        }
    }
}

/// A balance query result: a message whose only field, number 1, is a
/// repeated embedded balance record.
pub open spec fn parse_entries(b: Seq<u8>) -> Option<Seq<EntryView>>
    decreases b.len(),
{
    if b.len() == 0 {
        Some(Seq::empty())
    } else {
        match take_varint(b) {
            Some((key, t)) => if key != 1 * 8 + WIRE_LEN {
                None
            } else {
                match take_delimited(t) {
                    Some((body, t2)) => if t2.len() >= b.len() {
                        None
                    } else {
                        match (parse_entry(body, empty_entry()), parse_entries(t2)) {
                            (Some(e), Some(es)) => Some(seq![e] + es),
                            _ => None,
                        }
                    },
                    None => None,
                }
            },
            None => None,
        }
    }
}

fn next_varint(b: &[u8]) -> (r: Result<(u64, &[u8]), ContractError>)
    ensures
        match take_varint(b@) {
            Some((v, t)) => r matches Ok((v2, t2)) && v2 == v && t2@ == t,
            None => r matches Err(e) && e is ProstProtobuf,
        },
        r matches Ok((v, t)) ==> t@.len() < b@.len(),
{
    match read_varint(b) {
        Ok((v, n)) => {
            let t = slice_subrange(b, b.len() - n, b.len());
            assert(t@ =~= b@.skip(b@.len() - n));
            Ok((v, t))
        },
        Err(e) => Err(ContractError::from_decode_error(&e)),
    }
}

fn next_delimited(b: &[u8]) -> (r: Result<(&[u8], &[u8]), ContractError>)
    ensures
        match take_delimited(b@) {
            Some((s, t)) => r matches Ok((s2, t2)) && s2@ == s && t2@ == t,
            None => r matches Err(e) && e is ProstProtobuf,
        },
{
    let (n, t) = next_varint(b)?;
    if n > t.len() as u64 {
        return Err(ContractError::ProstProtobuf(String::from_str("buffer underflow")));
    }
    let k = n as usize;
    let s = slice_subrange(t, 0, k);
    let t2 = slice_subrange(t, k, t.len());
    assert(s@ =~= t@.take(k as int));
    assert(t2@ =~= t@.skip(k as int));
    Ok((s, t2))
}

fn decode_entry(b: &[u8]) -> (r: Result<BalanceEntry, ContractError>)
    ensures
        match parse_entry(b@, empty_entry()) {
            Some(e) => r matches Ok(x) && x@ == e,
            None => r matches Err(e) && e is ProstProtobuf,
        },
{
    let mut entry = BalanceEntry { recipient: Vec::new(), denom: Vec::new(), amount: 0 };
    let mut rest: &[u8] = b;
    assert(entry@ =~= empty_entry());
    while rest.len() > 0
        invariant
            parse_entry(b@, empty_entry()) == parse_entry(rest@, entry@),
        decreases rest@.len(),
    {
        let (key, t) = next_varint(rest)?;
        if key == 3 * 8 + WIRE_VARINT {
            let (v, t2) = next_varint(t)?;
            entry.amount = v;
            rest = t2;
        } else if key == 1 * 8 + WIRE_LEN || key == 2 * 8 + WIRE_LEN {
            let (s, t2) = next_delimited(t)?;
            if !is_utf8(s) {
                return Err(ContractError::ProstProtobuf(String::from_str("invalid string value")));
            }
            if key == 1 * 8 + WIRE_LEN {
                entry.recipient = slice_to_vec(s);
            } else {
                entry.denom = slice_to_vec(s);
            }
            rest = t2;
        } else {
            return Err(ContractError::ProstProtobuf(String::from_str("unexpected field")));
        }
    }
    Ok(entry)
}

/// Decodes every balance record of a query result, in order.
pub fn decode_balance_entries(b: &[u8]) -> (r: Result<Vec<BalanceEntry>, ContractError>)
    ensures
        match parse_entries(b@) {
            Some(es) => r matches Ok(v) && v@.len() == es.len() && forall|i: int|
                0 <= i < es.len() ==> #[trigger] v@[i]@ == es[i],
            None => r matches Err(e) && e is ProstProtobuf,
        },
{
    let mut out: Vec<BalanceEntry> = Vec::new();
    let mut rest: &[u8] = b;
    while rest.len() > 0
        invariant
            parse_entries(b@) == match parse_entries(rest@) {
                Some(es) => Some(out@.map_values(|x: BalanceEntry| x@) + es),
                None => None,
            },
        decreases rest@.len(),
    {
        let (key, t) = next_varint(rest)?;
        if key != 1 * 8 + WIRE_LEN {
            return Err(ContractError::ProstProtobuf(String::from_str("unexpected field")));
        }
        let (body, t2) = next_delimited(t)?;
        let e = decode_entry(body)?;
        proof {
            let old_out = out@.map_values(|x: BalanceEntry| x@);
            match parse_entries(t2@) {
                Some(es) => {
                    assert(old_out + (seq![e@] + es) =~= old_out.push(e@) + es);
                },
                None => {},
            }
        }
        let ghost prev = out@;
        out.push(e);
        proof {
            assert(out@.map_values(|x: BalanceEntry| x@) =~= prev.map_values(|x: BalanceEntry| x@).push(out@.last()@));
        }
        rest = t2;
    }
    proof {
        assert(out@.map_values(|x: BalanceEntry| x@) + Seq::<EntryView>::empty() =~= out@.map_values(|x: BalanceEntry| x@));
    }
    Ok(out)
}

/// The identifier carried by a register-query response: a message whose one
/// field, number 1, is a varint; a later occurrence overrides an earlier one,
/// and an absent field means 0.
pub open spec fn parse_register_reply(b: Seq<u8>, id: u64) -> Option<u64>
    decreases b.len(),
{
    if b.len() == 0 {
        Some(id)
    } else {
        match take_varint(b) {
            Some((key, t)) => if key != 1 * 8 + WIRE_VARINT || t.len() >= b.len() {
                None
            } else {
                match take_varint(t) {
                    Some((v, t2)) => if t2.len() < b.len() {
                        parse_register_reply(t2, v)
                    } else {
                        None
                    },
                    None => None,
                }
            },
            None => None,
        }
    }
}

/// Reads the query identifier from the data of a register-query response;
/// absent or empty data is its own failure.
pub fn decode_register_reply(data: Option<&[u8]>) -> (r: Result<u64, ContractError>)
    ensures
        match data {
            None => r == Err::<u64, ContractError>(ContractError::EmptyInterchainQueryResult),
            Some(b) => if b@.len() == 0 {
                r == Err::<u64, ContractError>(ContractError::EmptyInterchainQueryResult)
            } else {
                match parse_register_reply(b@, 0) {
                    Some(id) => r == Ok::<u64, ContractError>(id),
                    None => r matches Err(e) && e is ProstProtobuf,
                }
            },
        },
{
    let b = match data {
        Some(b) => b,
        None => return Err(ContractError::EmptyInterchainQueryResult),
    };
    if b.len() == 0 {
        return Err(ContractError::EmptyInterchainQueryResult);
    }
    let mut id: u64 = 0;
    let mut rest: &[u8] = b;
    while rest.len() > 0
        invariant
            data == Some(b),
            b@.len() > 0,
            parse_register_reply(b@, 0) == parse_register_reply(rest@, id),
        decreases rest@.len(),
    {
        let (key, t) = next_varint(rest)?;
        if key != 1 * 8 + WIRE_VARINT {
            return Err(ContractError::ProstProtobuf(String::from_str("unexpected field")));
        }
        let (v, t2) = next_varint(t)?;
        id = v;
        rest = t2;
    }
    Ok(id)
}

} // verus!
