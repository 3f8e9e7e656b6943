use vstd::prelude::*;

use crate::error::ContractError;
use crate::registry::InterchainQuery;
use crate::wire::decode_balance_entries;
use crate::wire::parse_entries;
use crate::wire::BalanceEntry;
use crate::wire::EntryView;
use vstd::utf8::encode_utf8;

verus! {

/// A balance read from a query result.
#[derive(Debug, Clone, PartialEq, Eq)]
pub struct DecodedBalance {
    pub denom: String,
    pub amount: u128,
    pub recipient: String,
}

/// The amount of the first record of `es` for this denomination and
/// recipient, both given as UTF-8 bytes.
pub open spec fn first_match(es: Seq<EntryView>, denom: Seq<u8>, recipient: Seq<u8>) -> Option<u64>
    decreases es.len(),
{
    if es.len() == 0 {
        None
    } else if es[0].denom == denom && es[0].recipient == recipient {
        Some(es[0].amount)
    } else {
        first_match(es.skip(1), denom, recipient)
    }
}

fn bytes_eq(a: &Vec<u8>, b: &[u8]) -> (r: bool)
    ensures
        r == (a@ == b@),
{
    if a.len() != b.len() {
        return false;
    }
    let mut i: usize = 0;
    while i < a.len()
        invariant
            a@.len() == b@.len(),
            i <= a@.len(),
            forall|k: int| 0 <= k < i ==> a@[k] == b@[k],
        decreases a@.len() - i,
    {
        if a[i] != b[i] {
            return false;
        }
        i = i + 1;
    }
    assert(a@ =~= b@);
    true
}

fn find_amount(es: &Vec<BalanceEntry>, denom: &[u8], recipient: &[u8]) -> (r: Option<u64>)
    ensures
        r == first_match(es@.map_values(|x: BalanceEntry| x@), denom@, recipient@),
{
    let ghost all = es@.map_values(|x: BalanceEntry| x@);
    let mut i: usize = 0;
    assert(all.skip(0) =~= all);
    while i < es.len()
        invariant
            i <= es@.len(),
            all == es@.map_values(|x: BalanceEntry| x@),
            first_match(all, denom@, recipient@) == first_match(all.skip(i as int), denom@, recipient@),
        decreases es@.len() - i,
    {
        let e = &es[i];
        assert(all.skip(i as int)[0] == e@);
        assert(all.skip(i as int).skip(1) =~= all.skip(i + 1));
        if bytes_eq(&e.denom, denom) && bytes_eq(&e.recipient, recipient) {
            return Some(e.amount);
        }
        i = i + 1;
    }
    None
}

/// Reads the balance of `denom` held by `recipient` from the result of a
/// balance query. An empty result, a malformed one and one without a record
/// for the pair are three distinct failures.
pub fn decode_balance_result(query: &InterchainQuery, payload: &[u8], denom: &str, recipient: &str) -> (r:
    Result<DecodedBalance, ContractError>)
    ensures
        payload@.len() == 0 ==> (r matches Err(ContractError::EmptyStargateResult { query_type })
            && query_type@ == query.query_type@),
        payload@.len() > 0 ==> match parse_entries(payload@) {
            None => r matches Err(e) && e is ProstProtobuf,
            Some(es) => match first_match(es, encode_utf8(denom@), encode_utf8(recipient@)) {
                Some(amount) => r matches Ok(b) && b.denom@ == denom@ && b.recipient@
                    == recipient@ && b.amount == amount as u128,
                None => r matches Err(ContractError::BalanceNotFound { denom: d, recipient: a })
                    && d@ == denom@ && a@ == recipient@,
            },
        },
{
    if payload.len() == 0 {
        return Err(ContractError::EmptyStargateResult { query_type: query.query_type.clone() });
    }
    let entries = decode_balance_entries(payload)?;
    proof {
        let es = parse_entries(payload@).unwrap();
        assert(entries@.map_values(|x: BalanceEntry| x@) =~= es);
    }
    match find_amount(&entries, denom.as_bytes(), recipient.as_bytes()) {
        Some(amount) => Ok(
            DecodedBalance {
                denom: denom.to_owned(),
                amount: amount as u128,
                recipient: recipient.to_owned(),
            },
        ),
        None => Err(
            ContractError::BalanceNotFound { denom: denom.to_owned(), recipient: recipient.to_owned() },
        ),
    }
}

} // verus!
