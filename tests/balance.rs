use neutron_sdk::balance::decode_balance_result;
use neutron_sdk::balance::DecodedBalance;
use neutron_sdk::error::ContractError;
use neutron_sdk::registry::QueryRegistry;
use neutron_sdk::wire::decode_balance_entries;
use neutron_sdk::wire::decode_register_reply;

const ADDR: &str = "cosmos1qypqxpq9qcrsszg2pvxq6rs0zqg3yyc5lzv7xu";

fn varint(mut v: u64, out: &mut Vec<u8>) {
    while v >= 0x80 {
        out.push((v as u8 & 0x7f) | 0x80);
        v >>= 7;
    }
    out.push(v as u8);
}

fn text_field(tag: u8, text: &[u8], out: &mut Vec<u8>) {
    out.push(tag << 3 | 2);
    varint(text.len() as u64, out);
    out.extend_from_slice(text);
}

fn entry(recipient: &str, denom: &str, amount: u64) -> Vec<u8> {
    let mut body = Vec::new();
    text_field(1, recipient.as_bytes(), &mut body);
    text_field(2, denom.as_bytes(), &mut body);
    body.push(3 << 3);
    varint(amount, &mut body);
    let mut out = Vec::new();
    text_field(1, &body, &mut out);
    out
}

fn balance_query() -> neutron_sdk::registry::InterchainQuery {
    neutron_sdk::registry::InterchainQuery {
        zone_id: "zone-1".to_string(),
        query_type: "balance".to_string(),
        query_data: "{}".to_string(),
    }
}

#[test]
fn register_resolve_decode_scenario() {
    let mut reg = QueryRegistry::new();
    let data = format!("{{\"denom\":\"uatom\",\"addr\":\"{}\"}}", ADDR);
    let id = reg.register_query("zone-1".to_string(), "balance".to_string(), data).unwrap();
    assert_eq!(id, 1);
    let (q, payload) = reg.resolve_reply(1, entry(ADDR, "uatom", 1000)).unwrap();
    let b = decode_balance_result(&q, &payload, "uatom", ADDR).unwrap();
    assert_eq!(
        b,
        DecodedBalance { denom: "uatom".to_string(), amount: 1000, recipient: ADDR.to_string() }
    );
    assert_eq!(reg.resolve_reply(1, entry(ADDR, "uatom", 1000)), Err(ContractError::InvalidReplyID(1)));
}

#[test]
fn empty_payload_is_empty_result() {
    assert_eq!(
        decode_balance_result(&balance_query(), &[], "uatom", ADDR),
        Err(ContractError::EmptyStargateResult { query_type: "balance".to_string() })
    );
}

#[test]
fn missing_pair_is_balance_not_found() {
    let mut payload = entry(ADDR, "untrn", 5);
    payload.extend(entry("cosmos1other", "uatom", 7));
    assert_eq!(
        decode_balance_result(&balance_query(), &payload, "uatom", ADDR),
        Err(ContractError::BalanceNotFound { denom: "uatom".to_string(), recipient: ADDR.to_string() })
    );
}

#[test]
fn picks_matching_entry_among_several() {
    let mut payload = entry(ADDR, "untrn", 5);
    payload.extend(entry(ADDR, "uatom", 300_000));
    payload.extend(entry(ADDR, "uatom", 9));
    let b = decode_balance_result(&balance_query(), &payload, "uatom", ADDR).unwrap();
    assert_eq!(b.amount, 300_000);
}

#[test]
fn zero_amount_is_a_found_balance() {
    let mut body = Vec::new();
    text_field(1, ADDR.as_bytes(), &mut body);
    text_field(2, b"uatom", &mut body);
    let mut payload = Vec::new();
    text_field(1, &body, &mut payload);
    let b = decode_balance_result(&balance_query(), &payload, "uatom", ADDR).unwrap();
    assert_eq!(b.amount, 0);
}

#[test]
fn truncated_payload_is_decode_error() {
    let mut payload = entry(ADDR, "uatom", 1000);
    payload.pop();
    assert!(matches!(
        decode_balance_result(&balance_query(), &payload, "uatom", ADDR),
        Err(ContractError::ProstProtobuf(_))
    ));
    assert!(matches!(
        decode_balance_result(&balance_query(), &[0x0a, 0xff], "uatom", ADDR),
        Err(ContractError::ProstProtobuf(_))
    ));
}

#[test]
fn unexpected_field_is_decode_error() {
    assert!(matches!(
        decode_balance_result(&balance_query(), &[0x10, 0x01], "uatom", ADDR),
        Err(ContractError::ProstProtobuf(_))
    ));
}

#[test]
fn invalid_utf8_is_decode_error() {
    let mut body = Vec::new();
    text_field(2, &[0xff, 0xfe], &mut body);
    let mut payload = Vec::new();
    text_field(1, &body, &mut payload);
    assert!(matches!(decode_balance_entries(&payload), Err(ContractError::ProstProtobuf(_))));
}

#[test]
fn entries_decode_in_order() {
    let mut payload = entry("a", "x", 1);
    payload.extend(entry("b", "y", 128));
    let es = decode_balance_entries(&payload).unwrap();
    assert_eq!(es.len(), 2);
    assert_eq!(es[0].recipient, b"a".to_vec());
    assert_eq!(es[1].denom, b"y".to_vec());
    assert_eq!(es[1].amount, 128);
}

#[test]
fn register_reply_carries_identifier() {
    assert_eq!(decode_register_reply(Some(&[0x08, 0x2a])), Ok(42));
    assert_eq!(decode_register_reply(Some(&[0x08, 0xac, 0x02])), Ok(300));
}

#[test]
fn register_reply_without_data_is_empty_result() {
    assert_eq!(decode_register_reply(None), Err(ContractError::EmptyInterchainQueryResult));
    assert_eq!(decode_register_reply(Some(&[])), Err(ContractError::EmptyInterchainQueryResult));
}

#[test]
fn malformed_register_reply_is_decode_error() {
    assert!(matches!(decode_register_reply(Some(&[0x08])), Err(ContractError::ProstProtobuf(_))));
    assert!(matches!(decode_register_reply(Some(&[0x12, 0x00])), Err(ContractError::ProstProtobuf(_))));
}
