use vstd::prelude::*;

use crate::error::ContractError;
use vstd::slice::slice_subrange;
use vstd::utf8::encode_utf8;

verus! {

/// The longest receiver address accepted, in bytes.
pub const MAX_ADDR_LEN: usize = 255;

/// How a limit order is filled and how long it lives.
#[derive(Debug, Clone, Copy, PartialEq, Eq, Structural)]
pub enum LimitOrderType {
    GoodTilCancelled,
    FillOrKill,
    ImmediateOrCancel,
    JustInTime,
    GoodTilTime,
}

/// A modifier of one deposit leg.
#[derive(Debug, Clone, Copy, PartialEq, Eq, Structural)]
pub struct DepositOption {
    pub disable_autoswap: bool,
}

/// One route of a multi-hop swap: the denominations passed through, in order.
#[derive(Debug, Clone, PartialEq, Eq)]
pub struct MultiHopRoute {
    pub hops: Vec<String>,
}

/// A precision decimal, written out in plain notation.
#[derive(Debug, Clone, PartialEq, Eq)]
pub struct PrecDec {
    pub i: String,
}

/// Provides liquidity to a trading pair, one leg per tick index.
#[derive(Debug, Clone, PartialEq, Eq)]
pub struct DepositMsg {
    pub receiver: String,
    pub token_a: String,
    pub token_b: String,
    pub amounts_a: Vec<u128>,
    pub amounts_b: Vec<u128>,
    pub tick_indexes_a_to_b: Vec<i64>,
    pub fees: Vec<u64>,
    pub options: Vec<DepositOption>,
}

/// Redeems pool shares for the underlying tokens, one entry per pool.
#[derive(Debug, Clone, PartialEq, Eq)]
pub struct WithdrawalMsg {
    pub receiver: String,
    pub token_a: String,
    pub token_b: String,
    pub shares_to_remove: Vec<u128>,
    pub tick_indexes_a_to_b: Vec<i64>,
    pub fees: Vec<u64>,
}

/// Places a limit order selling `token_in` for `token_out`.
#[derive(Debug, Clone, PartialEq, Eq)]
pub struct PlaceLimitOrderMsg {
    pub receiver: String,
    pub token_in: String,
    pub token_out: String,
    pub tick_index_in_to_out: i64,
    pub amount_in: u128,
    pub order_type: LimitOrderType,
    pub expiration_time: Option<u64>,
    pub max_amount_out: Option<u128>,
    pub limit_sell_price: String,
}

/// Withdraws the proceeds of a filled limit order.
#[derive(Debug, Clone, PartialEq, Eq)]
pub struct WithdrawFilledLimitOrderMsg {
    pub tranche_key: String,
}

/// Cancels a limit order that is not completely filled.
#[derive(Debug, Clone, PartialEq, Eq)]
pub struct CancelLimitOrderMsg {
    pub tranche_key: String,
}

/// Swaps along the best, or the first workable, of several routes.
#[derive(Debug, Clone, PartialEq, Eq)]
pub struct MultiHopSwapMsg {
    pub receiver: String,
    pub routes: Vec<MultiHopRoute>,
    pub amount_in: u128,
    pub exit_limit_price: PrecDec,
    pub pick_best_route: bool,
}

/// An outbound message to the exchange module.
#[derive(Debug, Clone, PartialEq, Eq)]
pub enum DexMsg {
    Deposit(DepositMsg),
    Withdrawal(WithdrawalMsg),
    PlaceLimitOrder(PlaceLimitOrderMsg),
    WithdrawFilledLimitOrder(WithdrawFilledLimitOrderMsg),
    CancelLimitOrder(CancelLimitOrderMsg),
    MultiHopSwap(MultiHopSwapMsg),
}

pub open spec fn is_digit(c: u8) -> bool {
    0x30 <= c <= 0x39
}

pub open spec fn is_exp_mark(c: u8) -> bool {
    c == 0x65 || c == 0x45
}

/// Digits with at most one decimal point, and at least one digit.
pub open spec fn plain_decimal(m: Seq<u8>) -> bool {
    &&& forall|i: int| 0 <= i < m.len() ==> is_digit(#[trigger] m[i]) || m[i] == 0x2e
    &&& exists|i: int| 0 <= i < m.len() && is_digit(#[trigger] m[i])
    &&& forall|i: int, j: int|
        #![trigger m[i], m[j]]
        0 <= i < j < m.len() && m[i] == 0x2e ==> m[j] != 0x2e
}

/// One or more digits.
pub open spec fn all_digits(d: Seq<u8>) -> bool {
    d.len() > 0 && forall|i: int| 0 <= i < d.len() ==> is_digit(#[trigger] d[i])
}

/// An optional sign followed by one or more digits.
pub open spec fn exponent_digits(e: Seq<u8>) -> bool {
    if e.len() > 0 && (e[0] == 0x2b || e[0] == 0x2d) {
        all_digits(e.skip(1))
    } else {
        all_digits(e)
    }
}

/// A non-negative decimal in plain or scientific notation (`1234.23E-7`).
pub open spec fn sci_decimal(s: Seq<u8>) -> bool {
    ||| (forall|i: int| 0 <= i < s.len() ==> !is_exp_mark(#[trigger] s[i])) && plain_decimal(s)
    ||| exists|k: int|
        0 <= k < s.len() && is_exp_mark(#[trigger] s[k]) && plain_decimal(s.take(k))
            && exponent_digits(s.skip(k + 1))
}

pub open spec fn addr_fits(receiver: Seq<char>) -> bool {
    encode_utf8(receiver).len() <= MAX_ADDR_LEN
}

pub open spec fn deposit_valid(m: DepositMsg) -> bool {
    &&& addr_fits(m.receiver@)
    &&& m.amounts_a@.len() == m.tick_indexes_a_to_b@.len()
    &&& m.amounts_b@.len() == m.tick_indexes_a_to_b@.len()
    &&& m.fees@.len() == m.tick_indexes_a_to_b@.len()
}

pub open spec fn withdrawal_valid(m: WithdrawalMsg) -> bool {
    &&& addr_fits(m.receiver@)
    &&& m.shares_to_remove@.len() == m.tick_indexes_a_to_b@.len()
    &&& m.fees@.len() == m.tick_indexes_a_to_b@.len()
}

pub open spec fn place_limit_order_valid(m: PlaceLimitOrderMsg) -> bool {
    &&& addr_fits(m.receiver@)
    &&& (m.expiration_time is Some <==> m.order_type == LimitOrderType::GoodTilTime)
    &&& (m.order_type == LimitOrderType::ImmediateOrCancel ==> m.max_amount_out is None)
    &&& sci_decimal(encode_utf8(m.limit_sell_price@))
}

pub open spec fn multi_hop_swap_valid(m: MultiHopSwapMsg) -> bool {
    &&& addr_fits(m.receiver@)
    &&& m.routes@.len() > 0
    &&& plain_decimal(encode_utf8(m.exit_limit_price.i@))
}

/// The error of a message that failed validation: the address limit where
/// the receiver is too long, else an invalid-message error.
pub open spec fn rejection(receiver: Seq<char>, e: ContractError) -> bool {
    if addr_fits(receiver) {
        e is Std
    } else {
        e == ContractError::MaxAddrLength {
            max: MAX_ADDR_LEN,
            actual: encode_utf8(receiver).len() as usize,
        }
    }
}

fn check_receiver(receiver: &String) -> (r: Result<(), ContractError>)
    ensures
        addr_fits(receiver@) <==> r is Ok,
        r matches Err(e) ==> rejection(receiver@, e),
{
    let n = receiver.as_str().as_bytes().len();
    if n > MAX_ADDR_LEN {
        return Err(ContractError::MaxAddrLength { max: MAX_ADDR_LEN, actual: n });
    }
    Ok(())
}

fn invalid(reason: &str) -> (r: ContractError)
    ensures
        r is Std,
{
    ContractError::Std(reason.to_owned())
}

fn check_all_digits(d: &[u8]) -> (r: bool)
    ensures
        r == all_digits(d@),
{
    if d.len() == 0 {
        return false;
    }
    let mut i: usize = 0;
    while i < d.len()
        invariant
            i <= d@.len(),
            forall|k: int| 0 <= k < i ==> is_digit(#[trigger] d@[k]),
        decreases d@.len() - i,
    {
        if d[i] < 0x30 || d[i] > 0x39 {
            return false;
        }
        i = i + 1;
    }
    true
}

fn check_exponent(e: &[u8]) -> (r: bool)
    ensures
        r == exponent_digits(e@),
{
    if e.len() > 0 && (e[0] == 0x2b || e[0] == 0x2d) {
        let d = slice_subrange(e, 1, e.len());
        assert(d@ =~= e@.skip(1));
        check_all_digits(d)
    } else {
        check_all_digits(e)
    }
}

fn check_plain_decimal(m: &[u8]) -> (r: bool)
    ensures
        r == plain_decimal(m@),
{
    let mut seen_digit = false;
    let mut dot: Option<usize> = None;
    let mut i: usize = 0;
    while i < m.len()
        invariant
            i <= m@.len(),
            forall|k: int| 0 <= k < i ==> is_digit(#[trigger] m@[k]) || m@[k] == 0x2e,
            seen_digit <==> exists|k: int| 0 <= k < i && is_digit(#[trigger] m@[k]),
            forall|a: int, b: int|
                #![trigger m@[a], m@[b]]
                0 <= a < b < i && m@[a] == 0x2e ==> m@[b] != 0x2e,
            match dot {
                Some(p) => p < i && m@[p as int] == 0x2e,
                None => forall|k: int| 0 <= k < i ==> #[trigger] m@[k] != 0x2e,
            },
        decreases m@.len() - i,
    {
        let c = m[i];
        if c == 0x2e {
            if let Some(p) = dot {
                assert(m@[p as int] == 0x2e && m@[i as int] == 0x2e);
                return false;
            }
            dot = Some(i);
        } else if c >= 0x30 && c <= 0x39 {
            seen_digit = true;
        } else {
            assert(!(is_digit(m@[i as int]) || m@[i as int] == 0x2e));
            return false;
        }
        i = i + 1;
    }
    seen_digit
}

fn check_sci_decimal(s: &[u8]) -> (r: bool)
    ensures
        r == sci_decimal(s@),
{
    let mut k: usize = 0;
    while k < s.len()
        invariant
            k <= s@.len(),
            forall|j: int| 0 <= j < k ==> !is_exp_mark(#[trigger] s@[j]),
        decreases s@.len() - k,
    {
        if s[k] == 0x65 || s[k] == 0x45 {
            let m = slice_subrange(s, 0, k);
            let e = slice_subrange(s, k + 1, s.len());
            assert(m@ =~= s@.take(k as int));
            assert(e@ =~= s@.skip(k + 1));
            let ok = check_plain_decimal(m) && check_exponent(e);
            proof {
                if !ok {
                    assert forall|k2: int|
                        0 <= k2 < s@.len() && is_exp_mark(#[trigger] s@[k2]) implies !(
                        plain_decimal(s@.take(k2)) && exponent_digits(s@.skip(k2 + 1))) by {
                        if k2 > k {
                            assert(s@.take(k2)[k as int] == s@[k as int]);
                        }
                    }
                }
            }
            return ok;
        }
        k = k + 1;
    }
    check_plain_decimal(s)
}

fn lengths_differ() -> (r: ContractError)
    ensures
        r is Std,
{
    invalid("per-leg fields differ in length")
}

impl DexMsg {
    /// Builds a deposit; every per-leg field must have one entry per tick index.
    pub fn deposit(msg: DepositMsg) -> (r: Result<DexMsg, ContractError>)
        ensures
            deposit_valid(msg) ==> r == Ok::<DexMsg, ContractError>(DexMsg::Deposit(msg)),
            !deposit_valid(msg) ==> (r matches Err(e) && rejection(msg.receiver@, e)),
    {
        check_receiver(&msg.receiver)?;
        let n = msg.tick_indexes_a_to_b.len();
        if msg.amounts_a.len() != n || msg.amounts_b.len() != n || msg.fees.len() != n {
            return Err(lengths_differ());
        }
        Ok(DexMsg::Deposit(msg))
    }

    /// Builds a withdrawal; shares and fees must have one entry per tick index.
    pub fn withdrawal(msg: WithdrawalMsg) -> (r: Result<DexMsg, ContractError>)
        ensures
            withdrawal_valid(msg) ==> r == Ok::<DexMsg, ContractError>(DexMsg::Withdrawal(msg)),
            !withdrawal_valid(msg) ==> (r matches Err(e) && rejection(msg.receiver@, e)),
    {
        check_receiver(&msg.receiver)?;
        let n = msg.tick_indexes_a_to_b.len();
        if msg.shares_to_remove.len() != n || msg.fees.len() != n {
            return Err(lengths_differ());
        }
        Ok(DexMsg::Withdrawal(msg))
    }

    /// Builds a limit order: an expiration time exactly for good-til-time
    /// orders, no maximum output for immediate-or-cancel ones, and a sell price
    /// that is a non-negative decimal.
    pub fn place_limit_order(msg: PlaceLimitOrderMsg) -> (r: Result<DexMsg, ContractError>)
        ensures
            place_limit_order_valid(msg) ==> r == Ok::<DexMsg, ContractError>(
                DexMsg::PlaceLimitOrder(msg),
            ),
            !place_limit_order_valid(msg) ==> (r matches Err(e) && rejection(msg.receiver@, e)),
    {
        check_receiver(&msg.receiver)?;
        let timed = match msg.order_type {
            LimitOrderType::GoodTilTime => true,
            _ => false,
        };
        if msg.expiration_time.is_some() != timed {
            return Err(invalid("expiration time is only for good-til-time orders"));
        }
        if let LimitOrderType::ImmediateOrCancel = msg.order_type {
            if msg.max_amount_out.is_some() {
                return Err(invalid("immediate-or-cancel orders take no maximum output"));
            }
        }
        if !check_sci_decimal(msg.limit_sell_price.as_str().as_bytes()) {
            return Err(invalid("limit sell price is not a non-negative decimal"));
        }
        Ok(DexMsg::PlaceLimitOrder(msg))
    }

    /// Builds a withdrawal of filled proceeds; the tranche key must be non-empty.
    pub fn withdraw_filled_limit_order(msg: WithdrawFilledLimitOrderMsg) -> (r: Result<
        DexMsg,
        ContractError,
    >)
        ensures
            msg.tranche_key@.len() > 0 ==> r == Ok::<DexMsg, ContractError>(
                DexMsg::WithdrawFilledLimitOrder(msg),
            ),
            msg.tranche_key@.len() == 0 ==> (r matches Err(e) && e is Std),
    {
        if msg.tranche_key.as_str().is_empty() {
            return Err(invalid("tranche key is empty"));
        }
        Ok(DexMsg::WithdrawFilledLimitOrder(msg))
    }

    /// Builds a cancellation; the tranche key must be non-empty.
    pub fn cancel_limit_order(msg: CancelLimitOrderMsg) -> (r: Result<DexMsg, ContractError>)
        ensures
            msg.tranche_key@.len() > 0 ==> r == Ok::<DexMsg, ContractError>(
                DexMsg::CancelLimitOrder(msg),
            ),
            msg.tranche_key@.len() == 0 ==> (r matches Err(e) && e is Std),
    {
        if msg.tranche_key.as_str().is_empty() {
            return Err(invalid("tranche key is empty"));
        }
        Ok(DexMsg::CancelLimitOrder(msg))
    }

    /// Builds a multi-hop swap: at least one route, and an exit price that is
    /// a non-negative decimal.
    pub fn multi_hop_swap(msg: MultiHopSwapMsg) -> (r: Result<DexMsg, ContractError>)
        ensures
            multi_hop_swap_valid(msg) ==> r == Ok::<DexMsg, ContractError>(
                DexMsg::MultiHopSwap(msg),
            ),
            !multi_hop_swap_valid(msg) ==> (r matches Err(e) && rejection(msg.receiver@, e)),
    {
        check_receiver(&msg.receiver)?;
        if msg.routes.len() == 0 {
            return Err(invalid("no routes"));
        }
        if !check_plain_decimal(msg.exit_limit_price.i.as_str().as_bytes()) {
            return Err(invalid("exit limit price is not a non-negative decimal"));
        }
        Ok(DexMsg::MultiHopSwap(msg))
    }

    /// The protocol type identifier that the message is sent under.
    pub fn type_url(&self) -> (r: &'static str)
        ensures
            r@ == type_url_of(*self),
    {
        match self {
            DexMsg::Deposit(_) => "/neutron.dex.MsgDeposit",
            DexMsg::Withdrawal(_) => "/neutron.dex.MsgWithdrawal",
            DexMsg::PlaceLimitOrder(_) => "/neutron.dex.MsgPlaceLimitOrder",
            DexMsg::WithdrawFilledLimitOrder(_) => "/neutron.dex.MsgWithdrawFilledLimitOrder",
            DexMsg::CancelLimitOrder(_) => "/neutron.dex.MsgCancelLimitOrder",
            DexMsg::MultiHopSwap(_) => "/neutron.dex.MsgMultiHopSwap",
        }
    }
}

/// The protocol type identifier of each kind of message.
pub open spec fn type_url_of(m: DexMsg) -> Seq<char> {
    match m {
        DexMsg::Deposit(_) => "/neutron.dex.MsgDeposit"@,
        DexMsg::Withdrawal(_) => "/neutron.dex.MsgWithdrawal"@,
        DexMsg::PlaceLimitOrder(_) => "/neutron.dex.MsgPlaceLimitOrder"@,
        DexMsg::WithdrawFilledLimitOrder(_) => "/neutron.dex.MsgWithdrawFilledLimitOrder"@,
        DexMsg::CancelLimitOrder(_) => "/neutron.dex.MsgCancelLimitOrder"@,
        DexMsg::MultiHopSwap(_) => "/neutron.dex.MsgMultiHopSwap"@,
    }
}

} // verus!
