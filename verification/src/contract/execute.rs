use vstd::prelude::*;
use vstd::string::*;

use crate::contract::{attribute, GetOwnedQuery, GetOwnedQueryResponse, Tokens};
use crate::error::ContractError;
use crate::msg::{Attribute, Coin, ContractResponse, OutMsg, SendTokenMsg, Tmessage};
use crate::state::{Phase, State};

verus! {

// ---------------------------------------------------------------------------
// Decimal text of integers, as token ids are written
// ---------------------------------------------------------------------------

/// The character of the decimal digit `d`.
pub open spec fn digit_char(d: int) -> char {
    (48 + d) as char
}

/// The decimal digits of `n`, most significant first, without leading zeros.
pub open spec fn decimal_digits(n: nat) -> Seq<char>
    decreases n,
{
    if n < 10 {
        seq![digit_char(n as int)]
    } else {
        decimal_digits(n / 10).push(digit_char((n % 10) as int))
    }
}

/// The decimal text of `n`, with a leading `-` when `n` is negative.
pub open spec fn decimal(n: int) -> Seq<char> {
    if n < 0 {
        seq!['-'] + decimal_digits((-n) as nat)
    } else {
        decimal_digits(n as nat)
    }
}

fn digit_str(d: u32) -> (s: &'static str)
    requires
        d < 10,
    ensures
        s@ == seq![digit_char(d as int)],
{
    proof {
        reveal_strlit("0");
        reveal_strlit("1");
        reveal_strlit("2");
        reveal_strlit("3");
        reveal_strlit("4");
        reveal_strlit("5");
        reveal_strlit("6");
        reveal_strlit("7");
        reveal_strlit("8");
        reveal_strlit("9");
    }
    match d {
        0 => "0",
        1 => "1",
        2 => "2",
        3 => "3",
        4 => "4",
        5 => "5",
        6 => "6",
        7 => "7",
        8 => "8",
        _ => "9",
    }
}

fn digits_string(n: u32) -> (s: String)
    ensures
        s@ == decimal_digits(n as nat),
    decreases n,
{
    if n < 10 {
        String::from_str(digit_str(n))
    } else {
        let mut s = digits_string(n / 10);
        s.append(digit_str(n % 10));
        s
    }
}

/// The decimal text of `n`.
pub fn i32_to_string(n: i32) -> (s: String)
    ensures
        s@ == decimal(n as int),
{
    if n < 0 {
        proof {
            reveal_strlit("-");
        }
        let mut s = String::from_str("-");
        let magnitude: u32 = (0i64 - n as i64) as u32;
        let digits = digits_string(magnitude);
        s.append(digits.as_str());
        s
    } else {
        digits_string(n as u32)
    }
}

// ---------------------------------------------------------------------------
// Selling a token
//
// A mint request goes through four steps: the coin paid is checked
// (`payment_of`); the phase that sells now is made current (`check_phase`),
// and that state is stored before anything else is checked; the payment and
// the allowlist are checked and the NFT contract is asked which tokens the
// buyer holds (`start_mint`); its answer decides the sale (`finish_mint`).
// ---------------------------------------------------------------------------

/// The share of the price, in percent, that the mint fee takes.
pub const MINT_FEE_PERCENT: u64 = 3;

/// The coin in which mints are paid.
pub open spec fn payment_denom_spec() -> Seq<char> {
    "inj"@
}

/// The address that receives the mint fee.
pub open spec fn fee_collector() -> Seq<char> {
    "inj1q7juqp9sw4sjahshanryw2a4qhenlmev9ygpm7"@
}

/// The mint fee on a phase's price: `MINT_FEE_PERCENT` percent, rounded down.
pub open spec fn mint_fee(price: u128) -> int {
    price * MINT_FEE_PERCENT / 100
}

/// What a buyer must send in a phase: the price and the fee on top.
pub open spec fn mint_cost(phase: Phase) -> int {
    phase.price + mint_fee(phase.price)
}

/// The amount paid with `funds`: the first coin's amount; nothing sent pays zero.
pub open spec fn paid_amount(funds: Seq<Coin>) -> u128 {
    if funds.len() == 0 {
        0
    } else {
        funds[0].amount
    }
}

/// The coin paid with `funds`: the first coin's; nothing sent counts as the payment coin.
pub open spec fn paid_denom(funds: Seq<Coin>) -> Seq<char> {
    if funds.len() == 0 {
        payment_denom_spec()
    } else {
        funds[0].denom@
    }
}

/// The payment is made in the payment coin.
pub open spec fn paid_in_payment_coin(funds: Seq<Coin>) -> bool {
    paid_denom(funds) == payment_denom_spec()
}

/// What `payment_of(funds)` answers.
pub open spec fn payment_of_post(funds: Seq<Coin>, res: Result<Coin, ContractError>) -> bool {
    &&& !paid_in_payment_coin(funds) ==> (res matches Err(ContractError::Unauthorized { reason })
        && reason@ == "wrong denom"@)
    &&& paid_in_payment_coin(funds) ==> (res matches Ok(c) && c.amount == paid_amount(funds)
        && c.denom@ == payment_denom_spec())
}

/// The first step of a mint: the coin paid with `funds`. Refused with
/// `Unauthorized { reason: "wrong denom" }` when the first coin sent is not
/// the payment coin; sending no coin pays zero in the payment coin.
pub fn payment_of(funds: &Vec<Coin>) -> (res: Result<Coin, ContractError>)
    ensures
        payment_of_post(funds@, res),
{
    let payment = if funds.len() == 0 {
        Coin { denom: String::from_str("inj"), amount: 0 }
    } else {
        Coin { denom: funds[0].denom.clone(), amount: funds[0].amount }
    };
    if payment.denom != String::from_str("inj") {
        return Err(ContractError::Unauthorized { reason: String::from_str("wrong denom") });
    }
    Ok(payment)
}

/// The current phase has ended at `now` (its end is not after `now`).
pub open spec fn current_phase_ended(state: State, now: u64) -> bool {
    state.phases@[state.current_phase as int].ends <= now
}

/// The index of the phase that sells at `now`: the current one, or the next
/// one once the current one has ended.
pub open spec fn selling_index(state: State, now: u64) -> int {
    if current_phase_ended(state, now) {
        state.current_phase + 1
    } else {
        state.current_phase as int
    }
}

/// The phase that sells at `now`.
pub open spec fn selling_phase(state: State, now: u64) -> Phase {
    state.phases@[selling_index(state, now)]
}

/// `state` with the phase that sells at `now` made current.
pub open spec fn with_phase_checked(state: State, now: u64) -> State {
    State { current_phase: selling_index(state, now) as i8, ..state }
}

/// The inputs on which the phase check is made: the current phase exists,
/// and the index of the next one fits once the current one has ended.
pub open spec fn phase_check_defined(state: State, now: u64) -> bool {
    &&& 0 <= state.current_phase < state.phases@.len()
    &&& current_phase_ended(state, now) ==> state.current_phase < i8::MAX
}

/// Tells whether the phase check is made (`phase_check_defined`) rather than aborted.
pub fn phase_check_answerable(state: &State, now: u64) -> (b: bool)
    ensures
        b == phase_check_defined(*state, now),
{
    if state.current_phase < 0 || state.current_phase as usize >= state.phases.len() {
        return false;
    }
    let current: usize = state.current_phase as usize;
    !(state.phases[current].ends <= now as u128) || state.current_phase < i8::MAX
}

/// What `check_phase(state, now)` answers.
pub open spec fn check_phase_post(state: State, now: u64, res: (State, bool)) -> bool {
    &&& res.0 == with_phase_checked(state, now)
    &&& res.1 == current_phase_ended(state, now)
}

/// The second step of a mint: once the current phase has ended at `now`,
/// the next one becomes current (one phase at a time, whether or not that
/// one has ended too). Answers the new state and whether the phase moved on.
pub fn check_phase(state: State, now: u64) -> (res: (State, bool))
    requires
        phase_check_defined(state, now),
    ensures
        check_phase_post(state, now, res),
{
    let mut state = state;
    let current: usize = state.current_phase as usize;
    let ended = state.phases[current].ends <= now as u128;
    if ended {
        state.current_phase = state.current_phase + 1;
    }
    (state, ended)
}

/// `sender` is on the phase's allowlist, or the allowlist opens with `*`.
pub open spec fn allowlisted(phase: Phase, sender: Seq<char>) -> bool {
    ||| exists|i: int| 0 <= i < phase.allowed@.len() && #[trigger] phase.allowed@[i]@ == sender
    ||| phase.allowed@.len() > 0 && phase.allowed@[0]@ == "*"@
}

/// The phase that is current in `state`.
pub open spec fn current_phase(state: State) -> Phase {
    state.phases@[state.current_phase as int]
}

/// The inputs on which the payment and allowlist checks are made: the
/// current phase exists, its cost fits in `u128`, and its allowlist can be
/// read when the payment covers the cost.
pub open spec fn mint_start_defined(state: State, sender: Seq<char>, payment: Coin) -> bool {
    &&& 0 <= state.current_phase < state.phases@.len()
    &&& mint_cost(current_phase(state)) <= u128::MAX
    &&& payment.amount >= mint_cost(current_phase(state)) ==> {
        ||| current_phase(state).allowed@.len() > 0
        ||| exists|i: int|
            0 <= i < current_phase(state).allowed@.len() && #[trigger] current_phase(state).allowed@[i]@ == sender
    }
}

/// A mint request that passed the checks that need nothing from the NFT
/// contract, waiting for the tokens that the buyer holds.
#[derive(Debug, Clone, PartialEq, Eq)]
pub struct PendingMint {
    /// The state, its current phase being the one that sells.
    pub state: State,
    /// The buyer.
    pub sender: String,
    /// The coin paid.
    pub payment: Coin,
    /// The query that asks the NFT contract which tokens the buyer holds.
    pub query: GetOwnedQuery,
}

/// The product `Uint128 * Decimal::percent(percent)` of cosmwasm_std
/// (`impl Mul<Decimal> for Uint128`, which takes `multiply_ratio` by the
/// decimal's atomics `percent * 10^16` over `10^18`). Claimed: the result is
/// `amount * percent / 100` rounded down, and the call does not panic when
/// that result fits in `u128` (the only panic in its source is a result that
/// does not fit).
#[verifier::external_body]
fn mul_percent(amount: u128, percent: u64) -> (r: u128)
    requires
        amount * percent / 100 <= u128::MAX,
    ensures
        r == amount * percent / 100,
{
    (cosmwasm_std::Uint128::new(amount) * cosmwasm_std::Decimal::percent(percent)).u128()
}

/// The mint fee on `price`.
pub fn fee_on(price: u128) -> (fee: u128)
    ensures
        fee == mint_fee(price),
        fee <= price,
{
    assert(price * 3 / 100 <= price) by (nonlinear_arith);
    mul_percent(price, MINT_FEE_PERCENT)
}

/// `sender` is one of `addresses`.
pub fn contains_address(addresses: &Vec<String>, sender: &String) -> (b: bool)
    ensures
        b == exists|i: int| 0 <= i < addresses@.len() && #[trigger] addresses@[i]@ == sender@,
{
    let mut i: usize = 0;
    while i < addresses.len()
        invariant
            i <= addresses@.len(),
            forall|j: int| 0 <= j < i ==> addresses@[j]@ != sender@,
        decreases addresses@.len() - i,
    {
        if addresses[i] == *sender {
            return true;
        }
        i = i + 1;
    }
    false
}

fn is_allowlisted(allowed: &Vec<String>, sender: &String) -> (b: bool)
    requires
        allowed@.len() > 0 || exists|i: int| 0 <= i < allowed@.len() && #[trigger] allowed@[i]@ == sender@,
    ensures
        b == ((exists|i: int| 0 <= i < allowed@.len() && #[trigger] allowed@[i]@ == sender@)
            || (allowed@.len() > 0 && allowed@[0]@ == "*"@)),
{
    if contains_address(allowed, sender) {
        return true;
    }
    allowed[0] == String::from_str("*")
}

/// Tells whether the payment and allowlist checks are made
/// (`mint_start_defined`) rather than aborted.
pub fn mint_start_answerable(state: &State, sender: &String, payment: &Coin) -> (b: bool)
    ensures
        b == mint_start_defined(*state, sender@, *payment),
{
    if state.current_phase < 0 || state.current_phase as usize >= state.phases.len() {
        return false;
    }
    let phase = &state.phases[state.current_phase as usize];
    let fee: u128 = fee_on(phase.price);
    if fee > u128::MAX - phase.price {
        return false;
    }
    if payment.amount >= phase.price + fee {
        phase.allowed.len() > 0 || contains_address(&phase.allowed, sender)
    } else {
        true
    }
}

/// What `start_mint(state, sender, payment)` answers.
pub open spec fn start_mint_post(state: State, sender: String, payment: Coin, res: Result<PendingMint, ContractError>) -> bool {
    &&& payment.amount < mint_cost(current_phase(state)) ==> (res matches Err(ContractError::InsufficientFunds {}))
    &&& payment.amount >= mint_cost(current_phase(state)) && !allowlisted(current_phase(state), sender@)
        ==> (res matches Err(ContractError::Unauthorized { reason }) && reason@ == "not in allowlist"@)
    &&& payment.amount >= mint_cost(current_phase(state)) && allowlisted(current_phase(state), sender@)
        ==> (res matches Ok(p) && {
        &&& p.state == state
        &&& p.sender == sender
        &&& p.payment == payment
        &&& p.query.tokens.owner == sender
        &&& p.query.tokens.limit == 30
        &&& p.query.tokens.start_after is None
    })
}

/// The third step of a mint, on the state whose phase was checked: refused
/// with `InsufficientFunds` when the payment is below the price and the fee
/// of the current phase, otherwise with `Unauthorized { reason: "not in
/// allowlist" }` when `sender` may not buy in it; otherwise prepares the
/// query of the tokens that `sender` holds.
pub fn start_mint(state: State, sender: String, payment: Coin) -> (res: Result<PendingMint, ContractError>)
    requires
        mint_start_defined(state, sender@, payment),
    ensures
        start_mint_post(state, sender, payment, res),
{
    let current: usize = state.current_phase as usize;
    let price: u128 = state.phases[current].price;
    let fee: u128 = fee_on(price);
    if payment.amount < price + fee {
        return Err(ContractError::InsufficientFunds {});
    }
    if !is_allowlisted(&state.phases[current].allowed, &sender) {
        return Err(ContractError::Unauthorized { reason: String::from_str("not in allowlist") });
    }
    let query = GetOwnedQuery {
        tokens: Tokens { owner: sender.clone(), limit: 30, start_after: None },
    };
    Ok(PendingMint { state, sender, payment, query })
}

/// The buyer already holds as many tokens as the phase allows (a negative
/// allocation allows any number).
pub open spec fn allocation_reached(phase: Phase, held: nat) -> bool {
    phase.allocation >= 0 && held >= phase.allocation
}

/// The inputs on which a pending mint is decided, the buyer holding `held`
/// tokens: the current phase exists, and a sale that goes ahead finds room in
/// the token counter and a payment that covers the fee.
pub open spec fn mint_finish_defined(p: PendingMint, held: nat) -> bool {
    &&& 0 <= p.state.current_phase < p.state.phases@.len()
    &&& !allocation_reached(current_phase(p.state), held) ==> {
        &&& p.state.last_minted < i32::MAX
        &&& p.payment.amount >= mint_fee(current_phase(p.state).price)
    }
}

/// Tells whether a pending mint is decided (`mint_finish_defined`) rather than aborted.
pub fn mint_finish_answerable(p: &PendingMint, owned: &GetOwnedQueryResponse) -> (b: bool)
    ensures
        b == mint_finish_defined(*p, owned.ids@.len()),
{
    if p.state.current_phase < 0 || p.state.current_phase as usize >= p.state.phases.len() {
        return false;
    }
    let phase = &p.state.phases[p.state.current_phase as usize];
    if phase.allocation >= 0 && owned.ids.len() as u64 >= phase.allocation as u64 {
        return true;
    }
    p.state.last_minted < i32::MAX && p.payment.amount >= fee_on(phase.price)
}

/// The state after a sale: one more token sold, nothing else changed.
pub open spec fn after_sale(state: State) -> State {
    State { last_minted: (state.last_minted + 1) as i32, ..state }
}

/// `coins` is exactly one coin of `denom` and `amount`.
pub open spec fn single_coin(coins: Seq<Coin>, denom: Seq<char>, amount: int) -> bool {
    coins.len() == 1 && coins[0].denom@ == denom && coins[0].amount == amount
}

/// The response of a sale from `p`: it reports `action = mint` and the new
/// token count, hands token `last_minted` (counted before the sale) to the
/// buyer through the NFT contract, pays the owner the payment less the fee,
/// and pays the fee to the fee collector.
pub open spec fn sale_response(p: PendingMint, resp: ContractResponse) -> bool {
    let fee = mint_fee(current_phase(p.state).price);
    &&& resp.attributes@.len() == 2
    &&& resp.attributes@[0].key@ == "action"@
    &&& resp.attributes@[0].value@ == "mint"@
    &&& resp.attributes@[1].key@ == "token"@
    &&& resp.attributes@[1].value@ == decimal(p.state.last_minted + 1)
    &&& resp.messages@.len() == 3
    &&& resp.messages@[0] matches OutMsg::TransferNft { contract_addr, msg }
        && contract_addr == p.state.contract
        && msg.transfer_nft.recipient == p.sender
        && msg.transfer_nft.token_id@ == decimal(p.state.last_minted as int)
    &&& resp.messages@[1] matches OutMsg::BankSend { to_address, amount }
        && to_address == p.state.owner
        && single_coin(amount@, p.payment.denom@, p.payment.amount - fee)
    &&& resp.messages@[2] matches OutMsg::BankSend { to_address, amount }
        && to_address@ == fee_collector()
        && single_coin(amount@, payment_denom_spec(), fee)
}

/// What `finish_mint(pending, owned)` answers when the buyer holds `held` tokens.
pub open spec fn finish_mint_post(pending: PendingMint, held: nat, res: Result<(State, ContractResponse), ContractError>) -> bool {
    &&& allocation_reached(current_phase(pending.state), held)
        ==> (res matches Err(ContractError::Unauthorized { reason }) && reason@ == "max minted"@)
    &&& !allocation_reached(current_phase(pending.state), held)
        ==> (res matches Ok((state, resp)) && state == after_sale(pending.state) && sale_response(pending, resp))
}

/// The last step of a mint, once the NFT contract has answered which tokens
/// the buyer holds: refused with `Unauthorized { reason: "max minted" }` when
/// the buyer holds as many tokens as the phase allows; otherwise counts the
/// sale and answers the new state and the response of the sale.
pub fn finish_mint(pending: PendingMint, owned: &GetOwnedQueryResponse) -> (res: Result<(State, ContractResponse), ContractError>)
    requires
        mint_finish_defined(pending, owned.ids@.len()),
    ensures
        finish_mint_post(pending, owned.ids@.len(), res),
{
    let PendingMint { state, sender, payment, query: _ } = pending;
    let mut state = state;
    let current: usize = state.current_phase as usize;
    let allocation: i32 = state.phases[current].allocation;
    if allocation >= 0 && owned.ids.len() as u64 >= allocation as u64 {
        return Err(ContractError::Unauthorized { reason: String::from_str("max minted") });
    }
    let token_id = i32_to_string(state.last_minted);
    state.last_minted = state.last_minted + 1;
    let fee: u128 = fee_on(state.phases[current].price);

    let mut attributes: Vec<Attribute> = Vec::new();
    attributes.push(attribute("action", String::from_str("mint")));
    attributes.push(attribute("token", i32_to_string(state.last_minted)));

    let transfer = OutMsg::TransferNft {
        contract_addr: state.contract.clone(),
        msg: Tmessage { transfer_nft: SendTokenMsg { recipient: sender, token_id } },
    };
    let mut to_owner: Vec<Coin> = Vec::new();
    to_owner.push(Coin { denom: payment.denom, amount: payment.amount - fee });
    let mut to_collector: Vec<Coin> = Vec::new();
    to_collector.push(Coin { denom: String::from_str("inj"), amount: fee });

    let mut messages: Vec<OutMsg> = Vec::new();
    messages.push(transfer);
    messages.push(OutMsg::BankSend { to_address: state.owner.clone(), amount: to_owner });
    messages.push(OutMsg::BankSend {
        to_address: String::from_str("inj1q7juqp9sw4sjahshanryw2a4qhenlmev9ygpm7"),
        amount: to_collector,
    });
    Ok((state, ContractResponse { attributes, messages }))
}

} // verus!
