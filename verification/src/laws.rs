//! Properties of the contract that relate several of its operations.
use vstd::prelude::*;

use crate::contract::execute::{
    after_sale, current_phase, current_phase_ended, decimal, decimal_digits, digit_char, mint_fee,
    mint_finish_defined, sale_response, selling_index, with_phase_checked, PendingMint,
};
use crate::contract::execute::{
    check_phase_post, finish_mint_post, mint_start_defined, payment_of_post,
    phase_check_defined, start_mint_post,
};
use crate::contract::query::{get_metadata_post, get_phase_post, metadata_of, phase_query_defined, shown_phase_index};
use crate::contract::{instantiate_post, instantiated, query_post, QueryAnswer};
use crate::error::ContractError;
use crate::msg::{Coin, ContractResponse, GetMetadataResponse, GetPhaseResponse, InstantiateMsg, OutMsg, QueryMsg};
use crate::state::State;

verus! {

/// The metadata query on a freshly set up machine gives back the collection,
/// its description, supply, NFT contract and phases as the set-up message
/// gave them, with no token sold.
pub proof fn lemma_metadata_after_instantiate(msg: InstantiateMsg, creator: String)
    ensures
        metadata_of(instantiated(msg, creator)) == (GetMetadataResponse {
            collection: msg.collection,
            description: msg.description,
            symbol: msg.symbol,
            logo_uri: msg.logo_uri,
            banner_uri: msg.banner_uri,
            minted: 0,
            supply: msg.supply,
            contract: msg.contract,
            phases: msg.phases,
        }),
{
}

/// A sale changes nothing in the stored state but the token counter, which
/// grows by one, and the current phase, which moves on by at most one, and
/// only when the phase that was current has ended.
pub proof fn lemma_sale_changes_only_counter_and_phase(state: State, now: u64)
    requires
        0 <= state.current_phase < state.phases@.len(),
        current_phase_ended(state, now) ==> state.current_phase < i8::MAX,
        state.last_minted < i32::MAX,
    ensures
        ({
            let after = after_sale(with_phase_checked(state, now));
            &&& after.last_minted == state.last_minted + 1
            &&& after.current_phase == state.current_phase || after.current_phase == state.current_phase + 1
            &&& after.current_phase != state.current_phase ==> current_phase_ended(state, now)
            &&& State { last_minted: state.last_minted, current_phase: state.current_phase, ..after } == state
        }),
{
}

/// What a sale pays out is exactly what the buyer paid: the owner gets the
/// payment less the fee and the fee collector gets the fee.
pub proof fn lemma_sale_pays_out_payment(p: PendingMint, resp: ContractResponse, held: nat)
    requires
        mint_finish_defined(p, held),
        !crate::contract::execute::allocation_reached(current_phase(p.state), held),
        sale_response(p, resp),
    ensures
        ({
            let to_owner: u128 = resp.messages@[1]->BankSend_amount@[0].amount;
            let to_collector: u128 = resp.messages@[2]->BankSend_amount@[0].amount;
            &&& to_owner + to_collector == p.payment.amount
            &&& to_collector == mint_fee(current_phase(p.state).price)
        }),
{
}

/// Every character of the decimal digits of `n` is a digit, and there is at least one.
pub proof fn lemma_decimal_digits_are_digits(n: nat)
    ensures
        decimal_digits(n).len() >= 1,
        forall|i: int| 0 <= i < decimal_digits(n).len() ==> '0' <= #[trigger] decimal_digits(n)[i] <= '9',
    decreases n,
{
    if n >= 10 {
        lemma_decimal_digits_are_digits(n / 10);
    }
}

/// Different digits have different characters.
proof fn lemma_digit_char_injective(d: int, e: int)
    requires
        0 <= d < 10,
        0 <= e < 10,
        digit_char(d) == digit_char(e),
    ensures
        d == e,
{
    assert(digit_char(d) as int == 48 + d);
    assert(digit_char(e) as int == 48 + e);
}

/// Different numbers have different decimal digits.
pub proof fn lemma_decimal_digits_injective(a: nat, b: nat)
    requires
        decimal_digits(a) == decimal_digits(b),
    ensures
        a == b,
    decreases a,
{
    lemma_decimal_digits_are_digits(a / 10);
    lemma_decimal_digits_are_digits(b / 10);
    if a < 10 && b < 10 {
        assert(decimal_digits(a)[0] == decimal_digits(b)[0]);
        assert(decimal_digits(a)[0] == digit_char(a as int));
        assert(decimal_digits(b)[0] == digit_char(b as int));
        lemma_digit_char_injective(a as int, b as int);
    } else if a < 10 {
        assert(decimal_digits(b).len() >= 2);
    } else if b < 10 {
        assert(decimal_digits(a).len() >= 2);
    } else {
        let da = decimal_digits(a);
        let db = decimal_digits(b);
        assert(da.last() == db.last());
        assert(da.last() == digit_char((a % 10) as int));
        assert(db.last() == digit_char((b % 10) as int));
        assert(da.drop_last() =~= decimal_digits(a / 10));
        assert(db.drop_last() =~= decimal_digits(b / 10));
        lemma_digit_char_injective((a % 10) as int, (b % 10) as int);
        lemma_decimal_digits_injective(a / 10, b / 10);
    }
}

/// Different numbers have different decimal texts.
pub proof fn lemma_decimal_injective(a: int, b: int)
    requires
        decimal(a) == decimal(b),
    ensures
        a == b,
{
    lemma_decimal_digits_are_digits(if a < 0 { (-a) as nat } else { a as nat });
    lemma_decimal_digits_are_digits(if b < 0 { (-b) as nat } else { b as nat });
    if a < 0 && b < 0 {
        assert(decimal(a).drop_first() =~= decimal_digits((-a) as nat));
        assert(decimal(b).drop_first() =~= decimal_digits((-b) as nat));
        lemma_decimal_digits_injective((-a) as nat, (-b) as nat);
    } else if a < 0 {
        assert(decimal(a)[0] == '-');
        assert(decimal(b)[0] == decimal_digits(b as nat)[0]);
    } else if b < 0 {
        assert(decimal(b)[0] == '-');
        assert(decimal(a)[0] == decimal_digits(a as nat)[0]);
    } else {
        lemma_decimal_digits_injective(a as nat, b as nat);
    }
}

/// The phase query shows the phase in which a mint at the same time would
/// sell, except at the very second the current phase ends: the query still
/// shows the ending phase then, while a mint already sells in the next one.
pub proof fn lemma_query_shows_selling_phase(state: State, now: u64)
    requires
        0 <= state.current_phase < state.phases@.len(),
        state.phases@[state.current_phase as int].ends != now,
    ensures
        shown_phase_index(state, now) == selling_index(state, now),
{
}


/// One answered mint request, as it changes the stored state.
pub enum MintStep {
    /// Refused before the phase check (the coin paid is wrong): nothing is stored.
    RefusedBeforePhaseCheck,
    /// Refused after the phase check at `now` (payment, allowlist, holdings,
    /// or the query of the NFT contract failed): the checked phase is stored.
    RefusedAfterPhaseCheck { now: u64 },
    /// A sale at `now`: the checked phase and the sale are stored.
    Sold { now: u64 },
}

/// The stored state after one answered mint request, as `check_phase` and
/// `finish_mint` state it.
pub open spec fn step(state: State, e: MintStep) -> State {
    match e {
        MintStep::RefusedBeforePhaseCheck => state,
        MintStep::RefusedAfterPhaseCheck { now } => with_phase_checked(state, now),
        MintStep::Sold { now } => after_sale(with_phase_checked(state, now)),
    }
}

/// The stored state after the answered mint requests `es`, in order.
pub open spec fn run(state: State, es: Seq<MintStep>) -> State
    decreases es.len(),
{
    if es.len() == 0 {
        state
    } else {
        step(run(state, es.drop_last()), es.last())
    }
}

/// The number of sales among `es`.
pub open spec fn sales(es: Seq<MintStep>) -> nat
    decreases es.len(),
{
    if es.len() == 0 {
        0
    } else {
        sales(es.drop_last()) + if es.last() is Sold { 1nat } else { 0nat }
    }
}

/// Counting sales is monotone along a run.
pub proof fn lemma_sales_monotone(es: Seq<MintStep>, i: int, j: int)
    requires
        0 <= i <= j <= es.len(),
    ensures
        sales(es.take(i)) <= sales(es.take(j)),
    decreases j - i,
{
    if i < j {
        lemma_sales_monotone(es, i, j - 1);
        assert(es.take(j).drop_last() =~= es.take(j - 1));
    }
}

/// Over any run of mint requests the stored state keeps everything but the
/// token counter and the current phase, and the counter grows by the number
/// of sales.
pub proof fn lemma_run_counts_sales(state: State, es: Seq<MintStep>)
    requires
        state.last_minted + sales(es) <= i32::MAX,
    ensures
        run(state, es).last_minted == state.last_minted + sales(es),
        (State { last_minted: state.last_minted, current_phase: state.current_phase, ..run(state, es) }) == state,
    decreases es.len(),
{
    if es.len() > 0 {
        lemma_run_counts_sales(state, es.drop_last());
    }
}

/// After setting a machine up and answering any mint requests, refused ones
/// among them, the metadata query reports as `minted` the number of sales,
/// and the collection, its description, supply, NFT contract and phases as
/// the set-up message gave them.
pub proof fn lemma_metadata_counts_sales(msg: InstantiateMsg, creator: String, es: Seq<MintStep>)
    requires
        sales(es) <= i32::MAX,
    ensures
        metadata_of(run(instantiated(msg, creator), es)) == (GetMetadataResponse {
            collection: msg.collection,
            description: msg.description,
            symbol: msg.symbol,
            logo_uri: msg.logo_uri,
            banner_uri: msg.banner_uri,
            minted: sales(es) as i32,
            supply: msg.supply,
            contract: msg.contract,
            phases: msg.phases,
        }),
{
    lemma_run_counts_sales(instantiated(msg, creator), es);
}

/// Sales hand out the tokens `0`, `1`, `2`, ... in order: after a machine is
/// set up and the requests `es` answered, a sale (from the state with the
/// phase checked at `now`) transfers token `k` and reports `k + 1` tokens
/// sold, where `k` is the number of sales in `es`.
pub proof fn lemma_sales_hand_out_tokens_in_order(
    msg: InstantiateMsg,
    creator: String,
    es: Seq<MintStep>,
    now: u64,
    p: PendingMint,
    resp: ContractResponse,
)
    requires
        sales(es) < i32::MAX,
        p.state == with_phase_checked(run(instantiated(msg, creator), es), now),
        sale_response(p, resp),
    ensures
        resp.messages@[0]->TransferNft_msg.transfer_nft.token_id@ == decimal(sales(es) as int),
        resp.attributes@[1].value@ == decimal(sales(es) + 1int),
{
    lemma_run_counts_sales(instantiated(msg, creator), es);
}

/// Each token is handed out once: two different sales in a run transfer
/// tokens with different ids (the sale at position `i` of `es` transfers
/// token `sales(es.take(i))`).
pub proof fn lemma_sales_hand_out_each_token_once(es: Seq<MintStep>, i: int, j: int)
    requires
        0 <= i < j < es.len(),
        es[i] is Sold,
        es[j] is Sold,
    ensures
        decimal(sales(es.take(i)) as int) != decimal(sales(es.take(j)) as int),
{
    assert(es.take(i + 1).drop_last() =~= es.take(i));
    assert(sales(es.take(i + 1)) == sales(es.take(i)) + 1);
    lemma_sales_monotone(es, i + 1, j);
    if decimal(sales(es.take(i)) as int) == decimal(sales(es.take(j)) as int) {
        lemma_decimal_injective(sales(es.take(i)) as int, sales(es.take(j)) as int);
    }
}


// ---------------------------------------------------------------------------
// What each operation does, stated over its inputs and results
// ---------------------------------------------------------------------------

/// Setting a machine up stores every field of the message in the field of
/// the same name, the NFT contract's creator as owner, no token sold, the
/// first phase current, the fee not paid and the machine stopped; the
/// response sends nothing and reports `method = instantiate`.
pub proof fn lemma_instantiate_stores_the_message(msg: InstantiateMsg, creator: String, res: (State, ContractResponse))
    requires
        instantiate_post(msg, creator, res),
    ensures
        res.0.collection == msg.collection,
        res.0.contract == msg.contract,
        res.0.description == msg.description,
        res.0.symbol == msg.symbol,
        res.0.logo_uri == msg.logo_uri,
        res.0.banner_uri == msg.banner_uri,
        res.0.supply == msg.supply,
        res.0.owner == creator,
        res.0.phases == msg.phases,
        res.0.fee_paid == false,
        res.0.last_minted == 0,
        res.0.current_phase == 0,
        res.0.stopped == true,
        res.1.messages@.len() == 0,
        res.1.attributes@.len() == 1,
        res.1.attributes@[0].key@ == "method"@,
        res.1.attributes@[0].value@ == "instantiate"@,
{
}

/// The metadata query reports each field of the stored state under the same
/// name, and the number of tokens sold as `minted`.
pub proof fn lemma_metadata_reports_the_state(state: State, res: GetMetadataResponse)
    requires
        get_metadata_post(state, res),
    ensures
        res.collection == state.collection,
        res.description == state.description,
        res.symbol == state.symbol,
        res.logo_uri == state.logo_uri,
        res.banner_uri == state.banner_uri,
        res.minted == state.last_minted,
        res.supply == state.supply,
        res.contract == state.contract,
        res.phases == state.phases,
{
}

/// The phase query reports one phase, all of its fields from it: the current
/// phase, or the next one once the current one ended strictly before `now`.
/// Its index and times are reported as they are, up to `i8::MAX` and
/// `i128::MAX`.
pub proof fn lemma_phase_query_reports_one_phase(state: State, now: u64, res: GetPhaseResponse)
    requires
        0 <= state.current_phase < state.phases@.len(),
        state.phases@[state.current_phase as int].ends < now ==> state.current_phase + 1 < state.phases@.len(),
        get_phase_post(state, now, res),
    ensures
        ({
            let k: int = if state.phases@[state.current_phase as int].ends < now {
                state.current_phase + 1
            } else {
                state.current_phase as int
            };
            let shown = state.phases@[k];
            &&& res.current == if k <= 127 { k as i8 } else { 127i8 }
            &&& res.name == shown.name
            &&& res.price == shown.price
            &&& res.allowlist == shown.allowed
            &&& res.ends == if shown.ends <= i128::MAX { shown.ends as i128 } else { i128::MAX }
            &&& res.started == if shown.starts <= i128::MAX { shown.starts as i128 } else { i128::MAX }
        }),
{
}

/// The query dispatch answers the metadata query with the metadata of the
/// stored state and the phase query with the phase the phase query shows.
pub proof fn lemma_query_dispatches(state: State, now: u64, msg: QueryMsg, answer: QueryAnswer)
    requires
        query_post(state, now, msg, answer),
    ensures
        msg is GetMetadata ==> (answer matches QueryAnswer::Metadata(m) && get_metadata_post(state, m)),
        msg is GetPhase ==> (answer matches QueryAnswer::Phase(p) && get_phase_post(state, now, p)),
{
}

/// The coin paid is the first coin sent, which must be `inj`; sending
/// nothing pays zero `inj`; a first coin of another kind is refused with
/// "wrong denom".
pub proof fn lemma_payment_is_the_first_coin(funds: Seq<Coin>, res: Result<Coin, ContractError>)
    requires
        payment_of_post(funds, res),
    ensures
        funds.len() == 0 ==> (res matches Ok(c) && c.amount == 0 && c.denom@ == "inj"@),
        funds.len() > 0 && funds[0].denom@ == "inj"@ ==> (res matches Ok(c) && c.amount == funds[0].amount
            && c.denom@ == "inj"@),
        funds.len() > 0 && funds[0].denom@ != "inj"@ ==> (res matches Err(ContractError::Unauthorized { reason })
            && reason@ == "wrong denom"@),
{
}

/// The phase check moves on to the next phase exactly when the current one's
/// end has come (`ends <= now`), by one phase, from whichever phase is
/// current, and changes nothing else.
pub proof fn lemma_check_phase_moves_on_at_the_end(state: State, now: u64, res: (State, bool))
    requires
        0 <= state.current_phase < state.phases@.len(),
        state.phases@[state.current_phase as int].ends <= now ==> state.current_phase < 127,
        check_phase_post(state, now, res),
    ensures
        res.1 <==> state.phases@[state.current_phase as int].ends <= now,
        res.1 ==> res.0.current_phase == state.current_phase + 1,
        !res.1 ==> res.0.current_phase == state.current_phase,
        (State { current_phase: state.current_phase, ..res.0 }) == state,
{
}

/// A payment below the current phase's price plus 3% of it (rounded down)
/// is refused with `InsufficientFunds`; any answer other than that means the
/// payment covers it.
pub proof fn lemma_start_mint_needs_price_and_fee(state: State, sender: String, payment: Coin, res: Result<PendingMint, ContractError>)
    requires
        0 <= state.current_phase < state.phases@.len(),
        start_mint_post(state, sender, payment, res),
    ensures
        ({
            let price: int = state.phases@[state.current_phase as int].price as int;
            &&& payment.amount < price + price * 3 / 100 ==> (res matches Err(ContractError::InsufficientFunds {}))
            &&& !(res matches Err(ContractError::InsufficientFunds {})) ==> payment.amount >= price + price * 3 / 100
        }),
{
}

/// Whoever is on the current phase's allowlist, at any position, is let
/// through when the payment covers the price and the fee, and so is anyone
/// when the allowlist opens with `*`; the pending mint keeps the state, the
/// buyer and the payment, and asks for at most 30 of the buyer's tokens from
/// the start.
pub proof fn lemma_start_mint_admits_listed_senders(
    state: State,
    sender: String,
    payment: Coin,
    res: Result<PendingMint, ContractError>,
    i: int,
)
    requires
        0 <= state.current_phase < state.phases@.len(),
        start_mint_post(state, sender, payment, res),
        ({
            let phase = state.phases@[state.current_phase as int];
            &&& payment.amount >= phase.price + phase.price * 3 / 100
            &&& 0 <= i < phase.allowed@.len()
            &&& (phase.allowed@[i]@ == sender@ || phase.allowed@[0]@ == "*"@)
        }),
    ensures
        res matches Ok(p) && {
            &&& p.state == state
            &&& p.sender == sender
            &&& p.payment == payment
            &&& p.query.tokens.owner == sender
            &&& p.query.tokens.limit == 30
            &&& p.query.tokens.start_after is None
        },
{
    let phase = state.phases@[state.current_phase as int];
    assert(phase.allowed@[i]@ == sender@ ==> exists|j: int|
        0 <= j < phase.allowed@.len() && #[trigger] phase.allowed@[j]@ == sender@);
}

/// A buyer is refused with "not in allowlist" only when it equals no entry
/// of the current phase's allowlist and the allowlist does not open with `*`.
pub proof fn lemma_start_mint_refuses_only_unlisted_senders(
    state: State,
    sender: String,
    payment: Coin,
    res: Result<PendingMint, ContractError>,
)
    requires
        0 <= state.current_phase < state.phases@.len(),
        start_mint_post(state, sender, payment, res),
        res matches Err(ContractError::Unauthorized { .. }),
    ensures
        ({
            let phase = state.phases@[state.current_phase as int];
            &&& forall|i: int| 0 <= i < phase.allowed@.len() ==> phase.allowed@[i]@ != sender@
            &&& !(phase.allowed@.len() > 0 && phase.allowed@[0]@ == "*"@)
            &&& res matches Err(ContractError::Unauthorized { reason }) && reason@ == "not in allowlist"@
        }),
{
    let phase = state.phases@[state.current_phase as int];
    assert forall|i: int| 0 <= i < phase.allowed@.len() implies phase.allowed@[i]@ != sender@ by {
        if phase.allowed@[i]@ == sender@ {
            assert(exists|j: int| 0 <= j < phase.allowed@.len() && #[trigger] phase.allowed@[j]@ == sender@);
        }
    }
}

/// A buyer who holds at least the current phase's allocation (when it is not
/// negative) is refused with "max minted", however many tokens more it holds.
pub proof fn lemma_finish_mint_refuses_at_allocation(
    pending: PendingMint,
    held: nat,
    res: Result<(State, ContractResponse), ContractError>,
)
    requires
        0 <= pending.state.current_phase < pending.state.phases@.len(),
        finish_mint_post(pending, held, res),
        pending.state.phases@[pending.state.current_phase as int].allocation >= 0,
        held >= pending.state.phases@[pending.state.current_phase as int].allocation,
    ensures
        res matches Err(ContractError::Unauthorized { reason }) && reason@ == "max minted"@,
{
}

/// The value of a text of decimal digits.
pub open spec fn digits_value(s: Seq<char>) -> int
    decreases s.len(),
{
    if s.len() == 0 {
        0
    } else {
        digits_value(s.drop_last()) * 10 + (s.last() as int - 48)
    }
}

/// The number that a decimal text denotes, with a leading `-` for a negative one.
pub open spec fn text_value(s: Seq<char>) -> int {
    if s.len() > 0 && s[0] == '-' {
        -digits_value(s.drop_first())
    } else {
        digits_value(s)
    }
}

/// The decimal digits of `n` denote `n`.
pub proof fn lemma_decimal_digits_denote(n: nat)
    ensures
        digits_value(decimal_digits(n)) == n,
    decreases n,
{
    let d = decimal_digits(n);
    if n < 10 {
        assert(d.drop_last() =~= Seq::<char>::empty());
        assert(digits_value(d.drop_last()) == 0);
        assert(d.last() == digit_char(n as int));
        assert(digit_char(n as int) as int == 48 + n);
    } else {
        lemma_decimal_digits_denote(n / 10);
        assert(d.drop_last() =~= decimal_digits(n / 10));
        assert(d.last() == digit_char((n % 10) as int));
        assert(digit_char((n % 10) as int) as int == 48 + n % 10);
        assert((n / 10) * 10 + n % 10 == n) by (nonlinear_arith);
    }
}

/// The decimal text of `n` denotes `n`.
pub proof fn lemma_decimal_denotes(n: int)
    ensures
        text_value(decimal(n)) == n,
{
    if n < 0 {
        lemma_decimal_digits_denote((-n) as nat);
        assert(decimal(n).drop_first() =~= decimal_digits((-n) as nat));
    } else {
        lemma_decimal_digits_denote(n as nat);
        lemma_decimal_digits_are_digits(n as nat);
        assert('0' <= decimal_digits(n as nat)[0] <= '9');
    }
}

/// A buyer below the allocation (or in a phase with a negative allocation)
/// buys: the token counter grows by one and nothing else in the state
/// changes; the token whose id denotes the count before the sale goes to the
/// buyer through the NFT contract, the response reports the new count, the
/// owner receives the payment less 3% of the price (rounded down) in the
/// coin paid, and the fee collector receives that 3% in `inj`.
pub proof fn lemma_finish_mint_sells_below_allocation(
    pending: PendingMint,
    held: nat,
    res: Result<(State, ContractResponse), ContractError>,
)
    requires
        0 <= pending.state.current_phase < pending.state.phases@.len(),
        pending.state.last_minted < i32::MAX,
        finish_mint_post(pending, held, res),
        ({
            let allocation = pending.state.phases@[pending.state.current_phase as int].allocation;
            allocation < 0 || held < allocation
        }),
    ensures
        res matches Ok((state, resp)) && {
            let before = pending.state;
            let fee: int = before.phases@[before.current_phase as int].price * 3 / 100;
            &&& state.last_minted == before.last_minted + 1
            &&& (State { last_minted: before.last_minted, ..state }) == before
            &&& resp.attributes@.len() == 2
            &&& resp.attributes@[0].key@ == "action"@
            &&& resp.attributes@[0].value@ == "mint"@
            &&& resp.attributes@[1].key@ == "token"@
            &&& text_value(resp.attributes@[1].value@) == before.last_minted + 1
            &&& resp.messages@.len() == 3
            &&& resp.messages@[0] matches OutMsg::TransferNft { contract_addr, msg }
                && contract_addr == before.contract
                && msg.transfer_nft.recipient == pending.sender
                && text_value(msg.transfer_nft.token_id@) == before.last_minted
            &&& resp.messages@[1] matches OutMsg::BankSend { to_address, amount }
                && to_address == before.owner
                && amount@.len() == 1
                && amount@[0].denom@ == pending.payment.denom@
                && amount@[0].amount == pending.payment.amount - fee
            &&& resp.messages@[2] matches OutMsg::BankSend { to_address, amount }
                && to_address@ == "inj1q7juqp9sw4sjahshanryw2a4qhenlmev9ygpm7"@
                && amount@.len() == 1
                && amount@[0].denom@ == "inj"@
                && amount@[0].amount == fee
        },
{
    lemma_decimal_denotes(pending.state.last_minted as int);
    lemma_decimal_denotes(pending.state.last_minted + 1);
}

/// The phase check is made when the current phase exists and, once it has
/// ended, its index can grow within `i8`.
pub proof fn lemma_phase_check_answerable(state: State, now: u64, b: bool)
    requires
        b == phase_check_defined(state, now),
    ensures
        b <==> (0 <= state.current_phase < state.phases@.len()
            && (state.phases@[state.current_phase as int].ends <= now ==> state.current_phase < 127)),
{
}

/// The payment and allowlist checks are made when the current phase exists,
/// its price plus 3% fits in `u128`, and, for a payment that covers that,
/// its allowlist is not empty or names the sender.
pub proof fn lemma_mint_start_answerable(state: State, sender: Seq<char>, payment: Coin, b: bool)
    requires
        b == mint_start_defined(state, sender, payment),
    ensures
        b <==> (0 <= state.current_phase < state.phases@.len() && {
            let phase = state.phases@[state.current_phase as int];
            &&& phase.price + phase.price * 3 / 100 <= u128::MAX
            &&& payment.amount >= phase.price + phase.price * 3 / 100 ==> (phase.allowed@.len() > 0
                || exists|i: int| 0 <= i < phase.allowed@.len() && #[trigger] phase.allowed@[i]@ == sender)
        }),
{
}

/// A pending mint is decided when its phase exists and, for a sale that goes
/// ahead (the buyer below a non-negative allocation, or any allocation that is
/// negative), the counter can grow within `i32` and the payment covers 3% of
/// the price.
pub proof fn lemma_mint_finish_answerable(p: PendingMint, held: nat, b: bool)
    requires
        b == mint_finish_defined(p, held),
    ensures
        b <==> (0 <= p.state.current_phase < p.state.phases@.len() && {
            let phase = p.state.phases@[p.state.current_phase as int];
            (phase.allocation < 0 || held < phase.allocation) ==> (p.state.last_minted < i32::MAX
                && p.payment.amount >= phase.price * 3 / 100)
        }),
{
}

/// The phase query is answered when the current phase exists and, once it
/// ended strictly before `now`, so does the next one.
pub proof fn lemma_phase_query_answerable(state: State, now: u64, b: bool)
    requires
        b == phase_query_defined(state, now),
    ensures
        b <==> (0 <= state.current_phase < state.phases@.len()
            && (state.phases@[state.current_phase as int].ends < now ==> state.current_phase + 1 < state.phases@.len())),
{
}

/// The fee on a price is 3% of it, rounded down.
pub proof fn lemma_fee_is_three_percent(price: u128, fee: u128)
    requires
        fee == crate::contract::execute::mint_fee(price),
    ensures
        fee == price * 3 / 100,
{
}

/// The text that `i32_to_string` gives for `n` denotes `n`.
pub proof fn lemma_token_text_denotes(n: i32, s: Seq<char>)
    requires
        s == decimal(n as int),
    ensures
        text_value(s) == n,
{
    lemma_decimal_denotes(n as int);
}

} // verus!
