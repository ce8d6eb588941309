use vstd::prelude::*;

use crate::error::ContractError;
use crate::msg::{
    entry_eq, Coin, Cw20HookMsg, ExecuteMsg, MessageInfo, Recipient, TransferInstruction,
};

verus! {

// ---------------------------------------------------------------------------
// The mathematical model of a distribution request.
// ---------------------------------------------------------------------------

/// The mathematical sum of the requested amounts, free of any machine bound.
pub open spec fn sum_amounts(rs: Seq<Recipient>) -> int
    decreases rs.len(),
{
    if rs.len() == 0 {
        0
    } else {
        sum_amounts(rs.drop_last()) + rs.last().amount
    }
}

/// Two structurally identical entries occur at different positions.
pub open spec fn has_duplicate(rs: Seq<Recipient>) -> bool {
    exists|i: int, j: int| 0 <= i < j < rs.len() && #[trigger] entry_eq(rs[i], rs[j])
}

/// Every attached coin carries the declared denomination.
pub open spec fn funds_match_denom(funds: Seq<Coin>, denom: Seq<char>) -> bool {
    forall|i: int| 0 <= i < funds.len() ==> (#[trigger] funds[i]).denom@ == denom
}

/// The deposited amount read off the attached coins, once every coin is known
/// to carry the declared denomination: the amount of the last coin, or zero
/// when no coin is attached.
pub open spec fn native_deposit(funds: Seq<Coin>) -> int {
    if funds.len() == 0 {
        0
    } else {
        funds.last().amount as int
    }
}

/// The verdict of the host's address validator on the first rejected
/// recipient: the validator's message, or `None` when every address passed.
/// One verdict stands for each recipient, in request order.
pub open spec fn first_failure(checks: Seq<Option<String>>) -> Option<String>
    decreases checks.len(),
{
    if checks.len() == 0 {
        None
    } else if checks[0] is Some {
        checks[0]
    } else {
        first_failure(checks.drop_first())
    }
}

/// Every recipient address passed the host's validator.
pub open spec fn all_addresses_valid(checks: Seq<Option<String>>) -> bool {
    forall|i: int| 0 <= i < checks.len() ==> (#[trigger] checks[i]) is None
}

/// The native-send instructions for a validated request: one per recipient,
/// in request order, each carrying the declared denomination.
pub open spec fn native_instructions(denom: String, rs: Seq<Recipient>) -> Seq<
    TransferInstruction,
> {
    Seq::new(
        rs.len(),
        |i: int|
            TransferInstruction::NativeSend {
                to_address: rs[i].recipient,
                amount: rs[i].amount,
                denom: denom,
            },
    )
}

/// The custodial-token transfer instructions for a validated request: one per
/// recipient, in request order, each addressed to the declared token contract.
pub open spec fn cw20_instructions(asset_token: String, rs: Seq<Recipient>) -> Seq<
    TransferInstruction,
> {
    Seq::new(
        rs.len(),
        |i: int|
            TransferInstruction::Cw20Transfer {
                contract_addr: asset_token,
                recipient: rs[i].recipient,
                amount: rs[i].amount,
            },
    )
}

/// The amount an instruction pays out, whatever its shape.
pub open spec fn instruction_amount(t: TransferInstruction) -> int {
    match t {
        TransferInstruction::NativeSend { amount, .. } => amount as int,
        TransferInstruction::Cw20Transfer { amount, .. } => amount as int,
    }
}

/// The total value paid out by a sequence of instructions.
pub open spec fn sum_instruction_amounts(ts: Seq<TransferInstruction>) -> int
    decreases ts.len(),
{
    if ts.len() == 0 {
        0
    } else {
        sum_instruction_amounts(ts.drop_last()) + instruction_amount(ts.last())
    }
}

/// The checks shared by both entry paths, in their fixed order: the amount
/// check, then the duplicate check, then the address verdicts. `None` means
/// the request passed them all.
pub open spec fn distribution_error(
    deposit: int,
    rs: Seq<Recipient>,
    checks: Seq<Option<String>>,
) -> Option<ContractError> {
    if sum_amounts(rs) != deposit {
        Some(ContractError::MismatchedAssetAmount)
    } else if has_duplicate(rs) {
        Some(ContractError::DuplicateRecipient)
    } else if first_failure(checks) is Some {
        Some(ContractError::InvalidAddress(first_failure(checks)->0))
    } else {
        None
    }
}

/// What a request produces once the asset itself has been accepted: the
/// instructions `instrs` when every shared check passes, and the first
/// failing check's error otherwise.
pub open spec fn distribution_outcome(
    deposit: int,
    rs: Seq<Recipient>,
    checks: Seq<Option<String>>,
    instrs: Seq<TransferInstruction>,
) -> Result<Seq<TransferInstruction>, ContractError> {
    match distribution_error(deposit, rs, checks) {
        Some(e) => Err(e),
        None => Ok(instrs),
    }
}

/// What a native-coin request produces: a coin with a foreign denomination
/// rejects the asset outright; otherwise the deposit read off the attached
/// coins must cover the payouts exactly.
pub open spec fn native_outcome(
    funds: Seq<Coin>,
    denom: String,
    rs: Seq<Recipient>,
    checks: Seq<Option<String>>,
) -> Result<Seq<TransferInstruction>, ContractError> {
    if !funds_match_denom(funds, denom@) {
        Err(ContractError::MismatchedAssetType)
    } else {
        distribution_outcome(native_deposit(funds), rs, checks, native_instructions(denom, rs))
    }
}

/// What a custodial-token request produces once the sender has been accepted:
/// the deposited token amount must cover the payouts exactly.
pub open spec fn cw20_outcome(
    amount: u128,
    asset_token: String,
    rs: Seq<Recipient>,
    checks: Seq<Option<String>>,
) -> Result<Seq<TransferInstruction>, ContractError> {
    distribution_outcome(amount as int, rs, checks, cw20_instructions(asset_token, rs))
}

/// What an inbound custodial-token notification produces: only the token
/// contract named in the hook itself may trigger a distribution of its token.
pub open spec fn receive_outcome(
    sender: String,
    amount: u128,
    hook: Cw20HookMsg,
    checks: Seq<Option<String>>,
) -> Result<Seq<TransferInstruction>, ContractError> {
    if sender@ != hook->asset_token@ {
        Err(ContractError::MismatchedAssetType)
    } else {
        cw20_outcome(amount, hook->asset_token, hook->recipients@, checks)
    }
}

/// The recipients a request asks to pay, whichever path it takes.
pub open spec fn msg_recipients(msg: ExecuteMsg) -> Seq<Recipient> {
    match msg {
        ExecuteMsg::Receive { hook, .. } => hook->recipients@,
        ExecuteMsg::DistributeNative { recipients, .. } => recipients@,
    }
}

/// What a request produces, whichever path it takes.
pub open spec fn execute_outcome(
    info: MessageInfo,
    msg: ExecuteMsg,
    checks: Seq<Option<String>>,
) -> Result<Seq<TransferInstruction>, ContractError> {
    match msg {
        ExecuteMsg::Receive { amount, hook } => receive_outcome(info.sender, amount, hook, checks),
        ExecuteMsg::DistributeNative { denom, recipients } => native_outcome(
            info.funds@,
            denom,
            recipients@,
            checks,
        ),
    }
}

/// An executable result agrees with a modelled outcome: the same success or
/// failure, and on success the very same instructions.
pub open spec fn matches_outcome(
    r: Result<Vec<TransferInstruction>, ContractError>,
    o: Result<Seq<TransferInstruction>, ContractError>,
) -> bool {
    match r {
        Ok(v) => o == Ok::<Seq<TransferInstruction>, ContractError>(v@),
        Err(e) => o == Err::<Seq<TransferInstruction>, ContractError>(e),
    }
}

// ---------------------------------------------------------------------------
// Proofs about the model.
// ---------------------------------------------------------------------------

/// The sum of a prefix never exceeds the sum of the whole sequence.
proof fn lemma_sum_take_le(rs: Seq<Recipient>, i: int)
    requires
        0 <= i <= rs.len(),
    ensures
        sum_amounts(rs.take(i)) <= sum_amounts(rs),
    decreases rs.len() - i,
{
    if i == rs.len() {
        assert(rs.take(i) =~= rs);
    } else {
        lemma_sum_take_le(rs, i + 1);
        assert(rs.take(i + 1).drop_last() =~= rs.take(i));
        assert(rs.take(i + 1).last() == rs[i]);
    }
}

/// Extending a prefix by one entry adds that entry's amount to the sum.
proof fn lemma_sum_take_step(rs: Seq<Recipient>, i: int)
    requires
        0 <= i < rs.len(),
    ensures
        sum_amounts(rs.take(i + 1)) == sum_amounts(rs.take(i)) + rs[i].amount,
{
    assert(rs.take(i + 1).drop_last() =~= rs.take(i));
    assert(rs.take(i + 1).last() == rs[i]);
}

/// Law: a rejected address is never overlooked, and no failure is invented —
/// the first-failure scan reports a verdict exactly when some recipient's
/// address was rejected by the host's validator.
pub proof fn lemma_first_failure_iff(checks: Seq<Option<String>>)
    ensures
        first_failure(checks) is Some <==> !all_addresses_valid(checks),
    decreases checks.len(),
{
    if checks.len() > 0 {
        lemma_first_failure_iff(checks.drop_first());
        if checks[0] is Some {
        } else if first_failure(checks.drop_first()) is Some {
            let i = choose|i: int|
                0 <= i < checks.drop_first().len() && !((#[trigger] checks.drop_first()[i])
                    is None);
            assert(checks[i + 1] == checks.drop_first()[i]);
        } else {
            assert forall|i: int| 0 <= i < checks.len() implies (#[trigger] checks[i]) is None by {
                if i > 0 {
                    assert(checks[i] == checks.drop_first()[i - 1]);
                }
            }
        }
    }
}

/// Law: native instruction construction conserves the request — one
/// instruction per recipient, and the instruction amounts sum to the
/// recipient amounts.
pub proof fn lemma_native_conservation(denom: String, rs: Seq<Recipient>)
    ensures
        native_instructions(denom, rs).len() == rs.len(),
        sum_instruction_amounts(native_instructions(denom, rs)) == sum_amounts(rs),
    decreases rs.len(),
{
    if rs.len() > 0 {
        lemma_native_conservation(denom, rs.drop_last());
        assert(native_instructions(denom, rs).drop_last() =~= native_instructions(
            denom,
            rs.drop_last(),
        ));
    }
}

/// Law: custodial-token instruction construction conserves the request — one
/// instruction per recipient, and the instruction amounts sum to the
/// recipient amounts.
pub proof fn lemma_cw20_conservation(asset_token: String, rs: Seq<Recipient>)
    ensures
        cw20_instructions(asset_token, rs).len() == rs.len(),
        sum_instruction_amounts(cw20_instructions(asset_token, rs)) == sum_amounts(rs),
    decreases rs.len(),
{
    if rs.len() > 0 {
        lemma_cw20_conservation(asset_token, rs.drop_last());
        assert(cw20_instructions(asset_token, rs).drop_last() =~= cw20_instructions(
            asset_token,
            rs.drop_last(),
        ));
    }
}

/// When every verdict before position `i` passed and the verdict at `i` is a
/// failure, the first-failure scan returns exactly that verdict.
proof fn lemma_first_failure_at(checks: Seq<Option<String>>, i: int)
    requires
        0 <= i < checks.len(),
        forall|j: int| 0 <= j < i ==> (#[trigger] checks[j]) is None,
        checks[i] is Some,
    ensures
        first_failure(checks) == checks[i],
    decreases i,
{
    if i > 0 {
        assert forall|j: int| 0 <= j < i - 1 implies (#[trigger] checks.drop_first()[j])
            is None by {
            assert(checks.drop_first()[j] == checks[j + 1]);
        }
        assert(checks.drop_first()[i - 1] == checks[i]);
        lemma_first_failure_at(checks.drop_first(), i - 1);
    }
}

// ---------------------------------------------------------------------------
// The validation steps.
// ---------------------------------------------------------------------------

/// Sums the requested amounts, reporting `None` when the true sum does not
/// fit the 128-bit accumulator instead of wrapping around.
fn sum_recipient_amounts(recipients: &Vec<Recipient>) -> (r: Option<u128>)
    ensures
        r matches Some(s) ==> s == sum_amounts(recipients@),
        r is None ==> sum_amounts(recipients@) > u128::MAX,
{
    let mut sum: u128 = 0;
    let mut i: usize = 0;
    while i < recipients.len()
        invariant
            i <= recipients@.len(),
            sum == sum_amounts(recipients@.take(i as int)),
        decreases recipients@.len() - i,
    {
        proof {
            lemma_sum_take_step(recipients@, i as int);
        }
        sum = match sum.checked_add(recipients[i].amount) {
            Some(s) => s,
            None => {
                proof {
                    lemma_sum_take_le(recipients@, i as int + 1);
                }
                return None;
            },
        };
        i += 1;
    }
    proof {
        assert(recipients@.take(recipients@.len() as int) =~= recipients@);
    }
    Some(sum)
}

/// Decides whether two structurally identical entries occur anywhere in the
/// request, comparing every pair of positions.
fn contains_duplicate(recipients: &Vec<Recipient>) -> (r: bool)
    ensures
        r == has_duplicate(recipients@),
{
    let n: usize = recipients.len();
    let mut i: usize = 0;
    while i < n
        invariant
            n == recipients@.len(),
            i <= n,
            forall|a: int, b: int|
                0 <= a < b < n && a < i ==> !(#[trigger] entry_eq(
                    recipients@[a],
                    recipients@[b],
                )),
        decreases n - i,
    {
        let mut j: usize = i + 1;
        while j < n
            invariant
                n == recipients@.len(),
                i < n,
                i < j <= n,
                forall|a: int, b: int|
                    0 <= a < b < n && a < i ==> !(#[trigger] entry_eq(
                        recipients@[a],
                        recipients@[b],
                    )),
                forall|b: int|
                    i < b < j ==> !(#[trigger] entry_eq(recipients@[i as int], recipients@[b])),
            decreases n - j,
        {
            if recipients[i].same_entry(&recipients[j]) {
                assert(entry_eq(recipients@[i as int], recipients@[j as int]));
                return true;
            }
            j += 1;
        }
        i += 1;
    }
    false
}

/// Scans the validator's verdicts in request order and hands back the first
/// failure, or `None` when every address passed.
fn first_invalid_address(addr_checks: &Vec<Option<String>>) -> (r: Option<String>)
    ensures
        r == first_failure(addr_checks@),
        r is None ==> all_addresses_valid(addr_checks@),
{
    let n: usize = addr_checks.len();
    let mut i: usize = 0;
    while i < n
        invariant
            n == addr_checks@.len(),
            i <= n,
            forall|j: int| 0 <= j < i ==> (#[trigger] addr_checks@[j]) is None,
        decreases n - i,
    {
        match &addr_checks[i] {
            Some(message) => {
                proof {
                    lemma_first_failure_at(addr_checks@, i as int);
                }
                return Some(message.clone());
            },
            None => {},
        }
        i += 1;
    }
    proof {
        lemma_first_failure_iff(addr_checks@);
    }
    None
}

/// Runs the shared checks in their fixed order and hands back the first
/// failure, or `None` when the request passed them all.
fn check_distribution(
    deposit: u128,
    recipients: &Vec<Recipient>,
    addr_checks: &Vec<Option<String>>,
) -> (r: Option<ContractError>)
    ensures
        r == distribution_error(deposit as int, recipients@, addr_checks@),
{
    let matches_deposit = match sum_recipient_amounts(recipients) {
        Some(sum) => sum == deposit,
        None => false,
    };
    if !matches_deposit {
        return Some(ContractError::MismatchedAssetAmount);
    }
    if contains_duplicate(recipients) {
        return Some(ContractError::DuplicateRecipient);
    }
    match first_invalid_address(addr_checks) {
        Some(message) => Some(ContractError::InvalidAddress(message)),
        None => None,
    }
}

/// Emits one native-send instruction per recipient, in request order.
fn build_native_instructions(denom: &String, recipients: &Vec<Recipient>) -> (out: Vec<
    TransferInstruction,
>)
    ensures
        out@ == native_instructions(*denom, recipients@),
{
    let mut out: Vec<TransferInstruction> = Vec::new();
    let mut i: usize = 0;
    while i < recipients.len()
        invariant
            i <= recipients@.len(),
            out@ == native_instructions(*denom, recipients@.take(i as int)),
        decreases recipients@.len() - i,
    {
        let entry = &recipients[i];
        out.push(
            TransferInstruction::NativeSend {
                to_address: entry.recipient.clone(),
                amount: entry.amount,
                denom: denom.clone(),
            },
        );
        proof {
            assert(out@ =~= native_instructions(*denom, recipients@.take(i as int + 1)));
        }
        i += 1;
    }
    proof {
        assert(recipients@.take(recipients@.len() as int) =~= recipients@);
    }
    out
}

/// Emits one custodial-token transfer instruction per recipient, in request
/// order, each addressed to the declared token contract.
fn build_cw20_instructions(asset_token: &String, recipients: &Vec<Recipient>) -> (out: Vec<
    TransferInstruction,
>)
    ensures
        out@ == cw20_instructions(*asset_token, recipients@),
{
    let mut out: Vec<TransferInstruction> = Vec::new();
    let mut i: usize = 0;
    while i < recipients.len()
        invariant
            i <= recipients@.len(),
            out@ == cw20_instructions(*asset_token, recipients@.take(i as int)),
        decreases recipients@.len() - i,
    {
        let entry = &recipients[i];
        out.push(
            TransferInstruction::Cw20Transfer {
                contract_addr: asset_token.clone(),
                recipient: entry.recipient.clone(),
                amount: entry.amount,
            },
        );
        proof {
            assert(out@ =~= cw20_instructions(*asset_token, recipients@.take(i as int + 1)));
        }
        i += 1;
    }
    proof {
        assert(recipients@.take(recipients@.len() as int) =~= recipients@);
    }
    out
}

// ---------------------------------------------------------------------------
// The entry points.
// ---------------------------------------------------------------------------

/// Validates a native-coin distribution request against the coins attached to
/// the call and builds its transfer instructions.
///
/// `addr_checks` carries the host validator's verdict on each recipient's
/// address, in request order: `None` for a valid address, `Some(message)`
/// for a rejected one.
pub fn try_distribute_native(
    info: &MessageInfo,
    denom: &String,
    recipients: &Vec<Recipient>,
    addr_checks: &Vec<Option<String>>,
) -> (r: Result<Vec<TransferInstruction>, ContractError>)
    requires
        addr_checks@.len() == recipients@.len(),
    ensures
        matches_outcome(r, native_outcome(info.funds@, *denom, recipients@, addr_checks@)),
        r is Ok <==> (funds_match_denom(info.funds@, denom@) && sum_amounts(recipients@)
            == native_deposit(info.funds@) && !has_duplicate(recipients@) && all_addresses_valid(
            addr_checks@,
        )),
        r matches Ok(out) ==> out@.len() == recipients@.len() && sum_instruction_amounts(out@)
            == native_deposit(info.funds@),
{
    let mut amount: u128 = 0;
    let mut i: usize = 0;
    while i < info.funds.len()
        invariant
            i <= info.funds@.len(),
            forall|j: int| 0 <= j < i ==> (#[trigger] info.funds@[j]).denom@ == denom@,
            amount as int == if i == 0 {
                0int
            } else {
                info.funds@[i - 1].amount as int
            },
        decreases info.funds@.len() - i,
    {
        let coin = &info.funds[i];
        if !(coin.denom == *denom) {
            proof {
                assert(!funds_match_denom(info.funds@, denom@)) by {
                    assert(info.funds@[i as int].denom@ != denom@);
                }
            }
            return Err(ContractError::MismatchedAssetType);
        }
        amount = coin.amount;
        i += 1;
    }
    proof {
        lemma_first_failure_iff(addr_checks@);
    }
    match check_distribution(amount, recipients, addr_checks) {
        Some(e) => Err(e),
        None => {
            let out = build_native_instructions(denom, recipients);
            proof {
                lemma_native_conservation(*denom, recipients@);
            }
            Ok(out)
        },
    }
}

/// Validates a custodial-token distribution request against the deposited
/// token amount and builds its transfer instructions. The sender of the
/// notification has already been checked against the declared token contract.
///
/// `addr_checks` carries the host validator's verdict on each recipient's
/// address, in request order: `None` for a valid address, `Some(message)`
/// for a rejected one.
pub fn try_distribute_cw20(
    amount: u128,
    asset_token: &String,
    recipients: &Vec<Recipient>,
    addr_checks: &Vec<Option<String>>,
) -> (r: Result<Vec<TransferInstruction>, ContractError>)
    requires
        addr_checks@.len() == recipients@.len(),
    ensures
        matches_outcome(r, cw20_outcome(amount, *asset_token, recipients@, addr_checks@)),
        r is Ok <==> (sum_amounts(recipients@) == amount && !has_duplicate(recipients@)
            && all_addresses_valid(addr_checks@)),
        r matches Ok(out) ==> out@.len() == recipients@.len() && sum_instruction_amounts(out@)
            == amount as int,
{
    proof {
        lemma_first_failure_iff(addr_checks@);
    }
    match check_distribution(amount, recipients, addr_checks) {
        Some(e) => Err(e),
        None => {
            let out = build_cw20_instructions(asset_token, recipients);
            proof {
                lemma_cw20_conservation(*asset_token, recipients@);
            }
            Ok(out)
        },
    }
}

/// Handles an inbound custodial-token transfer notification whose payload the
/// host layer has already decoded into a hook request: checks that the
/// notification was sent by the token contract the hook itself declares, then
/// validates and builds the distribution.
pub fn receive_cw20(
    info: &MessageInfo,
    amount: u128,
    hook: &Cw20HookMsg,
    addr_checks: &Vec<Option<String>>,
) -> (r: Result<Vec<TransferInstruction>, ContractError>)
    requires
        addr_checks@.len() == hook->recipients@.len(),
    ensures
        matches_outcome(r, receive_outcome(info.sender, amount, *hook, addr_checks@)),
        r matches Ok(out) ==> out@.len() == hook->recipients@.len() && sum_instruction_amounts(
            out@,
        ) == amount as int,
{
    match hook {
        Cw20HookMsg::DistributeCw20 { asset_token, recipients } => {
            if !(info.sender == *asset_token) {
                return Err(ContractError::MismatchedAssetType);
            }
            try_distribute_cw20(amount, asset_token, recipients, addr_checks)
        },
    }
}

/// Dispatches a request to its entry path: an inbound custodial-token
/// notification or a native-coin distribution.
pub fn execute(info: &MessageInfo, msg: &ExecuteMsg, addr_checks: &Vec<Option<String>>) -> (r:
    Result<Vec<TransferInstruction>, ContractError>)
    requires
        addr_checks@.len() == msg_recipients(*msg).len(),
    ensures
        matches_outcome(r, execute_outcome(*info, *msg, addr_checks@)),
{
    match msg {
        ExecuteMsg::Receive { amount, hook } => receive_cw20(info, *amount, hook, addr_checks),
        ExecuteMsg::DistributeNative { denom, recipients } => try_distribute_native(
            info,
            denom,
            recipients,
            addr_checks,
        ),
    }
}

} // verus!
