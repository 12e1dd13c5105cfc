use vstd::prelude::*;
use crate::processor::ExchangeAccounts;
use crate::processor::ExchangeEffects;
use crate::processor::TokenOp;
use crate::processor::spec_process_exchange;
use crate::state::Pubkey;

verus! {

/// The balances an Exchange touches, as the settlement model tracks them:
/// the four token accounts' balances, whether the custody account still
/// exists, and the two plain balances the deposit sweep moves.
#[derive(Clone, Copy, Debug, PartialEq, Eq, Structural)]
pub struct SwapBalances {
    pub takers_sending_balance: u64,
    pub takers_receiving_balance: u64,
    pub custody_balance: u64,
    pub custody_open: bool,
    pub initializers_receiving_balance: u64,
    pub initializers_main_lamports: u64,
    pub escrow_lamports: u64,
    pub escrow_record_active: bool,
}

/// The amount a transfer request moves.
pub open spec fn spec_op_amount(op: TokenOp) -> u64 {
    match op {
        TokenOp::Transfer { amount, .. } => amount,
        _ => 0,
    }
}

/// Exchange effects have the shape the transition produces: two transfers
/// and a close, in that order.
pub open spec fn spec_exchange_effects_wf(e: ExchangeEffects) -> bool {
    &&& e.transfer_to_initializer matches TokenOp::Transfer { .. }
    &&& e.transfer_to_taker matches TokenOp::Transfer { .. }
    &&& e.close_custody matches TokenOp::CloseAccount { .. }
}

/// What settling the four Exchange legs in order yields. Every leg must
/// succeed: the taker covers the first transfer, the custody account exists
/// and is emptied exactly by the second, the close finds it empty, and the
/// deposit sweep does not overflow. If any leg fails the whole settlement
/// yields nothing.
pub open spec fn spec_apply_exchange(pre: SwapBalances, e: ExchangeEffects) -> Option<
    SwapBalances,
> {
    let amt1 = spec_op_amount(e.transfer_to_initializer);
    let amt2 = spec_op_amount(e.transfer_to_taker);
    if pre.takers_sending_balance >= amt1 && pre.initializers_receiving_balance + amt1
        <= u64::MAX && pre.custody_open && pre.custody_balance == amt2
        && pre.takers_receiving_balance + amt2 <= u64::MAX && pre.initializers_main_lamports
        + pre.escrow_lamports <= u64::MAX {
        Some(
            SwapBalances {
                takers_sending_balance: (pre.takers_sending_balance - amt1) as u64,
                takers_receiving_balance: (pre.takers_receiving_balance + amt2) as u64,
                custody_balance: 0u64,
                custody_open: false,
                initializers_receiving_balance: (pre.initializers_receiving_balance + amt1) as u64,
                initializers_main_lamports: (pre.initializers_main_lamports
                    + pre.escrow_lamports) as u64,
                escrow_lamports: 0u64,
                escrow_record_active: false,
            },
        )
    } else {
        None
    }
}

/// Settle the four Exchange legs in order against the pre-state: the taker's
/// transfer to the initializer, the custody payout to the taker, the custody
/// close, and the deposit sweep. Yields the settled balances, or `None` if
/// any leg fails.
pub fn apply_exchange(pre: &SwapBalances, effects: &ExchangeEffects) -> (r: Option<SwapBalances>)
    requires
        spec_exchange_effects_wf(*effects),
    ensures
        r == spec_apply_exchange(*pre, *effects),
{
    let amt1 = match effects.transfer_to_initializer {
        TokenOp::Transfer { amount, .. } => amount,
        _ => {
            proof {
                assert(false);
            }
            0
        },
    };
    let amt2 = match effects.transfer_to_taker {
        TokenOp::Transfer { amount, .. } => amount,
        _ => {
            proof {
                assert(false);
            }
            0
        },
    };
    if pre.takers_sending_balance < amt1 {
        return None;
    }
    if pre.initializers_receiving_balance > u64::MAX - amt1 {
        return None;
    }
    if !pre.custody_open {
        return None;
    }
    if pre.custody_balance != amt2 {
        return None;
    }
    if pre.takers_receiving_balance > u64::MAX - amt2 {
        return None;
    }
    if pre.initializers_main_lamports > u64::MAX - pre.escrow_lamports {
        return None;
    }
    Some(
        SwapBalances {
            takers_sending_balance: pre.takers_sending_balance - amt1,
            takers_receiving_balance: pre.takers_receiving_balance + amt2,
            custody_balance: 0,
            custody_open: false,
            initializers_receiving_balance: pre.initializers_receiving_balance + amt1,
            initializers_main_lamports: pre.initializers_main_lamports + pre.escrow_lamports,
            escrow_lamports: 0,
            escrow_record_active: false,
        },
    )
}

/// Settle an Exchange all-or-nothing. The second component says whether the
/// settlement succeeded; when it is false, the returned balances are the
/// pre-state unchanged: no leg's effect is observable unless every leg
/// succeeded.
pub fn commit_exchange(pre: &SwapBalances, effects: &ExchangeEffects) -> (r: (SwapBalances, bool))
    requires
        spec_exchange_effects_wf(*effects),
    ensures
        r == (match spec_apply_exchange(*pre, *effects) {
            Some(post) => (post, true),
            None => (*pre, false),
        }),
        !r.1 ==> r.0 == *pre,
{
    match apply_exchange(pre, effects) {
        Some(post) => (post, true),
        None => (*pre, false),
    }
}

/// A successful Exchange settles in full. If the transition accepted the
/// accounts, and the settlement pre-state shows the custody account open
/// holding exactly the balance the taker expected, the taker able to cover
/// the first transfer, and no receiving balance or deposit sweep
/// overflowing, then settlement succeeds and moves the record's expected
/// amount to the initializer's receiving balance and the whole custody
/// balance to the taker's receiving balance, closes the custody account,
/// and sweeps the escrow deposit to the initializer's main account, leaving
/// the record empty.
pub proof fn lemma_exchange_settles(
    a: ExchangeAccounts,
    amount_expected_by_taker: u64,
    custody_authority: Pubkey,
    bump: u8,
    e: ExchangeEffects,
    pre: SwapBalances,
)
    requires
        spec_process_exchange(a, amount_expected_by_taker, custody_authority, bump)
            == Ok::<ExchangeEffects, crate::error::EscrowError>(e),
        pre.custody_open,
        pre.custody_balance == amount_expected_by_taker,
        pre.takers_sending_balance >= spec_op_amount(e.transfer_to_initializer),
        pre.initializers_receiving_balance + spec_op_amount(e.transfer_to_initializer)
            <= u64::MAX,
        pre.takers_receiving_balance + amount_expected_by_taker <= u64::MAX,
        pre.initializers_main_lamports + pre.escrow_lamports <= u64::MAX,
    ensures
        spec_exchange_effects_wf(e),
        spec_apply_exchange(pre, e) == Some(
            SwapBalances {
                takers_sending_balance: (pre.takers_sending_balance - spec_op_amount(
                    e.transfer_to_initializer,
                )) as u64,
                takers_receiving_balance: (pre.takers_receiving_balance
                    + amount_expected_by_taker) as u64,
                custody_balance: 0u64,
                custody_open: false,
                initializers_receiving_balance: (pre.initializers_receiving_balance
                    + spec_op_amount(e.transfer_to_initializer)) as u64,
                initializers_main_lamports: (pre.initializers_main_lamports
                    + pre.escrow_lamports) as u64,
                escrow_lamports: 0u64,
                escrow_record_active: false,
            },
        ),
{
}

} // verus!
