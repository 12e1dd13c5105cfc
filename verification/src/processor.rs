use vstd::prelude::*;
use vstd::bytes::spec_u64_from_le_bytes;
use crate::error::EscrowError;
use crate::instruction::EscrowInstruction;
use crate::instruction::spec_unpack;
use crate::state::Escrow;
use crate::state::Pubkey;
use crate::state::key_eq;
use crate::state::spec_record_bytes_ok;

verus! {

broadcast use vstd::array::group_array_axioms;

/// One account as the entry point hands it over: its identity, whether it
/// carries a verified signature for this invocation, its owning program, its
/// balance, and its data bytes.
pub struct AccountView {
    pub key: Pubkey,
    pub is_signer: bool,
    pub owner: Pubkey,
    pub lamports: u64,
    pub data: Vec<u8>,
}

/// How a sub-operation against the token ledger is authorized: by the
/// verified signature of the named authorizer, or by the program re-supplying
/// the custody authority's seed and bump.
#[derive(Clone, Copy, Debug, PartialEq, Eq, Structural)]
pub enum Authorization {
    Signature,
    Derived { bump: u8 },
}

/// A well-formed request to the external token-ledger program.
#[derive(Clone, Copy, Debug, PartialEq, Eq)]
pub enum TokenOp {
    /// Move `amount` tokens from `from` to `to`.
    Transfer {
        from: Pubkey,
        to: Pubkey,
        authorizer: Pubkey,
        authorization: Authorization,
        amount: u64,
    },
    /// Reassign `account`'s transfer authority to `new_authority`.
    SetAuthority {
        account: Pubkey,
        new_authority: Pubkey,
        authorizer: Pubkey,
        authorization: Authorization,
    },
    /// Close `account`, crediting its remaining deposit to `refund_target`.
    CloseAccount {
        account: Pubkey,
        refund_target: Pubkey,
        authorizer: Pubkey,
        authorization: Authorization,
    },
}

/// The account list Initialize requires, in its fixed order.
pub struct InitAccounts {
    /// The depositing party; must carry a verified signature.
    pub initializer: AccountView,
    /// The freshly created account temporarily holding the deposited token.
    pub temp_token_account: AccountView,
    /// The initializer's account for the token it will receive.
    pub token_to_recieve_account: AccountView,
    /// The escrow-state account that persists the record.
    pub escrow_account: AccountView,
}

/// The account list Exchange requires, in its fixed order.
pub struct ExchangeAccounts {
    /// The taker; must carry a verified signature.
    pub taker: AccountView,
    /// The taker's account for the token it sends.
    pub takers_sending_token_account: AccountView,
    /// The taker's account for the token it receives.
    pub takers_token_to_recieve_account: AccountView,
    /// The custody account the escrow record points at.
    pub pdas_temp_token_account: AccountView,
    /// The initializer's main account.
    pub initializers_main_account: AccountView,
    /// The initializer's account for the token it receives.
    pub initializers_token_to_recieve_account: AccountView,
    /// The escrow-state account holding the record.
    pub escrow_account: AccountView,
}

/// What a successful Initialize asks the caller to apply: the new active
/// record for the escrow-state account, and one authority change handing the
/// custody account to the derived authority.
#[derive(Clone, Copy, Debug, PartialEq, Eq)]
pub struct InitEffects {
    pub escrow_record: Escrow,
    pub authority_change: TokenOp,
}

/// What a successful Exchange asks the caller to apply, one indivisible
/// unit: three token-ledger sub-operations in order, then the sweep of the
/// escrow-state deposit into the initializer's main account.
#[derive(Clone, Copy, Debug, PartialEq, Eq)]
pub struct ExchangeEffects {
    pub transfer_to_initializer: TokenOp,
    pub transfer_to_taker: TokenOp,
    pub close_custody: TokenOp,
    pub initializers_main_lamports_after: u64,
    pub escrow_lamports_after: u64,
}

/// The identity of the expected token-ledger program, as its crate declares
/// it: the base58 decoding of "TokenkegQfeZyiNwAJbNbGKPFXCWuBvf9Ss623VQ5DA".
pub open spec fn spec_token_program_id() -> Seq<u8> {
    seq![
        6u8, 221u8, 246u8, 225u8, 215u8, 101u8, 161u8, 147u8, 217u8, 203u8, 225u8, 70u8, 206u8,
        235u8, 121u8, 172u8, 28u8, 180u8, 133u8, 237u8, 95u8, 91u8, 55u8, 145u8, 58u8, 140u8,
        245u8, 133u8, 126u8, 255u8, 0u8, 169u8,
    ]
}

/// Relies on spl_token's id(): the constant program id the crate declares.
#[verifier::external_body]
fn token_program_id() -> (r: Pubkey)
    ensures
        r@ == spec_token_program_id(),
{
    spl_token::id().to_bytes()
}

/// A four-byte optional-field tag in a packed token account: 0 or 1 in the
/// first byte, zeros after it.
pub open spec fn spec_coption_tag_ok(d: Seq<u8>, off: int) -> bool {
    &&& (d[off] == 0 || d[off] == 1)
    &&& d[off + 1] == 0
    &&& d[off + 2] == 0
    &&& d[off + 3] == 0
}

/// When a buffer parses as an initialized token-ledger account: 165 bytes,
/// well-formed optional-field tags for delegate, native marker and close
/// authority, and a state byte marking an initialized or frozen account.
pub open spec fn spec_token_account_ok(d: Seq<u8>) -> bool {
    &&& d.len() == 165
    &&& spec_coption_tag_ok(d, 72)
    &&& (d[108] == 1 || d[108] == 2)
    &&& spec_coption_tag_ok(d, 109)
    &&& spec_coption_tag_ok(d, 129)
}

/// The balance a packed token-ledger account holds: little-endian at bytes
/// 64..72.
pub open spec fn spec_token_account_amount(d: Seq<u8>) -> u64 {
    spec_u64_from_le_bytes(d.subrange(64, 72))
}

/// Relies on spl_token's Account::unpack: a 165-byte buffer parses when its
/// three optional-field tags are well formed and its state byte marks an
/// initialized account, and the account's balance lies little-endian at
/// bytes 64..72.
#[verifier::external_body]
#[allow(deprecated)]
fn unpack_token_account_amount(data: &[u8]) -> (r: Result<u64, EscrowError>)
    ensures
        r == (if spec_token_account_ok(data@) {
            Ok::<u64, EscrowError>(spec_token_account_amount(data@))
        } else {
            Err::<u64, EscrowError>(EscrowError::InvalidAccountData)
        }),
{
    match <spl_token::state::Account as spl_token::solana_program::program_pack::Pack>::unpack(
        data,
    ) {
        Ok(account) => Ok(account.amount),
        Err(_) => Err(EscrowError::InvalidAccountData),
    }
}

/// The Initialize transition. Checked in order: the initializer signs, the
/// receiving account belongs to the token-ledger program, the escrow-state
/// account meets the minimum-balance exemption, and its current record is
/// empty. On success the new active record and the custody authority change.
pub open spec fn spec_process_init_escrow(
    a: InitAccounts,
    amount: u64,
    rent_minimum_balance: u64,
    custody_authority: Pubkey,
) -> Result<InitEffects, EscrowError> {
    if !a.initializer.is_signer {
        Err(EscrowError::MissingSignature)
    } else if a.token_to_recieve_account.owner@ != spec_token_program_id() {
        Err(EscrowError::IncorrectOwningProgram)
    } else if a.escrow_account.lamports < rent_minimum_balance {
        Err(EscrowError::NotRentExempt)
    } else if !spec_record_bytes_ok(a.escrow_account.data@) {
        Err(EscrowError::InvalidAccountData)
    } else if a.escrow_account.data@[0] == 1 {
        Err(EscrowError::AccountAlreadyInitialized)
    } else {
        Ok(
            InitEffects {
                escrow_record: Escrow {
                    is_initialized: true,
                    initializer_pubkey: a.initializer.key,
                    temp_token_account_pubkey: a.temp_token_account.key,
                    initializer_token_to_recieve_account_pubkey: a.token_to_recieve_account.key,
                    expected_amount: amount,
                },
                authority_change: TokenOp::SetAuthority {
                    account: a.temp_token_account.key,
                    new_authority: custody_authority,
                    authorizer: a.initializer.key,
                    authorization: Authorization::Signature,
                },
            },
        )
    }
}

/// The Exchange transition. Checked in order: the taker signs, the custody
/// account parses and holds exactly what the taker expects, the escrow
/// record parses, the record's custody and initializer identities match the
/// supplied accounts, and the deposit sweep does not overflow. On success
/// the three token-ledger legs in order and the lamport sweep.
pub open spec fn spec_process_exchange(
    a: ExchangeAccounts,
    amount_expected_by_taker: u64,
    custody_authority: Pubkey,
    bump: u8,
) -> Result<ExchangeEffects, EscrowError> {
    let custody = a.pdas_temp_token_account.data@;
    let record = a.escrow_account.data@;
    if !a.taker.is_signer {
        Err(EscrowError::MissingSignature)
    } else if !spec_token_account_ok(custody) {
        Err(EscrowError::InvalidAccountData)
    } else if amount_expected_by_taker != spec_token_account_amount(custody) {
        Err(EscrowError::ExpectedAmountMismatch)
    } else if !spec_record_bytes_ok(record) {
        Err(EscrowError::InvalidAccountData)
    } else if record.subrange(33, 65) != a.pdas_temp_token_account.key@ {
        Err(EscrowError::InvalidAccountData)
    } else if record.subrange(1, 33) != a.initializers_main_account.key@ {
        Err(EscrowError::InvalidAccountData)
    } else if a.initializers_main_account.lamports + a.escrow_account.lamports > u64::MAX {
        Err(EscrowError::AmountOverflow)
    } else {
        Ok(
            ExchangeEffects {
                transfer_to_initializer: TokenOp::Transfer {
                    from: a.takers_sending_token_account.key,
                    to: a.initializers_token_to_recieve_account.key,
                    authorizer: a.taker.key,
                    authorization: Authorization::Signature,
                    amount: spec_u64_from_le_bytes(record.subrange(97, 105)),
                },
                transfer_to_taker: TokenOp::Transfer {
                    from: a.pdas_temp_token_account.key,
                    to: a.takers_token_to_recieve_account.key,
                    authorizer: custody_authority,
                    authorization: Authorization::Derived { bump },
                    amount: spec_token_account_amount(custody),
                },
                close_custody: TokenOp::CloseAccount {
                    account: a.pdas_temp_token_account.key,
                    refund_target: a.initializers_main_account.key,
                    authorizer: custody_authority,
                    authorization: Authorization::Derived { bump },
                },
                initializers_main_lamports_after: (a.initializers_main_account.lamports
                    + a.escrow_account.lamports) as u64,
                escrow_lamports_after: 0u64,
            },
        )
    }
}

/// The account list for whichever command the instruction bytes carry, as a
/// typed, order-fixed schema.
pub enum ProcessAccounts {
    Init(InitAccounts),
    Exchange(ExchangeAccounts),
}

/// The effects of whichever transition ran.
#[derive(Clone, Copy, Debug, PartialEq, Eq)]
pub enum ProcessEffects {
    Init(InitEffects),
    Exchange(ExchangeEffects),
}

/// The full processing step: decode the instruction bytes, then run the
/// transition they name against the matching account schema; a schema that
/// does not fit the decoded command is rejected as invalid account data.
pub open spec fn spec_process(
    accounts: ProcessAccounts,
    instruction_data: Seq<u8>,
    rent_minimum_balance: u64,
    custody_authority: Pubkey,
    bump: u8,
) -> Result<ProcessEffects, EscrowError> {
    match spec_unpack(instruction_data) {
        Err(e) => Err(e),
        Ok(EscrowInstruction::InitEscrow { amount }) => match accounts {
            ProcessAccounts::Init(a) => match spec_process_init_escrow(
                a,
                amount,
                rent_minimum_balance,
                custody_authority,
            ) {
                Ok(eff) => Ok(ProcessEffects::Init(eff)),
                Err(e) => Err(e),
            },
            _ => Err(EscrowError::InvalidAccountData),
        },
        Ok(EscrowInstruction::Exchange { amount }) => match accounts {
            ProcessAccounts::Exchange(a) => match spec_process_exchange(
                a,
                amount,
                custody_authority,
                bump,
            ) {
                Ok(eff) => Ok(ProcessEffects::Exchange(eff)),
                Err(e) => Err(e),
            },
            _ => Err(EscrowError::InvalidAccountData),
        },
    }
}

/// The stateless processor: pure transitions from the supplied accounts to
/// the effects the caller must apply.
pub struct Processor;

impl Processor {
    /// Decode the instruction bytes and run the transition they name.
    pub fn process(
        accounts: &ProcessAccounts,
        instruction_data: &[u8],
        rent_minimum_balance: u64,
        custody_authority: &Pubkey,
        bump: u8,
    ) -> (r: Result<ProcessEffects, EscrowError>)
        ensures
            r == spec_process(
                *accounts,
                instruction_data@,
                rent_minimum_balance,
                *custody_authority,
                bump,
            ),
    {
        let instruction = match EscrowInstruction::unpack(instruction_data) {
            Ok(i) => i,
            Err(e) => {
                return Err(e);
            },
        };
        match instruction {
            EscrowInstruction::InitEscrow { amount } => match accounts {
                ProcessAccounts::Init(a) => match Self::process_init_escrow(
                    a,
                    amount,
                    rent_minimum_balance,
                    custody_authority,
                ) {
                    Ok(eff) => Ok(ProcessEffects::Init(eff)),
                    Err(e) => Err(e),
                },
                _ => Err(EscrowError::InvalidAccountData),
            },
            EscrowInstruction::Exchange { amount } => match accounts {
                ProcessAccounts::Exchange(a) => match Self::process_exchange(
                    a,
                    amount,
                    custody_authority,
                    bump,
                ) {
                    Ok(eff) => Ok(ProcessEffects::Exchange(eff)),
                    Err(e) => Err(e),
                },
                _ => Err(EscrowError::InvalidAccountData),
            },
        }
    }

    /// Run the Initialize transition against the supplied accounts.
    /// `rent_minimum_balance` is the minimum-balance oracle's answer for the
    /// escrow-state account; `custody_authority` is the derived keyless
    /// authority for the owning program.
    pub fn process_init_escrow(
        accounts: &InitAccounts,
        amount: u64,
        rent_minimum_balance: u64,
        custody_authority: &Pubkey,
    ) -> (r: Result<InitEffects, EscrowError>)
        ensures
            r == spec_process_init_escrow(
                *accounts,
                amount,
                rent_minimum_balance,
                *custody_authority,
            ),
    {
        if !accounts.initializer.is_signer {
            return Err(EscrowError::MissingSignature);
        }
        let expected_owner = token_program_id();
        if !key_eq(&accounts.token_to_recieve_account.owner, &expected_owner) {
            return Err(EscrowError::IncorrectOwningProgram);
        }
        if accounts.escrow_account.lamports < rent_minimum_balance {
            return Err(EscrowError::NotRentExempt);
        }
        let escrow_info = match Escrow::unpack_from_slice(accounts.escrow_account.data.as_slice()) {
            Ok(e) => e,
            Err(e) => {
                return Err(e);
            },
        };
        if escrow_info.is_initialized {
            return Err(EscrowError::AccountAlreadyInitialized);
        }
        Ok(
            InitEffects {
                escrow_record: Escrow {
                    is_initialized: true,
                    initializer_pubkey: accounts.initializer.key,
                    temp_token_account_pubkey: accounts.temp_token_account.key,
                    initializer_token_to_recieve_account_pubkey:
                        accounts.token_to_recieve_account.key,
                    expected_amount: amount,
                },
                authority_change: TokenOp::SetAuthority {
                    account: accounts.temp_token_account.key,
                    new_authority: *custody_authority,
                    authorizer: accounts.initializer.key,
                    authorization: Authorization::Signature,
                },
            },
        )
    }

    /// Run the Exchange transition against the supplied accounts.
    /// `custody_authority` and `bump` must be the derivation for the owning
    /// program, re-derived at use time rather than persisted.
    pub fn process_exchange(
        accounts: &ExchangeAccounts,
        amount_expected_by_taker: u64,
        custody_authority: &Pubkey,
        bump: u8,
    ) -> (r: Result<ExchangeEffects, EscrowError>)
        ensures
            r == spec_process_exchange(
                *accounts,
                amount_expected_by_taker,
                *custody_authority,
                bump,
            ),
    {
        if !accounts.taker.is_signer {
            return Err(EscrowError::MissingSignature);
        }
        let custody_amount = match unpack_token_account_amount(
            accounts.pdas_temp_token_account.data.as_slice(),
        ) {
            Ok(amount) => amount,
            Err(e) => {
                return Err(e);
            },
        };
        if amount_expected_by_taker != custody_amount {
            return Err(EscrowError::ExpectedAmountMismatch);
        }
        let escrow_info = match Escrow::unpack_from_slice(accounts.escrow_account.data.as_slice()) {
            Ok(e) => e,
            Err(e) => {
                return Err(e);
            },
        };
        if !key_eq(
            &escrow_info.temp_token_account_pubkey,
            &accounts.pdas_temp_token_account.key,
        ) {
            return Err(EscrowError::InvalidAccountData);
        }
        if !key_eq(&escrow_info.initializer_pubkey, &accounts.initializers_main_account.key) {
            return Err(EscrowError::InvalidAccountData);
        }
        if accounts.initializers_main_account.lamports > u64::MAX
            - accounts.escrow_account.lamports {
            return Err(EscrowError::AmountOverflow);
        }
        Ok(
            ExchangeEffects {
                transfer_to_initializer: TokenOp::Transfer {
                    from: accounts.takers_sending_token_account.key,
                    to: accounts.initializers_token_to_recieve_account.key,
                    authorizer: accounts.taker.key,
                    authorization: Authorization::Signature,
                    amount: escrow_info.expected_amount,
                },
                transfer_to_taker: TokenOp::Transfer {
                    from: accounts.pdas_temp_token_account.key,
                    to: accounts.takers_token_to_recieve_account.key,
                    authorizer: *custody_authority,
                    authorization: Authorization::Derived { bump },
                    amount: custody_amount,
                },
                close_custody: TokenOp::CloseAccount {
                    account: accounts.pdas_temp_token_account.key,
                    refund_target: accounts.initializers_main_account.key,
                    authorizer: *custody_authority,
                    authorization: Authorization::Derived { bump },
                },
                initializers_main_lamports_after: accounts.initializers_main_account.lamports
                    + accounts.escrow_account.lamports,
                escrow_lamports_after: 0,
            },
        )
    }
}

/// Initialize is a one-way guard. A first Initialize that succeeds writes a
/// record that is active and carries exactly the supplied accounts and
/// amount; a second Initialize against the same accounts, with that record
/// now stored in the escrow-state account, is rejected as already
/// initialized, whatever amount or authority it is called with.
pub proof fn lemma_initialize_guard(
    a: InitAccounts,
    amount: u64,
    rent_minimum_balance: u64,
    custody_authority: Pubkey,
    eff: InitEffects,
    a2: InitAccounts,
    amount2: u64,
    custody_authority2: Pubkey,
)
    requires
        spec_process_init_escrow(a, amount, rent_minimum_balance, custody_authority)
            == Ok::<InitEffects, EscrowError>(eff),
        a2.initializer.is_signer == a.initializer.is_signer,
        a2.token_to_recieve_account.owner == a.token_to_recieve_account.owner,
        a2.escrow_account.lamports == a.escrow_account.lamports,
        a2.escrow_account.data@ == crate::state::spec_pack(eff.escrow_record),
    ensures
        eff.escrow_record == (Escrow {
            is_initialized: true,
            initializer_pubkey: a.initializer.key,
            temp_token_account_pubkey: a.temp_token_account.key,
            initializer_token_to_recieve_account_pubkey: a.token_to_recieve_account.key,
            expected_amount: amount,
        }),
        spec_process_init_escrow(a2, amount2, rent_minimum_balance, custody_authority2)
            == Err::<InitEffects, EscrowError>(EscrowError::AccountAlreadyInitialized),
{
    crate::state::lemma_pack_unpack_roundtrip(eff.escrow_record);
    assert(a2.escrow_account.data@[0] == 1);
}

} // verus!
