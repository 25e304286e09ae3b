//! The recorded call of a proposal: how the live accounts are held against the
//! declared ones, and how the call that is dispatched is put together.

use crate::errors::ErrorCode;
use crate::pubkey::Pubkey;
use crate::schema::proposal::InvokedAccount;
use vstd::prelude::*;

verus! {

/// A live account as the host hands it in for an execution.
#[derive(Clone, Copy, Debug, PartialEq, Eq)]
pub struct AccountInfo {
    pub key: Pubkey,
    pub is_signer: bool,
    pub is_writable: bool,
}

/// An account of a call that is about to be dispatched.
#[derive(Clone, Copy, Debug, PartialEq, Eq)]
pub struct AccountMeta {
    pub pubkey: Pubkey,
    pub is_signer: bool,
    pub is_writable: bool,
}

/// `AccountMeta::new` of `solana_program`, which `anchor_lang` hands on: the
/// account of the given key, a signer as asked, that the call may write to.
#[verifier::external_body]
fn writable(pubkey: Pubkey, is_signer: bool) -> (meta: AccountMeta)
    ensures
        meta == (AccountMeta { pubkey, is_signer, is_writable: true }),
{
    let made = anchor_lang::solana_program::instruction::AccountMeta::new(
        anchor_lang::solana_program::pubkey::Pubkey::new_from_array(pubkey.0),
        is_signer,
    );
    AccountMeta {
        pubkey: Pubkey(made.pubkey.to_bytes()),
        is_signer: made.is_signer,
        is_writable: made.is_writable,
    }
}

/// `AccountMeta::new_readonly` of `solana_program`, which `anchor_lang` hands
/// on: the account of the given key, a signer as asked, that the call may only
/// read.
#[verifier::external_body]
fn readonly(pubkey: Pubkey, is_signer: bool) -> (meta: AccountMeta)
    ensures
        meta == (AccountMeta { pubkey, is_signer, is_writable: false }),
{
    let made = anchor_lang::solana_program::instruction::AccountMeta::new_readonly(
        anchor_lang::solana_program::pubkey::Pubkey::new_from_array(pubkey.0),
        is_signer,
    );
    AccountMeta {
        pubkey: Pubkey(made.pubkey.to_bytes()),
        is_signer: made.is_signer,
        is_writable: made.is_writable,
    }
}

/// A call to dispatch: the program, its accounts in order, and its payload.
#[derive(Clone, Debug, PartialEq, Eq)]
pub struct Instruction {
    pub program_id: Pubkey,
    pub accounts: Vec<AccountMeta>,
    pub data: Vec<u8>,
}

/// The live account is the declared one, with the flags that the declaration
/// expects before the dispatch.
pub open spec fn consistent(declared: InvokedAccount, live: AccountInfo) -> bool {
    &&& declared.pubkey == live.key
    &&& declared.prev_is_signer() == live.is_signer
    &&& declared.prev_is_writable() == live.is_writable
}

/// The account as the dispatched call names it.
pub open spec fn dispatched(declared: InvokedAccount) -> AccountMeta {
    AccountMeta {
        pubkey: declared.pubkey,
        is_signer: declared.next_is_signer(),
        is_writable: declared.next_is_writable(),
    }
}

/// Why the live program and accounts cannot stand for the declared ones, if
/// they cannot: another number of accounts, another program, or an account that
/// differs in its key or in a flag.
pub open spec fn mismatch(
    program: Pubkey,
    declared: Seq<InvokedAccount>,
    live_program: Pubkey,
    live: Seq<AccountInfo>,
) -> Option<ErrorCode> {
    if declared.len() != live.len() {
        Some(ErrorCode::InvalidDataLength)
    } else if program != live_program {
        Some(ErrorCode::InconsistentProposal)
    } else if exists|i: int| 0 <= i < declared.len() && !consistent(declared[i], #[trigger] live[i]) {
        Some(ErrorCode::InconsistentProposal)
    } else {
        None
    }
}

/// The call is the declared one: its program, its payload, and each declared
/// account in its place with the flags it has in the dispatch.
pub open spec fn is_call_of(
    call: Instruction,
    program: Pubkey,
    declared: Seq<InvokedAccount>,
    data: Seq<u8>,
) -> bool {
    &&& call.program_id == program
    &&& call.data@ == data
    &&& call.accounts@ == declared.map_values(|account: InvokedAccount| dispatched(account))
}

/// The flags of a declared account change through the dispatch only where the
/// account is the DAO's signing authority and is declared a signer: there it
/// comes in unsigned and goes out signed. Every other account keeps its flags,
/// and no account changes its key or whether it can be written to.
pub proof fn lemma_only_master_gains_signature(declared: InvokedAccount, live: AccountInfo)
    requires
        consistent(declared, live),
    ensures
        dispatched(declared).pubkey == live.key,
        dispatched(declared).is_writable == live.is_writable,
        dispatched(declared).is_signer != live.is_signer <==> declared.is_master
            && declared.is_signer,
        dispatched(declared).is_signer != live.is_signer ==> dispatched(declared).is_signer,
{
}

/// A live account that differs from the one that passes the check, in its key
/// or in either flag, does not pass.
pub proof fn lemma_consistent_account_is_unique(
    declared: InvokedAccount,
    live: AccountInfo,
    forged: AccountInfo,
)
    requires
        consistent(declared, live),
        forged != live,
    ensures
        !consistent(declared, forged),
{
}

/// Live accounts that pass the check no longer pass once a single one of them
/// is replaced by an account that differs from it in its key or in a flag: the
/// check then finds the accounts inconsistent.
pub proof fn lemma_tampered_account_is_found(
    program: Pubkey,
    declared: Seq<InvokedAccount>,
    live_program: Pubkey,
    live: Seq<AccountInfo>,
    position: int,
    forged: AccountInfo,
)
    requires
        mismatch(program, declared, live_program, live) is None,
        0 <= position < live.len(),
        forged != live[position],
    ensures
        mismatch(program, declared, live_program, live.update(position, forged)) == Some(
            ErrorCode::InconsistentProposal,
        ),
{
    let tampered = live.update(position, forged);
    assert(consistent(declared[position], live[position]));
    lemma_consistent_account_is_unique(declared[position], live[position], forged);
    assert(!consistent(declared[position], tampered[position]));
}

/// Live accounts that pass the check no longer pass under another program.
pub proof fn lemma_tampered_program_is_found(
    program: Pubkey,
    declared: Seq<InvokedAccount>,
    live: Seq<AccountInfo>,
    forged: Pubkey,
)
    requires
        mismatch(program, declared, program, live) is None,
        forged != program,
    ensures
        mismatch(program, declared, forged, live) == Some(ErrorCode::InconsistentProposal),
{
}

/// Live accounts that pass the check no longer pass in another order, unless
/// the two accounts that changed places are alike.
pub proof fn lemma_reordered_accounts_are_found(
    program: Pubkey,
    declared: Seq<InvokedAccount>,
    live: Seq<AccountInfo>,
    first: int,
    second: int,
)
    requires
        mismatch(program, declared, program, live) is None,
        0 <= first < live.len(),
        0 <= second < live.len(),
        live[first] != live[second],
    ensures
        mismatch(
            program,
            declared,
            program,
            live.update(first, live[second]).update(second, live[first]),
        ) == Some(ErrorCode::InconsistentProposal),
{
    let swapped = live.update(first, live[second]).update(second, live[first]);
    assert(consistent(declared[second], live[second]));
    lemma_consistent_account_is_unique(declared[second], live[second], live[first]);
    assert(!consistent(declared[second], swapped[second]));
}

/// The lists describe the same number of accounts.
pub open spec fn same_lengths(
    pubkeys: Seq<Pubkey>,
    is_signers: Seq<bool>,
    is_writables: Seq<bool>,
    is_masters: Seq<bool>,
) -> bool {
    &&& pubkeys.len() == is_signers.len()
    &&& pubkeys.len() == is_writables.len()
    &&& pubkeys.len() == is_masters.len()
}

/// The accounts that the lists describe, each made of the entries that stand
/// at its place.
pub open spec fn declared_from(
    pubkeys: Seq<Pubkey>,
    is_signers: Seq<bool>,
    is_writables: Seq<bool>,
    is_masters: Seq<bool>,
) -> Seq<InvokedAccount> {
    Seq::new(
        pubkeys.len(),
        |i: int|
            InvokedAccount {
                pubkey: pubkeys[i],
                is_signer: is_signers[i],
                is_writable: is_writables[i],
                is_master: is_masters[i],
            },
    )
}

/// Makes the declared accounts of a call out of the four lists that describe
/// them. Lists of different lengths are refused.
pub fn declare(
    pubkeys: &Vec<Pubkey>,
    is_signers: &Vec<bool>,
    is_writables: &Vec<bool>,
    is_masters: &Vec<bool>,
) -> (declared: Result<Vec<InvokedAccount>, ErrorCode>)
    ensures
        match declared {
            Ok(accounts) => {
                &&& same_lengths(pubkeys@, is_signers@, is_writables@, is_masters@)
                &&& accounts@ == declared_from(pubkeys@, is_signers@, is_writables@, is_masters@)
            },
            Err(error) => {
                &&& !same_lengths(pubkeys@, is_signers@, is_writables@, is_masters@)
                &&& error == ErrorCode::InvalidDataLength
            },
        },
{
    if pubkeys.len() != is_signers.len() || pubkeys.len() != is_writables.len() || pubkeys.len()
        != is_masters.len() {
        return Err(ErrorCode::InvalidDataLength);
    }
    let mut accounts: Vec<InvokedAccount> = Vec::with_capacity(pubkeys.len());
    let mut i: usize = 0;
    while i < pubkeys.len()
        invariant
            i <= pubkeys.len(),
            same_lengths(pubkeys@, is_signers@, is_writables@, is_masters@),
            accounts@.len() == i,
            forall|j: int|
                0 <= j < i ==> #[trigger] accounts@[j] == declared_from(
                    pubkeys@,
                    is_signers@,
                    is_writables@,
                    is_masters@,
                )[j],
        decreases pubkeys.len() - i,
    {
        accounts.push(
            InvokedAccount {
                pubkey: pubkeys[i],
                is_signer: is_signers[i],
                is_writable: is_writables[i],
                is_master: is_masters[i],
            },
        );
        i += 1;
    }
    assert(accounts@ =~= declared_from(pubkeys@, is_signers@, is_writables@, is_masters@));
    Ok(accounts)
}

/// A copy of the declared accounts.
pub fn copy_of_accounts(declared: &Vec<InvokedAccount>) -> (copy: Vec<InvokedAccount>)
    ensures
        copy@ == declared@,
{
    let mut copy: Vec<InvokedAccount> = Vec::with_capacity(declared.len());
    let mut i: usize = 0;
    while i < declared.len()
        invariant
            i <= declared.len(),
            copy@ == declared@.subrange(0, i as int),
        decreases declared.len() - i,
    {
        copy.push(declared[i]);
        assert(declared@.subrange(0, i + 1) =~= declared@.subrange(0, i as int).push(
            declared@[i as int],
        ));
        i += 1;
    }
    assert(declared@.subrange(0, declared@.len() as int) =~= declared@);
    copy
}

/// Holds the live program and accounts against the declared ones.
pub fn check(
    program: &Pubkey,
    declared: &Vec<InvokedAccount>,
    live_program: &Pubkey,
    live: &Vec<AccountInfo>,
) -> (checked: Result<(), ErrorCode>)
    ensures
        match mismatch(*program, declared@, *live_program, live@) {
            Some(error) => checked == Err::<(), ErrorCode>(error),
            None => checked is Ok,
        },
{
    if declared.len() != live.len() {
        return Err(ErrorCode::InvalidDataLength);
    }
    if !program.equals(live_program) {
        return Err(ErrorCode::InconsistentProposal);
    }
    let mut i: usize = 0;
    while i < declared.len()
        invariant
            i <= declared.len(),
            declared.len() == live.len(),
            forall|j: int| 0 <= j < i ==> consistent(declared@[j], #[trigger] live@[j]),
        decreases declared.len() - i,
    {
        let acc = &declared[i];
        let handle = &live[i];
        if !acc.pubkey.equals(&handle.key) || (acc.is_signer && !acc.is_master) != handle.is_signer
            || acc.is_writable != handle.is_writable {
            assert(!consistent(declared@[i as int], live@[i as int]));
            return Err(ErrorCode::InconsistentProposal);
        }
        i += 1;
    }
    Ok(())
}

/// Puts the declared call together for the dispatch.
pub fn build(program: &Pubkey, declared: &Vec<InvokedAccount>, data: &Vec<u8>) -> (call:
    Instruction)
    ensures
        is_call_of(call, *program, declared@, data@),
{
    let mut accounts: Vec<AccountMeta> = Vec::with_capacity(declared.len());
    let mut i: usize = 0;
    while i < declared.len()
        invariant
            i <= declared.len(),
            accounts@.len() == i,
            forall|j: int| 0 <= j < i ==> #[trigger] accounts@[j] == dispatched(declared@[j]),
        decreases declared.len() - i,
    {
        let acc = &declared[i];
        accounts.push(
            if acc.is_writable {
                writable(acc.pubkey, acc.is_signer)
            } else {
                readonly(acc.pubkey, acc.is_signer)
            },
        );
        i += 1;
    }
    assert(accounts@ =~= declared@.map_values(|account: InvokedAccount| dispatched(account)));
    Instruction { program_id: *program, accounts, data: copy_of(data) }
}

/// A copy of the bytes.
pub fn copy_of(bytes: &Vec<u8>) -> (copy: Vec<u8>)
    ensures
        copy@ == bytes@,
{
    let mut copy: Vec<u8> = Vec::with_capacity(bytes.len());
    let mut i: usize = 0;
    while i < bytes.len()
        invariant
            i <= bytes.len(),
            copy@ == bytes@.subrange(0, i as int),
        decreases bytes.len() - i,
    {
        copy.push(bytes[i]);
        assert(bytes@.subrange(0, i + 1) =~= bytes@.subrange(0, i as int).push(bytes@[i as int]));
        i += 1;
    }
    assert(bytes@.subrange(0, bytes@.len() as int) =~= bytes@);
    copy
}

} // verus!
