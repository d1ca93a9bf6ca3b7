//! Compiling a target call descriptor into the queue service's replay form.
//!
//! The queue service stores one opaque "compiled transaction": the
//! descriptors' account table plus each instruction rewritten over indices
//! into that table. The compiler routine is owned by the queue service's
//! client crate; this module pins down what it keeps invariant — each
//! instruction's data verbatim, each instruction's account order through
//! the indices, and the read/write + signer class of every account through
//! its position in the table.

use vstd::prelude::*;
use anchor_lang::prelude::Pubkey;
use anchor_lang::solana_program::instruction::AccountMeta;
use anchor_lang::solana_program::instruction::Instruction;
use crate::errors::ScheduleError;
use crate::identity::AccountId;

verus! {

/// The ledger runtime's 32-byte address type, opaque here; held only to be
/// handed back to the queue service.
#[verifier::external_type_specification]
#[verifier::external_body]
pub struct ExPubkey(anchor_lang::prelude::Pubkey);

/// One instruction of a compiled transaction: its program and accounts as
/// indices into the transaction's account table, and its data verbatim.
#[verifier::external_type_specification]
pub struct ExCompiledInstruction(tuktuk_program::CompiledInstructionV0);

/// The queue service's replay-ready transaction form.
#[verifier::external_type_specification]
pub struct ExCompiledTransaction(tuktuk_program::CompiledTransactionV0);

/// The runtime address holding exactly these 32 bytes. Addresses are opaque
/// here, so the correspondence is left uninterpreted and tied to the
/// conversion the compiler wrapper performs.
pub uninterp spec fn pubkey_of(bytes: Seq<u8>) -> anchor_lang::prelude::Pubkey;

/// One account a target call will touch, tagged read/write and
/// signer/non-signer.
pub struct AccountRef {
    pub key: AccountId,
    pub is_signer: bool,
    pub is_writable: bool,
}

/// The mathematical value of an account reference: the address bytes plus
/// the two access tags.
#[verifier::ext_equal]
pub struct AccountRefV {
    pub key: Seq<u8>,
    pub is_signer: bool,
    pub is_writable: bool,
}

impl View for AccountRef {
    type V = AccountRefV;

    open spec fn view(&self) -> AccountRefV {
        AccountRefV { key: self.key@, is_signer: self.is_signer, is_writable: self.is_writable }
    }
}

/// A target call descriptor: the entry point to invoke at replay time, the
/// ordered accounts it will touch, and its argument payload.
pub struct TargetCall {
    pub program_id: AccountId,
    pub accounts: Vec<AccountRef>,
    pub data: Vec<u8>,
}

/// Most accounts a single descriptor may reference; keeps the compiler's
/// 8-bit table indices and class counts exact.
pub const MAX_CALL_ACCOUNTS: usize = 200;

impl TargetCall {
    /// The referenced accounts as mathematical values, in the descriptor's
    /// own order.
    pub open spec fn refs(&self) -> Seq<AccountRefV> {
        Seq::new(self.accounts@.len(), |i: int| self.accounts@[i]@)
    }

    /// Every referenced address is well-formed.
    pub open spec fn wf(&self) -> bool {
        &&& self.program_id.wf()
        &&& forall|i: int| 0 <= i < self.accounts@.len() ==> (#[trigger] self.accounts@[i]).key.wf()
    }

    /// The referenced addresses are pairwise distinct, and none is the
    /// target program itself.
    pub open spec fn keys_distinct(&self) -> bool {
        &&& forall|i: int, j: int|
            0 <= i < j < self.accounts@.len() ==> (#[trigger] self.accounts@[i]).key@ != (
            #[trigger] self.accounts@[j]).key@
        &&& forall|i: int|
            0 <= i < self.accounts@.len() ==> (#[trigger] self.accounts@[i]).key@
                != self.program_id@
    }

    /// Checks pairwise distinctness of the referenced addresses.
    pub fn check_keys_distinct(&self) -> (r: bool)
        ensures
            r == self.keys_distinct(),
    {
        let n = self.accounts.len();
        let mut i: usize = 0;
        while i < n
            invariant
                0 <= i <= n,
                n == self.accounts@.len(),
                forall|a: int, b: int|
                    0 <= a < b < self.accounts@.len() && a < i ==> (
                    #[trigger] self.accounts@[a]).key@ != (#[trigger] self.accounts@[b]).key@,
                forall|a: int|
                    0 <= a < i ==> (#[trigger] self.accounts@[a]).key@ != self.program_id@,
            decreases n - i,
        {
            if self.accounts[i].key.same_as(&self.program_id) {
                return false;
            }
            let mut j: usize = i + 1;
            while j < n
                invariant
                    0 <= i < j <= n,
                    n == self.accounts@.len(),
                    forall|b: int|
                        i < b < j ==> (#[trigger] self.accounts@[b]).key@ != self.accounts@[
                            i as int].key@,
                decreases n - j,
            {
                if self.accounts[i].key.same_as(&self.accounts[j].key) {
                    return false;
                }
                j += 1;
            }
            i += 1;
        }
        true
    }
}

/// What the compiler routine keeps invariant for the account a descriptor
/// references at position `j`: the index points into the account table at
/// that account's address, and the position's range encodes exactly the
/// account's read/write + signer class (writable signers first, then
/// read-only signers, then writable non-signers, then the rest).
pub open spec fn compiled_index_matches(
    r: tuktuk_program::CompiledTransactionV0,
    refs: Seq<AccountRefV>,
    j: int,
) -> bool {
    let p = r.instructions@[0].accounts@[j] as int;
    let rw_signers = r.num_rw_signers as int;
    let ro_signers = r.num_ro_signers as int;
    let rw = r.num_rw as int;
    &&& p < r.accounts@.len()
    &&& r.accounts@[p] == pubkey_of(refs[j].key)
    &&& ((refs[j].is_signer && refs[j].is_writable) <==> p < rw_signers)
    &&& ((refs[j].is_signer && !refs[j].is_writable) <==> (rw_signers <= p
        < rw_signers + ro_signers))
    &&& ((!refs[j].is_signer && refs[j].is_writable) <==> (rw_signers
        + ro_signers <= p < rw_signers + ro_signers + rw))
}

/// Everything this crate states of a compiled single-call transaction.
pub open spec fn compiled_matches(
    r: tuktuk_program::CompiledTransactionV0,
    program_id: Seq<u8>,
    refs: Seq<AccountRefV>,
    data: Seq<u8>,
) -> bool {
    &&& r.instructions@.len() == 1
    &&& r.instructions@[0].data@ == data
    &&& r.signer_seeds@.len() == 0
    &&& r.accounts@.len() == refs.len() + 1
    &&& r.instructions@[0].accounts@.len() == refs.len()
    &&& (r.instructions@[0].program_id_index as int) < r.accounts@.len()
    &&& r.accounts@[r.instructions@[0].program_id_index as int] == pubkey_of(program_id)
    &&& (r.num_rw_signers as int) + (r.num_ro_signers as int) + (r.num_rw as int)
        <= r.accounts@.len()
    &&& forall|j: int| 0 <= j < refs.len() ==> compiled_index_matches(r, refs, j)
}

/// Relies on `tuktuk_program::compile_transaction`: handed one instruction
/// and no extra signer seeds, with pairwise-distinct account addresses that
/// are also distinct from the program's, it returns `Ok`; the compiled form
/// holds that one instruction's data verbatim, an account table of those
/// addresses plus the program's, table indices that follow the
/// instruction's own account order, and a table grouped as writable
/// signers, read-only signers, writable non-signers, then the rest (the
/// order inside a group is left open — the routine walks a hash map).
#[verifier::external_body]
fn compile_single_call(call: &TargetCall) -> (r: tuktuk_program::CompiledTransactionV0)
    requires
        call.wf(),
        call.keys_distinct(),
        call.accounts@.len() <= MAX_CALL_ACCOUNTS,
    ensures
        compiled_matches(r, call.program_id@, call.refs(), call.data@),
        r.accounts@[r.instructions@[0].program_id_index as int] == pubkey_of(call.program_id@),
{
    let ix = Instruction {
        program_id: Pubkey::new_from_array(call.program_id.bytes.as_slice().try_into().unwrap()),
        accounts: call.accounts.iter().map(|a| AccountMeta {
            pubkey: Pubkey::new_from_array(a.key.bytes.as_slice().try_into().unwrap()),
            is_signer: a.is_signer,
            is_writable: a.is_writable,
        }).collect(),
        data: call.data.clone(),
    };
    let (compiled, _) = tuktuk_program::compile_transaction(vec![ix], vec![]).unwrap();
    compiled
}

/// Compiles one target call descriptor into the queue service's replay
/// form. Returns the compilation error exactly where the descriptor's
/// account table would be inconsistent: a repeated address (or the program
/// listed among its own accounts), or more accounts than the table's 8-bit
/// indices can carry.
pub fn compile_target_call(call: &TargetCall) -> (r: Result<
    tuktuk_program::CompiledTransactionV0,
    ScheduleError,
>)
    requires
        call.wf(),
    ensures
        match r {
            Ok(ct) => call.keys_distinct() && call.accounts@.len() <= MAX_CALL_ACCOUNTS
                && compiled_matches(ct, call.program_id@, call.refs(), call.data@),
            Err(e) => e == ScheduleError::Compilation && !(call.keys_distinct()
                && call.accounts@.len() <= MAX_CALL_ACCOUNTS),
        },
{
    if call.accounts.len() > MAX_CALL_ACCOUNTS {
        return Err(ScheduleError::Compilation);
    }
    if !call.check_keys_distinct() {
        return Err(ScheduleError::Compilation);
    }
    Ok(compile_single_call(call))
}

} // verus!
