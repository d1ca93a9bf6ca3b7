//! The schedule operation: build the deferred call, fund its execution
//! account, and register it with the external task queue.
//!
//! `Schedule::schedule` is one atomic ledger operation: it either commits
//! both of its state changes — the funds transfer into the execution
//! account and the task id's registration with the queue — or commits
//! neither. The function works against a plain model of the ledger slice it
//! touches (the two balances and the queue's taken ids) and returns the
//! full plan of outward effects: the exact transfer, the exact registration
//! arguments with the compiled transaction, and the delegated signing
//! authority's seed material. The caller performs those effects; everything
//! they must contain is pinned here.

use vstd::prelude::*;
use vstd::string::StrSliceExecFns;
use vstd::string::StringSliceAdditionalSpecFns;
use crate::codec::build_callback_payload;
use crate::codec::callback_payload;
use crate::codec::lemma_payload_round_trip;
use crate::codec::lemma_payload_starts_with_discriminator;
use crate::codec::parse_payload;
use crate::compile::compile_target_call;
use crate::compile::compiled_matches;
use crate::compile::AccountRef;
use crate::compile::AccountRefV;
use crate::compile::TargetCall;
use crate::digest::discriminator_of;
use crate::digest::entry_discriminator;
use crate::errors::ScheduleError;
use crate::funding::interaction_space;
use crate::funding::min_balance_of;
use crate::funding::required_interaction_funding;
use crate::identity::AccountId;

verus! {

/// The fixed reward offered to whichever crank runner executes the task.
pub const CRANK_REWARD: u64 = 1000002;

/// Bonus execution slots reserved alongside the task.
pub const FREE_TASKS: u8 = 1;

/// The text the deferred call will store downstream:
/// `"Scheduled interaction from TukTuk cron"` in UTF-8.
pub open spec fn default_text() -> Seq<u8> {
    seq![
        83u8, 99, 104, 101, 100, 117, 108, 101, 100, 32, 105, 110, 116, 101, 114, 97, 99, 116,
        105, 111, 110, 32, 102, 114, 111, 109, 32, 84, 117, 107, 84, 117, 107, 32, 99, 114, 111,
        110,
    ]
}

/// The text the deferred call will store downstream.
pub fn default_interaction_text() -> (r: Vec<u8>)
    ensures
        r@ == default_text(),
        r@.len() == 38,
{
    let r: Vec<u8> = vec![
        83u8, 99, 104, 101, 100, 117, 108, 101, 100, 32, 105, 110, 116, 101, 114, 97, 99, 116,
        105, 111, 110, 32, 102, 114, 111, 109, 32, 84, 117, 107, 84, 117, 107, 32, 99, 114, 111,
        110,
    ];
    proof {
        assert(r@ =~= default_text());
    }
    r
}

/// The name of the entry point the queued task replays.
pub open spec fn interact_entry_name() -> Seq<u8> {
    ("interact_with_llm").spec_bytes()
}

/// The name of the second-stage callback entry point whose discriminator is
/// embedded in the payload.
pub open spec fn callback_entry_name() -> Seq<u8> {
    ("callback_from_oracle").spec_bytes()
}

/// The human-readable description registered with the queue.
pub open spec fn task_description() -> Seq<char> {
    ("Scheduled LLM interaction")@
}

/// The literal seed the delegated queue authority is derived from.
pub open spec fn queue_authority_seed() -> Seq<u8> {
    ("queue_authority").spec_bytes()
}

/// The exact amount the execution account is seeded with: the storage-cost
/// floor of the downstream record sized for the default text.
pub open spec fn scheduled_funding() -> u64 {
    min_balance_of(interaction_space(default_text().len()))
}

/// The exact argument payload of the deferred call, for a program with the
/// given identity.
pub open spec fn scheduled_payload(program_id: Seq<u8>) -> Seq<u8> {
    callback_payload(
        discriminator_of(interact_entry_name()),
        default_text(),
        program_id,
        discriminator_of(callback_entry_name()),
    )
}

/// Derived-address bump seeds, resolved by the environment rather than
/// supplied by the caller.
#[derive(Clone, Copy, Debug, PartialEq, Eq, Structural)]
pub struct ScheduleBumps {
    pub interaction: u8,
    pub queue_authority: u8,
}

/// The condition under which a queued task becomes eligible to run.
#[derive(Clone, Copy, Debug, PartialEq, Eq, Structural)]
pub enum Trigger {
    /// Eligible as soon as it is registered.
    Now,
    /// Eligible once the ledger clock passes this timestamp.
    Timestamp(i64),
}

/// The queue's registered task ids, as far as this caller sees them.
pub struct TaskQueueModel {
    pub used_ids: Vec<u16>,
}

impl TaskQueueModel {
    /// Whether the queue already holds a task under this id.
    pub open spec fn registered(&self, id: u16) -> bool {
        self.used_ids@.contains(id)
    }

    /// Checks whether the queue already holds a task under this id.
    pub fn has_task(&self, id: u16) -> (r: bool)
        ensures
            r == self.registered(id),
    {
        let n = self.used_ids.len();
        let mut i: usize = 0;
        while i < n
            invariant
                0 <= i <= n,
                n == self.used_ids@.len(),
                forall|j: int| 0 <= j < i ==> self.used_ids@[j] != id,
            decreases n - i,
        {
            if self.used_ids[i] == id {
                return true;
            }
            i += 1;
        }
        assert(!self.used_ids@.contains(id));
        false
    }
}

/// The slice of ledger state a schedule call reads and writes: the
/// requesting signer's balance, the execution account's balance, and the
/// target queue's taken ids.
pub struct Ledger {
    pub user_lamports: u64,
    pub task_lamports: u64,
    pub queue: TaskQueueModel,
}

impl Ledger {
    /// The two balances together never exceed the unit supply's range.
    pub open spec fn wf(&self) -> bool {
        self.user_lamports + self.task_lamports <= u64::MAX
    }
}

/// Both ledger states hold the same balances and the same queue ids.
pub open spec fn ledger_unchanged(pre: Ledger, post: Ledger) -> bool {
    &&& post.user_lamports == pre.user_lamports
    &&& post.task_lamports == pre.task_lamports
    &&& post.queue.used_ids@ == pre.queue.used_ids@
}

/// One exact funds transfer.
pub struct FundsTransfer {
    pub from: AccountId,
    pub to: AccountId,
    pub lamports: u64,
}

/// The delegated signing authority as an explicit capability: the literal
/// seed it is derived from and the resolved bump, enough to sign exactly
/// the queue-registration call and nothing else.
pub struct SignerCapability {
    pub seed: Vec<u8>,
    pub bump: u8,
}

/// The registration arguments handed to the queue service.
pub struct TaskSubmission {
    pub id: u16,
    pub trigger: Trigger,
    pub transaction: tuktuk_program::CompiledTransactionV0,
    pub crank_reward: Option<u64>,
    pub free_tasks: u8,
    pub description: String,
}

/// The six accounts presented to the queue service's registration call.
pub struct QueueCallAccounts {
    pub payer: AccountId,
    pub queue_authority: AccountId,
    pub task_queue: AccountId,
    pub task_queue_authority: AccountId,
    pub task: AccountId,
    pub system_program: AccountId,
}

/// Everything a committed schedule call sends outward: the funds transfer,
/// then the queue registration under the delegated authority.
pub struct SchedulePlan {
    pub transfer: FundsTransfer,
    pub accounts: QueueCallAccounts,
    pub submission: TaskSubmission,
    pub queue_signer: SignerCapability,
}

/// The accounts of the schedule operation. The authorized caller and the
/// program's own identity are injected configuration; the rest are the
/// operation's account set.
pub struct Schedule {
    /// The one identity allowed to schedule.
    pub authorized_user: AccountId,
    /// This program's own identity; the deferred call targets it.
    pub program_id: AccountId,
    /// The requesting signer.
    pub user: AccountId,
    /// The downstream interaction record's derived address.
    pub interaction: AccountId,
    /// The context account the downstream call reads.
    pub context_account: AccountId,
    /// The queue the task is registered with.
    pub task_queue: AccountId,
    /// The queue's authority record.
    pub task_queue_authority: AccountId,
    /// The execution account: created at replay time, holds the compiled
    /// transaction, pays the downstream creation.
    pub task: AccountId,
    /// The delegated, seed-derived queue authority.
    pub queue_authority: AccountId,
    /// The system program, for the transfer the replay performs.
    pub system_program: AccountId,
}

impl Schedule {
    /// Every address is well-formed.
    pub open spec fn wf(&self) -> bool {
        &&& self.authorized_user.wf()
        &&& self.program_id.wf()
        &&& self.user.wf()
        &&& self.interaction.wf()
        &&& self.context_account.wf()
        &&& self.task_queue.wf()
        &&& self.task_queue_authority.wf()
        &&& self.task.wf()
        &&& self.queue_authority.wf()
        &&& self.system_program.wf()
    }

    /// The calling signer is the fixed authorized identity.
    pub open spec fn authorized(&self) -> bool {
        self.user@ == self.authorized_user@
    }

    /// The deferred call's account table is consistent: the four accounts
    /// it references are pairwise distinct and none is the program itself.
    pub open spec fn callback_accounts_distinct(&self) -> bool {
        &&& self.task@ != self.interaction@
        &&& self.task@ != self.context_account@
        &&& self.task@ != self.system_program@
        &&& self.interaction@ != self.context_account@
        &&& self.interaction@ != self.system_program@
        &&& self.context_account@ != self.system_program@
        &&& self.task@ != self.program_id@
        &&& self.interaction@ != self.program_id@
        &&& self.context_account@ != self.program_id@
        &&& self.system_program@ != self.program_id@
    }
}

/// The accounts of the deferred call, in the order the downstream entry
/// point expects: the execution account as paying signer, the interaction
/// record writable, then the context account and the system program
/// read-only.
pub open spec fn scheduled_refs(s: Schedule) -> Seq<AccountRefV> {
    seq![
        AccountRefV { key: s.task@, is_signer: true, is_writable: true },
        AccountRefV { key: s.interaction@, is_signer: false, is_writable: true },
        AccountRefV { key: s.context_account@, is_signer: false, is_writable: false },
        AccountRefV { key: s.system_program@, is_signer: false, is_writable: false },
    ]
}

/// Everything the returned plan must hold after a committed call.
pub open spec fn plan_matches(
    s: Schedule,
    plan: SchedulePlan,
    task_id: u16,
    bumps: ScheduleBumps,
) -> bool {
    let data = plan.submission.transaction.instructions@[0].data@;
    &&& plan.transfer.from@ == s.user@
    &&& plan.transfer.to@ == s.task@
    &&& plan.transfer.lamports == scheduled_funding()
    &&& plan.accounts.payer@ == s.user@
    &&& plan.accounts.queue_authority@ == s.queue_authority@
    &&& plan.accounts.task_queue@ == s.task_queue@
    &&& plan.accounts.task_queue_authority@ == s.task_queue_authority@
    &&& plan.accounts.task@ == s.task@
    &&& plan.accounts.system_program@ == s.system_program@
    &&& plan.submission.id == task_id
    &&& plan.submission.trigger == Trigger::Now
    &&& plan.submission.crank_reward == Some(CRANK_REWARD)
    &&& plan.submission.free_tasks == FREE_TASKS
    &&& plan.submission.description@ == task_description()
    &&& compiled_matches(
        plan.submission.transaction,
        s.program_id@,
        scheduled_refs(s),
        scheduled_payload(s.program_id@),
    )
    &&& data.take(8) == discriminator_of(interact_entry_name())
    &&& parse_payload(data) == Some(
        (
            discriminator_of(interact_entry_name()),
            default_text(),
            s.program_id@,
            discriminator_of(callback_entry_name()),
        ),
    )
    &&& plan.queue_signer.seed@ == queue_authority_seed()
    &&& plan.queue_signer.bump == bumps.queue_authority
}

/// The schedule operation's full contract: which error comes on which
/// inputs — each if and only if, checked in this order — and, on success,
/// exactly the two ledger effects and a plan that `plan_matches` pins down.
pub open spec fn schedule_post(
    s: Schedule,
    pre: Ledger,
    post: Ledger,
    task_id: u16,
    bumps: ScheduleBumps,
    r: Result<SchedulePlan, ScheduleError>,
) -> bool {
    let amount = scheduled_funding();
    if !s.authorized() {
        &&& r matches Err(e) && e == ScheduleError::Authorization
        &&& ledger_unchanged(pre, post)
    } else if !s.callback_accounts_distinct() {
        &&& r matches Err(e) && e == ScheduleError::Compilation
        &&& ledger_unchanged(pre, post)
    } else if pre.user_lamports < amount {
        &&& r matches Err(e) && e == ScheduleError::InsufficientFunds
        &&& ledger_unchanged(pre, post)
    } else if pre.queue.registered(task_id) {
        &&& r matches Err(e) && e == ScheduleError::QueueRejection
        &&& ledger_unchanged(pre, post)
    } else {
        &&& r matches Ok(plan) && plan_matches(s, plan, task_id, bumps)
        &&& post.user_lamports == pre.user_lamports - amount
        &&& post.task_lamports == pre.task_lamports + amount
        &&& post.queue.used_ids@ == pre.queue.used_ids@.push(task_id)
    }
}

impl Schedule {
    /// Builds, funds and registers one deferred task, atomically against
    /// the ledger model, and returns the exact outward effects.
    pub fn schedule(&self, ledger: &mut Ledger, task_id: u16, bumps: ScheduleBumps) -> (r:
        Result<SchedulePlan, ScheduleError>)
        requires
            self.wf(),
            old(ledger).wf(),
        ensures
            final(ledger).wf(),
            schedule_post(*self, *old(ledger), *final(ledger), task_id, bumps, r),
    {
        if !self.user.same_as(&self.authorized_user) {
            return Err(ScheduleError::Authorization);
        }

        // The deferred call: default text, this program's identity, the
        // second-stage callback's discriminator, and no account list.
        let text = default_interaction_text();
        let interact_disc = entry_discriminator("interact_with_llm");
        let callback_disc = entry_discriminator("callback_from_oracle");
        let data = build_callback_payload(&interact_disc, &text, &self.program_id, &callback_disc);

        let mut accounts: Vec<AccountRef> = Vec::new();
        accounts.push(AccountRef { key: self.task.clone(), is_signer: true, is_writable: true });
        accounts.push(
            AccountRef { key: self.interaction.clone(), is_signer: false, is_writable: true },
        );
        accounts.push(
            AccountRef { key: self.context_account.clone(), is_signer: false, is_writable: false },
        );
        accounts.push(
            AccountRef { key: self.system_program.clone(), is_signer: false, is_writable: false },
        );
        let call = TargetCall { program_id: self.program_id.clone(), accounts, data };
        proof {
            assert(call.refs() =~~= scheduled_refs(*self));
            assert(call.keys_distinct() == self.callback_accounts_distinct()) by {
                if self.callback_accounts_distinct() {
                    assert forall|i: int, j: int|
                        0 <= i < j < call.accounts@.len() implies (
                    #[trigger] call.accounts@[i]).key@ != (#[trigger] call.accounts@[j]).key@ by {
                        assert(call.accounts@.len() == 4);
                    }
                    assert forall|i: int|
                        0 <= i < call.accounts@.len() implies (#[trigger] call.accounts@[i]).key@
                        != call.program_id@ by {
                        assert(call.accounts@.len() == 4);
                    }
                } else {
                    assert(call.accounts@[0].key@ == self.task@);
                    assert(call.accounts@[1].key@ == self.interaction@);
                    assert(call.accounts@[2].key@ == self.context_account@);
                    assert(call.accounts@[3].key@ == self.system_program@);
                }
            }
        }

        let compiled = match compile_target_call(&call) {
            Ok(ct) => ct,
            Err(e) => {
                return Err(e);
            },
        };

        let amount = required_interaction_funding(text.len());
        if ledger.user_lamports < amount {
            return Err(ScheduleError::InsufficientFunds);
        }
        if ledger.queue.has_task(task_id) {
            return Err(ScheduleError::QueueRejection);
        }

        // Commit: move the funding into the execution account, then take
        // the id in the queue. The surrounding environment makes the whole
        // call one atomic operation; past this point nothing can fail.
        ledger.user_lamports = ledger.user_lamports - amount;
        ledger.task_lamports = ledger.task_lamports + amount;
        ledger.queue.used_ids.push(task_id);

        proof {
            lemma_payload_starts_with_discriminator(
                interact_disc@,
                text@,
                self.program_id@,
                callback_disc@,
            );
            lemma_payload_round_trip(interact_disc@, text@, self.program_id@, callback_disc@);
        }

        let description: String = ("Scheduled LLM interaction").to_owned();
        let seed: Vec<u8> = ("queue_authority").as_bytes_vec();
        Ok(
            SchedulePlan {
                transfer: FundsTransfer {
                    from: self.user.clone(),
                    to: self.task.clone(),
                    lamports: amount,
                },
                accounts: QueueCallAccounts {
                    payer: self.user.clone(),
                    queue_authority: self.queue_authority.clone(),
                    task_queue: self.task_queue.clone(),
                    task_queue_authority: self.task_queue_authority.clone(),
                    task: self.task.clone(),
                    system_program: self.system_program.clone(),
                },
                submission: TaskSubmission {
                    id: task_id,
                    trigger: Trigger::Now,
                    transaction: compiled,
                    crank_reward: Some(CRANK_REWARD),
                    free_tasks: FREE_TASKS,
                    description,
                },
                queue_signer: SignerCapability { seed, bump: bumps.queue_authority },
            },
        )
    }
}

/// Atomicity: a schedule call commits both the funds transfer and the queue
/// registration, or commits neither — no other outcome satisfies its
/// contract.
pub proof fn lemma_schedule_atomic(
    s: Schedule,
    pre: Ledger,
    post: Ledger,
    task_id: u16,
    bumps: ScheduleBumps,
    r: Result<SchedulePlan, ScheduleError>,
)
    requires
        schedule_post(s, pre, post, task_id, bumps, r),
    ensures
        r is Ok ==> {
            &&& post.user_lamports == pre.user_lamports - scheduled_funding()
            &&& post.task_lamports == pre.task_lamports + scheduled_funding()
            &&& post.queue.used_ids@ == pre.queue.used_ids@.push(task_id)
        },
        r is Err ==> ledger_unchanged(pre, post),
{
}

/// Access control: a caller other than the fixed authorized identity always
/// fails with the authorization error, and no transfer happens.
pub proof fn lemma_unauthorized_never_transfers(
    s: Schedule,
    pre: Ledger,
    post: Ledger,
    task_id: u16,
    bumps: ScheduleBumps,
    r: Result<SchedulePlan, ScheduleError>,
)
    requires
        schedule_post(s, pre, post, task_id, bumps, r),
        s.user@ != s.authorized_user@,
    ensures
        r matches Err(e) && e == ScheduleError::Authorization,
        ledger_unchanged(pre, post),
{
}

/// Uniqueness: of two schedule calls against the same queue with the same
/// task id, at most one succeeds; one that runs after an accepted one is
/// rejected by the queue and changes nothing.
pub proof fn lemma_same_task_id_at_most_once(
    s1: Schedule,
    s2: Schedule,
    l0: Ledger,
    l1: Ledger,
    l2: Ledger,
    task_id: u16,
    b1: ScheduleBumps,
    b2: ScheduleBumps,
    r1: Result<SchedulePlan, ScheduleError>,
    r2: Result<SchedulePlan, ScheduleError>,
)
    requires
        schedule_post(s1, l0, l1, task_id, b1, r1),
        schedule_post(s2, l1, l2, task_id, b2, r2),
        r1 is Ok,
    ensures
        !(r2 is Ok),
        ledger_unchanged(l1, l2),
        s2.authorized() && s2.callback_accounts_distinct() && l1.user_lamports
            >= scheduled_funding() ==> (r2 matches Err(e) && e == ScheduleError::QueueRejection),
{
    assert(l1.queue.used_ids@ == l0.queue.used_ids@.push(task_id));
    assert(l1.queue.used_ids@[l1.queue.used_ids@.len() - 1] == task_id);
    assert(l1.queue.registered(task_id));
}

} // verus!
