use anchor_lang::prelude::Pubkey;
use anchor_lang::prelude::Rent;
use tuktuk_scheduler::codec::decode_callback_payload;
use tuktuk_scheduler::digest::entry_discriminator;
use tuktuk_scheduler::errors::ScheduleError;
use tuktuk_scheduler::identity::AccountId;
use tuktuk_scheduler::schedule::default_interaction_text;
use tuktuk_scheduler::schedule::Ledger;
use tuktuk_scheduler::schedule::Schedule;
use tuktuk_scheduler::schedule::ScheduleBumps;
use tuktuk_scheduler::schedule::TaskQueueModel;
use tuktuk_scheduler::schedule::Trigger;

fn id_of(tag: u8) -> AccountId {
    AccountId::new(vec![tag; 32])
}

fn test_schedule() -> Schedule {
    Schedule {
        authorized_user: id_of(1),
        program_id: id_of(2),
        user: id_of(1),
        interaction: id_of(3),
        context_account: id_of(4),
        task_queue: id_of(5),
        task_queue_authority: id_of(6),
        task: id_of(7),
        queue_authority: id_of(8),
        system_program: id_of(0),
    }
}

fn funded_ledger() -> Ledger {
    Ledger { user_lamports: 10_000_000, task_lamports: 0, queue: TaskQueueModel { used_ids: Vec::new() } }
}

fn bumps() -> ScheduleBumps {
    ScheduleBumps { interaction: 254, queue_authority: 255 }
}

#[test]
fn scheduling_task_seven_transfers_the_floor_and_registers_once() {
    let s = test_schedule();
    let mut ledger = funded_ledger();
    let plan = s.schedule(&mut ledger, 7, bumps()).expect("authorized, funded, id free");

    let amount = Rent::default().minimum_balance(121 + default_interaction_text().len());
    assert_eq!(plan.transfer.lamports, amount);
    assert_eq!(plan.transfer.from.bytes, vec![1; 32]);
    assert_eq!(plan.transfer.to.bytes, vec![7; 32]);
    assert_eq!(ledger.user_lamports, 10_000_000 - amount);
    assert_eq!(ledger.task_lamports, amount);
    assert_eq!(ledger.queue.used_ids, vec![7]);

    assert_eq!(plan.submission.id, 7);
    assert!(matches!(plan.submission.trigger, Trigger::Now));
    assert_eq!(plan.submission.crank_reward, Some(1000002));
    assert_eq!(plan.submission.free_tasks, 1);
    assert_eq!(plan.submission.description, "Scheduled LLM interaction");
    assert_eq!(plan.queue_signer.seed, b"queue_authority".to_vec());
    assert_eq!(plan.queue_signer.bump, 255);

    assert_eq!(plan.accounts.payer.bytes, vec![1; 32]);
    assert_eq!(plan.accounts.queue_authority.bytes, vec![8; 32]);
    assert_eq!(plan.accounts.task_queue.bytes, vec![5; 32]);
    assert_eq!(plan.accounts.task_queue_authority.bytes, vec![6; 32]);
    assert_eq!(plan.accounts.task.bytes, vec![7; 32]);
    assert_eq!(plan.accounts.system_program.bytes, vec![0; 32]);
}

#[test]
fn the_compiled_transaction_replays_the_exact_call() {
    let s = test_schedule();
    let mut ledger = funded_ledger();
    let plan = s.schedule(&mut ledger, 1, bumps()).expect("schedule");
    let ct = &plan.submission.transaction;

    assert_eq!(ct.instructions.len(), 1);
    assert!(ct.signer_seeds.is_empty());
    assert_eq!(ct.accounts.len(), 5);

    let ix = &ct.instructions[0];
    // Per-descriptor account order is preserved through the table indices.
    let expected = [vec![7u8; 32], vec![3; 32], vec![4; 32], vec![0; 32]];
    assert_eq!(ix.accounts.len(), 4);
    for (i, key) in expected.iter().enumerate() {
        let table_pos = ix.accounts[i] as usize;
        let mut raw = [0u8; 32];
        raw.copy_from_slice(key);
        assert_eq!(ct.accounts[table_pos], Pubkey::new_from_array(raw));
    }
    assert_eq!(ct.accounts[ix.program_id_index as usize], Pubkey::new_from_array([2; 32]));
    // One writable signer (the execution account), placed first.
    assert_eq!(ct.num_rw_signers, 1);
    assert_eq!(ct.num_ro_signers, 0);
    assert_eq!(ct.num_rw, 1);
    assert_eq!(ix.accounts[0], 0);
}

#[test]
fn the_payload_decodes_back_to_the_scheduled_arguments() {
    let s = test_schedule();
    let mut ledger = funded_ledger();
    let plan = s.schedule(&mut ledger, 3, bumps()).expect("schedule");
    let data = &plan.submission.transaction.instructions[0].data;

    assert_eq!(&data[..8], entry_discriminator("interact_with_llm").as_slice());

    let decoded = decode_callback_payload(data).expect("payload decodes");
    assert_eq!(decoded.discriminator, entry_discriminator("interact_with_llm"));
    assert_eq!(decoded.text, b"Scheduled interaction from TukTuk cron".to_vec());
    assert_eq!(decoded.text, default_interaction_text());
    assert_eq!(decoded.program_id, vec![2; 32]);
    assert_eq!(decoded.callback_discriminator, entry_discriminator("callback_from_oracle"));
}

#[test]
fn an_unauthorized_caller_is_rejected_with_no_transfer() {
    let mut s = test_schedule();
    s.user = id_of(9);
    let mut ledger = funded_ledger();
    let r = s.schedule(&mut ledger, 7, bumps());
    assert_eq!(r.err(), Some(ScheduleError::Authorization));
    assert_eq!(ledger.user_lamports, 10_000_000);
    assert_eq!(ledger.task_lamports, 0);
    assert!(ledger.queue.used_ids.is_empty());
}

#[test]
fn an_underfunded_caller_fails_before_registration() {
    let s = test_schedule();
    let amount = Rent::default().minimum_balance(121 + 38);
    let mut ledger = funded_ledger();
    ledger.user_lamports = amount - 1;
    let r = s.schedule(&mut ledger, 7, bumps());
    assert_eq!(r.err(), Some(ScheduleError::InsufficientFunds));
    assert_eq!(ledger.user_lamports, amount - 1);
    assert_eq!(ledger.task_lamports, 0);
    assert!(ledger.queue.used_ids.is_empty());
}

#[test]
fn a_repeated_account_fails_compilation_before_any_transfer() {
    let mut s = test_schedule();
    s.interaction = id_of(7); // same address as the execution account
    let mut ledger = funded_ledger();
    let r = s.schedule(&mut ledger, 7, bumps());
    assert_eq!(r.err(), Some(ScheduleError::Compilation));
    assert_eq!(ledger.user_lamports, 10_000_000);
    assert_eq!(ledger.task_lamports, 0);
}

#[test]
fn the_same_task_id_is_accepted_at_most_once() {
    let s = test_schedule();
    let mut ledger = funded_ledger();
    assert!(s.schedule(&mut ledger, 7, bumps()).is_ok());
    let user_after = ledger.user_lamports;
    let task_after = ledger.task_lamports;

    let r = s.schedule(&mut ledger, 7, bumps());
    assert_eq!(r.err(), Some(ScheduleError::QueueRejection));
    assert_eq!(ledger.user_lamports, user_after);
    assert_eq!(ledger.task_lamports, task_after);
    assert_eq!(ledger.queue.used_ids, vec![7]);

    // A different id against the same queue still goes through.
    assert!(s.schedule(&mut ledger, 8, bumps()).is_ok());
    assert_eq!(ledger.queue.used_ids, vec![7, 8]);
}

#[test]
fn a_taken_id_is_seen_by_the_queue_model() {
    let queue = TaskQueueModel { used_ids: vec![1, 5, 9] };
    assert!(queue.has_task(5));
    assert!(!queue.has_task(2));
}
