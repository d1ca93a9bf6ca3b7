use tuktuk_scheduler::digest::entry_discriminator;

#[test]
fn discriminator_is_the_truncated_hash_of_the_prefixed_name() {
    let disc = entry_discriminator("interact_with_llm");
    let full = anchor_lang::solana_program::hash::hash(b"global:interact_with_llm").to_bytes();
    assert_eq!(disc, full[..8].to_vec());
}

#[test]
fn interact_discriminator_golden_bytes() {
    assert_eq!(entry_discriminator("interact_with_llm"), vec![2, 54, 5, 16, 87, 123, 219, 132]);
}

#[test]
fn callback_discriminator_golden_bytes() {
    assert_eq!(entry_discriminator("callback_from_oracle"), vec![8, 43, 33, 15, 26, 22, 255, 206]);
}

#[test]
fn different_entry_points_get_different_discriminators() {
    assert_ne!(
        entry_discriminator("interact_with_llm"),
        entry_discriminator("callback_from_oracle")
    );
}
