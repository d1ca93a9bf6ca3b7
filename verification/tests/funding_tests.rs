use anchor_lang::prelude::Rent;
use tuktuk_scheduler::funding::required_interaction_funding;

#[test]
fn funding_equals_the_cost_models_floor_for_the_sized_record() {
    let expected = Rent::default().minimum_balance(121 + 38);
    assert_eq!(required_interaction_funding(38), expected);
}

#[test]
fn funding_covers_the_fixed_overhead_even_for_an_empty_text() {
    let expected = Rent::default().minimum_balance(121);
    assert_eq!(required_interaction_funding(0), expected);
}

#[test]
fn funding_grows_with_the_text() {
    assert!(required_interaction_funding(100) > required_interaction_funding(0));
}
