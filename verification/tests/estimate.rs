use rust_vm::estimate::{
    calculate_cost, estimate_tokens, simulate_processing_time, write_dollars, write_whole,
};

#[test]
fn a_token_stands_for_four_bytes_rounded_up() {
    assert_eq!(estimate_tokens(""), 0);
    assert_eq!(estimate_tokens("a"), 1);
    assert_eq!(estimate_tokens("abcd"), 1);
    assert_eq!(estimate_tokens("abcde"), 2);
    assert_eq!(estimate_tokens("abcdefgh"), 2);
    assert_eq!(estimate_tokens("Olá"), 1);
    assert_eq!(estimate_tokens("Olá!!"), 2);
}

#[test]
fn cost_is_three_per_input_token_and_six_per_output_token() {
    assert_eq!(calculate_cost("", ""), 0);
    assert_eq!(calculate_cost("abcd", ""), 3);
    assert_eq!(calculate_cost("", "abcd"), 6);
    assert_eq!(calculate_cost("abcde", "abcdefghi"), 3 * 2 + 6 * 3);
    assert_eq!(calculate_cost("Olá", "Olá! Como posso ajudar você hoje no FlipApp?"), 75);
}

#[test]
fn processing_takes_200_ms_and_half_a_ms_per_byte() {
    assert_eq!(simulate_processing_time(""), 200);
    assert_eq!(simulate_processing_time("a"), 200);
    assert_eq!(simulate_processing_time("ab"), 201);
    assert_eq!(simulate_processing_time("Olá"), 202);
    let long = "x".repeat(1001);
    assert_eq!(simulate_processing_time(&long), 700);
}

#[test]
fn whole_numbers_are_written_in_decimal() {
    assert_eq!(write_whole(0), "0");
    assert_eq!(write_whole(7), "7");
    assert_eq!(write_whole(10), "10");
    assert_eq!(write_whole(1_234_567_890), "1234567890");
    assert_eq!(write_whole(u64::MAX), "18446744073709551615");
}

#[test]
fn a_cost_is_written_in_dollars_with_five_places() {
    assert_eq!(write_dollars(0), "0.00000");
    assert_eq!(write_dollars(75), "0.00075");
    assert_eq!(write_dollars(100_000), "1.00000");
    assert_eq!(write_dollars(123_456), "1.23456");
    assert_eq!(write_dollars(9_000_009), "90.00009");
}
