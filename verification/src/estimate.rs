//! Estimates attached to a generated reply: tokens, cost and processing
//! time. All of them are whole numbers; a cost is counted in
//! hundred-thousandths of a US dollar.

use crate::text::byte_len;
use vstd::prelude::*;
use vstd::string::*;

verus! {

/// Bytes of text that one token stands for.
pub const BYTES_PER_TOKEN: usize = 4;

/// Cost of one input token, in hundred-thousandths of a dollar.
pub const INPUT_TOKEN_COST: u64 = 3;

/// Cost of one output token, in hundred-thousandths of a dollar.
pub const OUTPUT_TOKEN_COST: u64 = 6;

/// Processing time that every prompt takes, in milliseconds.
pub const BASE_PROCESSING_MS: u32 = 200;

/// How many cost units make one dollar.
pub const UNITS_PER_DOLLAR: u64 = 100_000;

/// Tokens in a text of `bytes` bytes: one for every four bytes, rounded up,
/// and never more than a `u32` holds.
pub open spec fn token_estimate(bytes: nat) -> nat {
    let tokens = (bytes + 3) / 4;
    if tokens > u32::MAX {
        u32::MAX as nat
    } else {
        tokens
    }
}

/// Cost of a reply in hundred-thousandths of a dollar: three for each input
/// token and six for each output token.
pub open spec fn cost_estimate(input_tokens: nat, output_tokens: nat) -> nat {
    3 * input_tokens + 6 * output_tokens
}

/// Processing time in milliseconds for a prompt of `bytes` bytes: 200 and
/// half a millisecond for each byte, rounded down, and never more than a
/// `u32` holds.
pub open spec fn processing_time_estimate(bytes: nat) -> nat {
    let millis = 200 + bytes / 2;
    if millis > u32::MAX {
        u32::MAX as nat
    } else {
        millis
    }
}

/// The text of a decimal digit.
pub open spec fn digit_text(digit: nat) -> Seq<char> {
    if digit == 0 {
        "0"@
    } else if digit == 1 {
        "1"@
    } else if digit == 2 {
        "2"@
    } else if digit == 3 {
        "3"@
    } else if digit == 4 {
        "4"@
    } else if digit == 5 {
        "5"@
    } else if digit == 6 {
        "6"@
    } else if digit == 7 {
        "7"@
    } else if digit == 8 {
        "8"@
    } else {
        "9"@
    }
}

/// The decimal text of a whole number, without leading zeros.
pub open spec fn whole_text(n: nat) -> Seq<char>
    decreases n,
{
    if n < 10 {
        digit_text(n)
    } else {
        whole_text(n / 10) + digit_text(n % 10)
    }
}

/// The decimal text of a cost in dollars: the whole dollars, a point, and
/// five decimal places.
pub open spec fn dollars_text(units: nat) -> Seq<char> {
    whole_text(units / 100_000) + "."@ + digit_text(units / 10_000 % 10) + digit_text(
        units / 1_000 % 10,
    ) + digit_text(units / 100 % 10) + digit_text(units / 10 % 10) + digit_text(units % 10)
}

/// Estimates the tokens in a text.
pub fn estimate_tokens(text: &str) -> (tokens: u32)
    ensures
        tokens == token_estimate(byte_len(text@)),
{
    let bytes = text.as_bytes().len();
    let whole = bytes / BYTES_PER_TOKEN;
    let tokens = if bytes % BYTES_PER_TOKEN == 0 {
        whole
    } else {
        whole + 1
    };
    if tokens > 0xffff_ffff {
        u32::MAX
    } else {
        tokens as u32
    }
}

/// Estimates the cost of answering `prompt` with `response`, in
/// hundred-thousandths of a dollar.
pub fn calculate_cost(prompt: &str, response: &str) -> (units: u64)
    ensures
        units == cost_estimate(
            token_estimate(byte_len(prompt@)),
            token_estimate(byte_len(response@)),
        ),
{
    let input_tokens = estimate_tokens(prompt);
    let output_tokens = estimate_tokens(response);
    INPUT_TOKEN_COST * (input_tokens as u64) + OUTPUT_TOKEN_COST * (output_tokens as u64)
}

/// Estimates the time that processing a prompt takes, in milliseconds.
pub fn simulate_processing_time(prompt: &str) -> (millis: u32)
    ensures
        millis == processing_time_estimate(byte_len(prompt@)),
{
    let variable = prompt.as_bytes().len() / 2;
    if variable > 0xffff_ffff - 200 {
        u32::MAX
    } else {
        BASE_PROCESSING_MS + (variable as u32)
    }
}

/// The text of one decimal digit.
fn digit_str(digit: u64) -> (text: &'static str)
    requires
        digit < 10,
    ensures
        text@ == digit_text(digit as nat),
{
    if digit == 0 {
        "0"
    } else if digit == 1 {
        "1"
    } else if digit == 2 {
        "2"
    } else if digit == 3 {
        "3"
    } else if digit == 4 {
        "4"
    } else if digit == 5 {
        "5"
    } else if digit == 6 {
        "6"
    } else if digit == 7 {
        "7"
    } else if digit == 8 {
        "8"
    } else {
        "9"
    }
}

/// Writes a whole number in decimal.
pub fn write_whole(n: u64) -> (text: String)
    ensures
        text@ == whole_text(n as nat),
    decreases n,
{
    if n < 10 {
        digit_str(n).to_owned()
    } else {
        let mut text = write_whole(n / 10);
        text.append(digit_str(n % 10));
        text
    }
}

/// Writes a cost, counted in hundred-thousandths of a dollar, in dollars.
pub fn write_dollars(units: u64) -> (text: String)
    ensures
        text@ == dollars_text(units as nat),
{
    let mut text = write_whole(units / UNITS_PER_DOLLAR);
    text.append(".");
    text.append(digit_str(units / 10_000 % 10));
    text.append(digit_str(units / 1_000 % 10));
    text.append(digit_str(units / 100 % 10));
    text.append(digit_str(units / 10 % 10));
    text.append(digit_str(units % 10));
    text
}

} // verus!
