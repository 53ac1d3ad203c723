//! The reply heuristic: a handful of keyword rules, tried in order on the
//! lowercase form of the prompt.

use crate::clock::Timestamp;
use crate::text::{byte_len, contains, contains_text, leading_chars, lowercased, take_chars, to_lowercase};
use vstd::prelude::*;
use vstd::string::*;

verus! {

pub const GREETING_REPLY: &'static str = "Olá! Como posso ajudar você hoje no FlipApp?";

pub const WEATHER_REPLY: &'static str =
    "O clima hoje está ensolarado com 25°C. Perfeito para usar o FlipApp ao ar livre!";

pub const DATE_REPLY_HEAD: &'static str = "Hoje é ";

pub const DATE_REPLY_TAIL: &'static str = ". Posso ajudar com mais alguma informação?";

pub const PRODUCT_REPLY: &'static str =
    "O FlipApp é uma plataforma conversacional inovadora com UI declarativa e processamento WASM. Como posso ajudar você a explorá-lo?";

pub const HELP_REPLY: &'static str =
    "Estou aqui para ajudar! Posso responder perguntas sobre:\n- Funcionalidades do FlipApp\n- Informações gerais\n- Clima e data\n- E muito mais!";

pub const CONTRACTS_REPLY: &'static str =
    "Os contratos no FlipApp são unidades de lógica de negócio que podem ser executadas de forma auditável. Quer saber mais sobre algum contrato específico?";

pub const ELABORATE_REPLY: &'static str = "Poderia elaborar um pouco mais? Estou aqui para ajudar!";

pub const ECHO_REPLY_HEAD: &'static str = "Entendi sua pergunta sobre '";

pub const ECHO_REPLY_TAIL: &'static str =
    "'. Esta é uma resposta simulada do processamento WASM local. Em produção, isso seria processado por um LLM real.";

/// A prompt whose lowercase form is shorter than this many bytes, and that
/// no keyword rule answers, is asked to be elaborated.
pub const SHORT_PROMPT_BYTES: usize = 5;

/// How many characters of the prompt the last rule quotes.
pub const ECHO_CHARS: usize = 50;

/// The rule that answers a prompt.
pub enum ReplyRule {
    Greeting,
    Weather,
    Date,
    Product,
    Help,
    Contracts,
    Elaborate,
    Echo,
}

/// The first rule that applies to a prompt whose lowercase form is `lower`.
pub open spec fn rule_for(lower: Seq<char>) -> ReplyRule {
    if contains_text(lower, "olá"@) || contains_text(lower, "oi"@) {
        ReplyRule::Greeting
    } else if contains_text(lower, "clima"@) {
        ReplyRule::Weather
    } else if contains_text(lower, "data"@) || contains_text(lower, "hoje"@) {
        ReplyRule::Date
    } else if contains_text(lower, "flipapp"@) {
        ReplyRule::Product
    } else if contains_text(lower, "ajuda"@) || contains_text(lower, "help"@) {
        ReplyRule::Help
    } else if contains_text(lower, "contratos"@) || contains_text(lower, "contrato"@) {
        ReplyRule::Contracts
    } else if byte_len(lower) < 5 {
        ReplyRule::Elaborate
    } else {
        ReplyRule::Echo
    }
}

/// The reply to `prompt` at the instant `now`.
pub open spec fn reply_text(prompt: Seq<char>, now: Timestamp) -> Seq<char> {
    match rule_for(lowercased(prompt)) {
        ReplyRule::Greeting => GREETING_REPLY@,
        ReplyRule::Weather => WEATHER_REPLY@,
        ReplyRule::Date => DATE_REPLY_HEAD@ + now.date_text() + DATE_REPLY_TAIL@,
        ReplyRule::Product => PRODUCT_REPLY@,
        ReplyRule::Help => HELP_REPLY@,
        ReplyRule::Contracts => CONTRACTS_REPLY@,
        ReplyRule::Elaborate => ELABORATE_REPLY@,
        ReplyRule::Echo => ECHO_REPLY_HEAD@ + leading_chars(prompt, 50) + ECHO_REPLY_TAIL@,
    }
}

/// Picks the rule for a prompt from its lowercase form.
pub fn choose_rule(lower: &str) -> (rule: ReplyRule)
    ensures
        rule == rule_for(lower@),
{
    if contains(lower, "olá") || contains(lower, "oi") {
        ReplyRule::Greeting
    } else if contains(lower, "clima") {
        ReplyRule::Weather
    } else if contains(lower, "data") || contains(lower, "hoje") {
        ReplyRule::Date
    } else if contains(lower, "flipapp") {
        ReplyRule::Product
    } else if contains(lower, "ajuda") || contains(lower, "help") {
        ReplyRule::Help
    } else if contains(lower, "contratos") || contains(lower, "contrato") {
        ReplyRule::Contracts
    } else if lower.as_bytes().len() < SHORT_PROMPT_BYTES {
        ReplyRule::Elaborate
    } else {
        ReplyRule::Echo
    }
}

/// Answers a prompt. `now` is the instant of the answer, whose date the
/// date rule writes.
pub fn generate_llm_response(prompt: &str, now: &Timestamp) -> (reply: String)
    ensures
        reply@ == reply_text(prompt@, *now),
{
    let lower = to_lowercase(prompt);
    match choose_rule(lower.as_str()) {
        ReplyRule::Greeting => GREETING_REPLY.to_owned(),
        ReplyRule::Weather => WEATHER_REPLY.to_owned(),
        ReplyRule::Date => {
            let mut reply = DATE_REPLY_HEAD.to_owned();
            let date = now.to_calendar_date();
            reply.append(date.as_str());
            reply.append(DATE_REPLY_TAIL);
            reply
        },
        ReplyRule::Product => PRODUCT_REPLY.to_owned(),
        ReplyRule::Help => HELP_REPLY.to_owned(),
        ReplyRule::Contracts => CONTRACTS_REPLY.to_owned(),
        ReplyRule::Elaborate => ELABORATE_REPLY.to_owned(),
        ReplyRule::Echo => {
            let mut reply = ECHO_REPLY_HEAD.to_owned();
            let quoted = take_chars(prompt, ECHO_CHARS);
            reply.append(quoted.as_str());
            reply.append(ECHO_REPLY_TAIL);
            reply
        },
    }
}

} // verus!
