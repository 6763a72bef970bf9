//! Reading the generation service's reply: decoding it, taking the text of
//! the first part of the first candidate, and choosing its delivery.
use vstd::prelude::*;
use crate::delivery::{Delivery, DeliveryView, delivery_of, plan_delivery};

verus! {

/// Why one message got no reply.
#[derive(PartialEq, Eq, Structural, Clone, Copy, Debug)]
pub enum Failure {
    /// The generation service could not be reached or answered with an error.
    Generation,
    /// The reply could not be decoded.
    Decode,
    /// The decoded reply holds no candidate, or its first candidate no part.
    MissingContent,
    /// The channel refused the reply.
    Delivery,
}

/// Whether the HTTP response head of `raw` is complete or rejected, rather
/// than cut short.
pub uninterp spec fn response_head_settled(raw: Seq<char>) -> bool;

/// The decoded reply in `raw`: for each candidate, in order, the texts of its
/// parts; `None` where decoding fails.
pub uninterp spec fn decoded_candidates(raw: Seq<char>) -> Option<Seq<Seq<Seq<char>>>>;

/// Relies on httparse::Response::parse, given the 64 header slots that
/// gemini_ai::decode_gemini gives it: whether it reports anything but
/// `Status::Partial` on the bytes of `raw`.
#[verifier::external_body]
fn head_settled(raw: &str) -> (r: bool)
    ensures
        r == response_head_settled(raw@),
{
    let mut slots = [httparse::EMPTY_HEADER; 64];
    let mut head = httparse::Response::new(&mut slots);
    match head.parse(raw.as_bytes()) {
        Ok(httparse::Status::Partial) => false,
        _ => true,
    }
}

/// Relies on gemini_ai::decode_gemini: it parses an HTTP response and its JSON
/// body, and depends on `raw` alone. The texts of the parts of each candidate
/// are kept in order; an error becomes `None`. It unwraps the parser's status,
/// which panics on a head cut short: that input is left out.
#[verifier::external_body]
fn decode_reply(raw: &str) -> (r: Option<Vec<Vec<String>>>)
    requires
        response_head_settled(raw@),
    ensures
        r.deep_view() == decoded_candidates(raw@),
{
    match gemini_ai::decode_gemini(raw) {
        Ok(reply) => Some(
            reply.candidates.into_iter().map(
                |c| c.content.parts.into_iter().map(|p| p.text).collect(),
            ).collect(),
        ),
        Err(_) => None,
    }
}

/// The text of the first part of the first candidate, if there is one.
pub open spec fn first_text(candidates: Seq<Seq<Seq<char>>>) -> Option<Seq<char>> {
    if candidates.len() > 0 && candidates[0].len() > 0 {
        Some(candidates[0][0])
    } else {
        None
    }
}

/// What is sent for a decoded reply, or why nothing is.
pub open spec fn reply_outcome(candidates: Seq<Seq<Seq<char>>>) -> Result<DeliveryView, Failure> {
    match first_text(candidates) {
        Some(t) => Ok(delivery_of(t)),
        None => Err(Failure::MissingContent),
    }
}

/// What is sent for a raw reply, or why nothing is.
pub open spec fn raw_outcome(raw: Seq<char>) -> Result<DeliveryView, Failure> {
    if !response_head_settled(raw) {
        Err(Failure::Decode)
    } else {
        match decoded_candidates(raw) {
            Some(c) => reply_outcome(c),
            None => Err(Failure::Decode),
        }
    }
}

pub open spec fn outcome_view(r: Result<Delivery, Failure>) -> Result<DeliveryView, Failure> {
    match r {
        Ok(d) => Ok(d@),
        Err(f) => Err(f),
    }
}

/// The text of the first part of the first candidate.
pub fn extract_text(candidates: &Vec<Vec<String>>) -> (r: Result<String, Failure>)
    ensures
        r is Ok <==> first_text(candidates.deep_view()) is Some,
        r matches Ok(t) ==> first_text(candidates.deep_view()) == Some(t@),
        r matches Err(f) ==> f == Failure::MissingContent,
{
    if candidates.len() == 0 || candidates[0].len() == 0 {
        Err(Failure::MissingContent)
    } else {
        Ok(candidates[0][0].clone())
    }
}

/// What to send for a decoded reply.
pub fn respond_to_candidates(candidates: &Vec<Vec<String>>) -> (r: Result<Delivery, Failure>)
    ensures
        outcome_view(r) == reply_outcome(candidates.deep_view()),
{
    match extract_text(candidates) {
        Ok(t) => Ok(plan_delivery(t)),
        Err(f) => Err(f),
    }
}

/// What to send for a raw reply of the generation service.
pub fn respond_to_raw(raw: &str) -> (r: Result<Delivery, Failure>)
    ensures
        outcome_view(r) == raw_outcome(raw@),
{
    if !head_settled(raw) {
        return Err(Failure::Decode);
    }
    match decode_reply(raw) {
        Some(candidates) => respond_to_candidates(&candidates),
        None => Err(Failure::Decode),
    }
}

} // verus!
