//! The price of one XMR in another currency.
//!
//! The price service answers with a JSON object. Asked for a currency it
//! knows, it answers with the price under the currency's code; otherwise
//! with a complaint under `Message`. The reply is decoded by `serde_json`;
//! what it means is decided here.
//!
//! The verifier has no floating-point numbers, so a price travels as the bit
//! pattern of its IEEE 754 double, and the multiplication by an amount is
//! left to the caller.

use crate::failure::{no_price, undecodable, unexplained, upstream, ErrorKind, Failure, FailureView};
use serde_json::Value;
use std::collections::HashMap;
use vstd::prelude::*;

verus! {

/// A JSON value of `serde_json`, which the verifier does not look into.
#[verifier::external_type_specification]
#[verifier::external_body]
pub struct ExValue(serde_json::Value);

/// The error of `serde_json`, which the verifier does not look into.
#[verifier::external_type_specification]
#[verifier::external_body]
pub struct ExJsonError(serde_json::Error);

/// What the price logic reads of a decoded reply: for each key, the number
/// under it, as the bits of its double, where the value is a number, and the
/// text under it where the value is a text.
pub type Fields = Map<Seq<char>, (Option<u64>, Option<Seq<char>>)>;

/// What `serde_json::from_slice` makes of a body that is read as a map from
/// strings to JSON values: nothing where it refuses the body, and otherwise
/// what the map holds (see [`held_fields`]).
pub uninterp spec fn decoded_fields(body: Seq<u8>) -> Option<Fields>;

/// What a decoded map holds: for each of its keys, what `Value::as_f64`
/// gives for the value under it, as the bits of the double, and what
/// `Value::as_str` gives for it.
pub uninterp spec fn held_fields(fields: HashMap<String, Value>) -> Fields;

/// The result of a lookup for a text, as a mathematical value.
pub open spec fn text_views(found: Option<Option<String>>) -> Option<Option<Seq<char>>> {
    match found {
        Some(Some(text)) => Some(Some(text@)),
        Some(None) => Some(None),
        None => None,
    }
}

/// Calls `serde_json::from_slice` to read a body as a map from strings to
/// JSON values. Trusted: the outcome depends on the bytes alone, so it is the
/// one that [`decoded_fields`] names.
#[verifier::external_body]
fn decode_fields(body: &[u8]) -> (r: Result<HashMap<String, Value>, serde_json::Error>)
    ensures
        match r {
            Ok(fields) => decoded_fields(body@) == Some(held_fields(fields)),
            Err(_) => decoded_fields(body@) is None,
        },
{
    serde_json::from_slice::<HashMap<String, Value>>(body)
}

/// Looks a key up with `HashMap::get` and reads the value under it with
/// `Value::as_f64`, handing the double on as its bits. Trusted: the answer
/// is nothing where the map lacks the key, and otherwise what
/// [`held_fields`] names as the number under the key.
#[verifier::external_body]
fn number_at(fields: &HashMap<String, Value>, key: &str) -> (r: Option<Option<u64>>)
    ensures
        r == if held_fields(*fields).contains_key(key@) {
            Some(held_fields(*fields)[key@].0)
        } else {
            None
        },
{
    fields.get(key).map(|value| value.as_f64().map(|number| number.to_bits()))
}

/// Looks a key up with `HashMap::get` and reads the value under it with
/// `Value::as_str`, handing the text on as a string of its own. Trusted: the
/// answer is nothing where the map lacks the key, and otherwise what
/// [`held_fields`] names as the text under the key.
#[verifier::external_body]
fn text_at(fields: &HashMap<String, Value>, key: &str) -> (r: Option<Option<String>>)
    ensures
        text_views(r) == if held_fields(*fields).contains_key(key@) {
            Some(held_fields(*fields)[key@].1)
        } else {
            None
        },
{
    fields.get(key).map(|value| value.as_str().map(|text| text.to_owned()))
}

/// The price of one XMR, as the bit pattern of an IEEE 754 double.
#[derive(Clone, Copy, Debug, PartialEq, Eq, Structural)]
pub struct Price {
    pub bits: u64,
}

/// Where the price of one XMR in a currency is asked for.
pub open spec fn price_address(currency: Seq<char>) -> Seq<char> {
    "https://min-api.cryptocompare.com/data/price?fsym=XMR&tsyms="@ + currency
}

/// The address to ask for the price of one XMR in a currency.
pub fn price_url(currency: &str) -> (url: String)
    ensures
        url@ == price_address(currency@),
{
    let mut url = "https://min-api.cryptocompare.com/data/price?fsym=XMR&tsyms=".to_owned();
    url.append(currency);
    url
}

/// The key under which the service puts its complaint.
pub open spec fn message_key() -> Seq<char> {
    "Message"@
}

/// What a reply means, given what it holds under the currency's code and
/// under `Message`. Each is nothing where the key is missing; the first
/// holds a number, the second a text, where the value is of that kind.
///
/// A number under the code is the price. Any other value under the code is
/// a failure to parse. With the code missing, a text under `Message` is the
/// service's complaint and is handed on word for word; anything else is a
/// failure to parse.
pub open spec fn price_outcome(
    quote: Option<Option<u64>>,
    message: Option<Option<Seq<char>>>,
) -> Result<Price, FailureView> {
    match quote {
        Some(Some(bits)) => Ok(Price { bits }),
        Some(None) => Err(no_price()),
        None => match message {
            Some(Some(text)) => Err(upstream(text)),
            _ => Err(unexplained()),
        },
    }
}

/// What is read of a value under a key of a decoded reply, and nothing
/// where the key is missing.
pub open spec fn field_at<T>(fields: Map<Seq<char>, T>, key: Seq<char>) -> Option<T> {
    if fields.contains_key(key) {
        Some(fields[key])
    } else {
        None
    }
}

/// What a decoded reply means for a currency.
pub open spec fn reply_outcome(fields: Fields, currency: Seq<char>) -> Result<Price, FailureView> {
    price_outcome(
        match field_at(fields, currency) {
            Some(read) => Some(read.0),
            None => None,
        },
        match field_at(fields, message_key()) {
            Some(read) => Some(read.1),
            None => None,
        },
    )
}

/// What the body of a reply means for a currency: a failure to parse where
/// it cannot be decoded, and otherwise what the decoded reply means.
pub open spec fn body_outcome(body: Seq<u8>, currency: Seq<char>) -> Result<Price, FailureView> {
    match decoded_fields(body) {
        Some(fields) => reply_outcome(fields, currency),
        None => Err(undecodable()),
    }
}

/// Whether a result is the given outcome.
pub open spec fn is_outcome(r: Result<Price, Failure>, outcome: Result<Price, FailureView>) -> bool {
    match r {
        Ok(price) => outcome == Ok::<Price, FailureView>(price),
        Err(failure) => outcome == Err::<Price, FailureView>(failure@),
    }
}

/// Decides what a reply means from what was found under the currency's code
/// and under `Message`.
pub fn settle(
    quote: Option<Option<u64>>,
    message: Option<Option<String>>,
) -> (r: Result<Price, Failure>)
    ensures
        is_outcome(r, price_outcome(quote, text_views(message))),
{
    match quote {
        Some(Some(bits)) => Ok(Price { bits }),
        Some(None) => Err(Failure::new(ErrorKind::Parse, "unable to fetch price")),
        None => match message {
            Some(Some(text)) => Err(Failure { kind: ErrorKind::Domain, message: text }),
            _ => Err(Failure::new(ErrorKind::Parse, "unexpected price response")),
        },
    }
}

/// Reads the price of one XMR in a currency from the body of the service's
/// reply.
pub fn quote(body: &[u8], currency: &str) -> (r: Result<Price, Failure>)
    ensures
        is_outcome(r, body_outcome(body@, currency@)),
{
    match decode_fields(body) {
        Err(_) => Err(Failure::new(ErrorKind::Parse, "error decoding response body")),
        Ok(fields) => {
            let found = number_at(&fields, currency);
            let message = if found.is_none() {
                text_at(&fields, "Message")
            } else {
                None
            };
            settle(found, message)
        },
    }
}

/// A reply that holds a number under the currency's code gives exactly that
/// number as the price, whatever else it holds.
pub proof fn lemma_number_is_the_price(fields: Fields, currency: Seq<char>, bits: u64)
    requires
        fields.contains_key(currency),
        fields[currency].0 == Some(bits),
    ensures
        reply_outcome(fields, currency) == Ok::<Price, FailureView>(Price { bits }),
{
}

/// A reply that lacks the currency's code and holds a text under `Message`
/// fails with that text, word for word.
pub proof fn lemma_complaint_is_handed_on(fields: Fields, currency: Seq<char>, text: Seq<char>)
    requires
        !fields.contains_key(currency),
        fields.contains_key(message_key()),
        fields[message_key()].1 == Some(text),
    ensures
        reply_outcome(fields, currency) == Err::<Price, FailureView>(upstream(text)),
{
}

/// A reply never passes for a price by accident: it gives a price only if it
/// holds a number under the currency's code.
pub proof fn lemma_price_needs_a_number(fields: Fields, currency: Seq<char>)
    requires
        reply_outcome(fields, currency) is Ok,
    ensures
        fields.contains_key(currency),
        fields[currency].0 == Some(reply_outcome(fields, currency)->Ok_0.bits),
{
}

/// The line that reports a conversion: the amount, the unit, the converted
/// amount and the currency's code, each given as text.
pub open spec fn conversion_text(
    amount: Seq<char>,
    converted: Seq<char>,
    currency: Seq<char>,
) -> Seq<char> {
    amount + " XMR = "@ + converted + " "@ + currency
}

/// Writes the line that reports a conversion.
pub fn conversion_line(amount: &str, converted: &str, currency: &str) -> (line: String)
    ensures
        line@ == conversion_text(amount@, converted@, currency@),
{
    let mut line = amount.to_owned();
    line.append(" XMR = ");
    line.append(converted);
    line.append(" ");
    line.append(currency);
    line
}

} // verus!
