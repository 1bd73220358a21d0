//! Trusted access to the `fake` crate's randomized value generators.
//!
//! Each function wraps one generator of `fake`. Nothing can be promised of a
//! random value beyond its type and, for strings, the length and character
//! class that the generator draws from.

use crate::ident::all_key_chars;
use fake::Fake;
use fake::Faker;
use vstd::prelude::*;

verus! {

/// Relies on fake's `Faker` generator for `u8`: a random value of the full
/// width.
#[verifier::external_body]
pub(crate) fn fake_u8() -> u8 {
    Faker.fake()
}

/// Relies on fake's `Faker` generator for `u16`: a random value of the full
/// width.
#[verifier::external_body]
pub(crate) fn fake_u16() -> u16 {
    Faker.fake()
}

/// Relies on fake's `Faker` generator for `u32`: a random value of the full
/// width.
#[verifier::external_body]
pub(crate) fn fake_u32() -> u32 {
    Faker.fake()
}

/// Relies on fake's `Faker` generator for `i8`: a random value of the full
/// width.
#[verifier::external_body]
pub(crate) fn fake_i8() -> i8 {
    Faker.fake()
}

/// Relies on fake's `Faker` generator for `i16`: a random value of the full
/// width.
#[verifier::external_body]
pub(crate) fn fake_i16() -> i16 {
    Faker.fake()
}

/// Relies on fake's `Faker` generator for `i32`: a random value of the full
/// width.
#[verifier::external_body]
pub(crate) fn fake_i32() -> i32 {
    Faker.fake()
}

/// Relies on fake's `Faker` generator for `String`: a string whose length is
/// drawn uniformly from `5..20` and whose characters are drawn from the
/// alphanumeric ASCII alphabet.
#[verifier::external_body]
pub(crate) fn fake_string() -> (r: String)
    ensures
        5 <= r@.len() < 20,
        all_key_chars(r@),
{
    Faker.fake()
}

/// Relies on fake's `String` generator for a given length: exactly `len`
/// characters drawn from the alphanumeric ASCII alphabet.
#[verifier::external_body]
pub(crate) fn fake_string_of_len(len: usize) -> (r: String)
    ensures
        r@.len() == len,
        all_key_chars(r@),
{
    len.fake()
}

} // verus!
