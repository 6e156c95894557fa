//! What a request must meet before the store takes it.
use crate::error::{AppError, ErrorKind};
use crate::models::{CreateUserRequest, CreateUserRequestView, UpdatePreferencesRequest};
use crate::text::chars_of;
use vstd::prelude::*;

verus! {

/// The longest city name that the store takes, in characters.
pub const MAX_CITY_LENGTH: usize = 100;

/// Whether `validator::validate_email` accepts a text as an email address:
/// the address rule of the HTML standard, with the length limits of RFC 5321
/// on both sides of the `@`.
pub uninterp spec fn valid_email(address: Seq<char>) -> bool;

/// Asks `validator::validate_email` whether a text is an email address.
#[verifier::external_body]
fn check_email(address: &str) -> (ok: bool)
    ensures
        ok == valid_email(address@),
{
    validator::validate_email(address)
}

/// A letter of the basic Latin alphabet, in either case.
pub open spec fn is_letter(c: char) -> bool {
    ('a' <= c && c <= 'z') || ('A' <= c && c <= 'Z')
}

/// A capital letter of the basic Latin alphabet.
pub open spec fn is_capital(c: char) -> bool {
    'A' <= c && c <= 'Z'
}

/// The capital form of a basic Latin letter; any other character as it is.
pub open spec fn capital_of(c: char) -> char {
    if 'a' <= c && c <= 'z' {
        ((c as u8) - 32) as char
    } else {
        c
    }
}

/// A country code as a client may send it: two basic Latin letters.
pub open spec fn valid_country(country: Seq<char>) -> bool {
    country.len() == 2 && is_letter(country[0]) && is_letter(country[1])
}

/// A country code as the store holds it: two capital letters.
pub open spec fn stored_country(country: Seq<char>) -> bool {
    country.len() == 2 && is_capital(country[0]) && is_capital(country[1])
}

/// The form in which the store holds a country code.
pub open spec fn normalized_country(country: Seq<char>) -> Seq<char> {
    country.map_values(|c: char| capital_of(c))
}

/// A city name that the store takes: from one to a hundred characters.
pub open spec fn valid_city(city: Seq<char>) -> bool {
    1 <= city.len() <= MAX_CITY_LENGTH
}

/// The first rule that a registration request breaks, as the message of the
/// validation error; `None` where the request is valid.
pub open spec fn registration_fault(req: CreateUserRequestView) -> Option<Seq<char>> {
    if !valid_email(req.email) {
        Some("email: not a valid email address"@)
    } else if !valid_city(req.city) {
        Some("city: must be 1 to 100 characters long"@)
    } else if !valid_country(req.country) {
        Some("country: must be a two-letter country code"@)
    } else {
        None
    }
}

/// Bounds are in order where both are set: the upper is not below the lower.
pub open spec fn bounds_in_order(min_temp: Option<i32>, max_temp: Option<i32>) -> bool {
    min_temp is Some && max_temp is Some ==> min_temp.unwrap() <= max_temp.unwrap()
}

/// The capital form of a basic Latin letter.
pub fn to_capital(c: char) -> (r: char)
    ensures
        r == capital_of(c),
{
    if 'a' <= c && c <= 'z' {
        ((c as u8) - 32) as char
    } else {
        c
    }
}

/// Writes a country code in the form in which the store holds it.
pub fn normalize_country(country: &str) -> (r: String)
    ensures
        r@ == normalized_country(country@),
        valid_country(country@) ==> stored_country(r@),
{
    let chars = chars_of(country);
    let mut r = String::new();
    let mut i: usize = 0;
    while i < chars.len()
        invariant
            i <= chars.len(),
            chars@ == country@,
            r@ == normalized_country(country@.take(i as int)),
        decreases chars.len() - i,
    {
        r.push(to_capital(chars[i]));
        assert(normalized_country(country@.take(i + 1)) =~= normalized_country(
            country@.take(i as int),
        ).push(capital_of(country@[i as int])));
        i += 1;
    }
    assert(country@.take(chars.len() as int) == country@);
    r
}

impl CreateUserRequest {
    /// Checks the request: the email is an email address, the city has from
    /// one to a hundred characters, the country is two letters. The error is
    /// a `Validation` error that names the first rule that is broken.
    pub fn validate(&self) -> (r: Result<(), AppError>)
        ensures
            match r {
                Ok(_) => registration_fault(self@) is None,
                Err(e) => e@.0 == ErrorKind::Validation && registration_fault(self@) == Some(
                    e@.1,
                ),
            },
    {
        if !check_email(self.email.as_str()) {
            return Err(AppError::Validation(String::from_str("email: not a valid email address")));
        }
        let city = chars_of(self.city.as_str());
        if city.len() < 1 || city.len() > MAX_CITY_LENGTH {
            return Err(
                AppError::Validation(String::from_str("city: must be 1 to 100 characters long")),
            );
        }
        let country = chars_of(self.country.as_str());
        if country.len() != 2 || !is_basic_letter(country[0]) || !is_basic_letter(country[1]) {
            return Err(
                AppError::Validation(
                    String::from_str("country: must be a two-letter country code"),
                ),
            );
        }
        Ok(())
    }
}

/// Whether a character is a basic Latin letter.
fn is_basic_letter(c: char) -> (r: bool)
    ensures
        r == is_letter(c),
{
    ('a' <= c && c <= 'z') || ('A' <= c && c <= 'Z')
}

impl UpdatePreferencesRequest {
    /// Checks the update: where it sets both bounds, the upper is not below
    /// the lower.
    pub fn validate(&self) -> (r: Result<(), AppError>)
        ensures
            match r {
                Ok(_) => bounds_in_order(self.min_temp, self.max_temp),
                Err(e) => !bounds_in_order(self.min_temp, self.max_temp) && e@ == (
                    ErrorKind::Validation,
                    "max_temp: must not be below min_temp"@,
                ),
            },
    {
        match (self.min_temp, self.max_temp) {
            (Some(low), Some(high)) => {
                if high < low {
                    return Err(
                        AppError::Validation(
                            String::from_str("max_temp: must not be below min_temp"),
                        ),
                    );
                }
                Ok(())
            },
            _ => Ok(()),
        }
    }
}

} // verus!
