//! The calls this library makes into std items that vstd leaves unspecified
//! and into outside crates, each with the contract the library relies on.
use vstd::prelude::*;

verus! {

/// Relies on `String::push`: the character is appended at the end.
pub assume_specification[ String::push ](s: &mut String, ch: char)
    ensures
        final(s)@ == old(s)@.push(ch),
;

/// Relies on `uuid::Builder::from_random_bytes` and `Uuid`'s `Display`: a
/// version-4 id made from 16 random bytes, in the hyphenated form, 36
/// characters long.
#[verifier::external_body]
pub(crate) fn uuid_from_random(bytes: &Vec<u8>) -> (r: String)
    requires
        bytes@.len() == 16,
    ensures
        r@.len() == 36,
{
    let mut b = [0u8; 16];
    b.copy_from_slice(bytes);
    uuid::Builder::from_random_bytes(b).into_uuid().to_string()
}

/// Relies on `SystemTime::elapsed` of `UNIX_EPOCH`: the current time in
/// whole seconds since the epoch; `None` when the clock reads before it.
#[verifier::external_body]
pub(crate) fn now_secs() -> (r: Option<u64>) {
    match std::time::UNIX_EPOCH.elapsed() {
        Ok(d) => Some(d.as_secs()),
        Err(_) => None,
    }
}

/// Relies on `openssl::rand::rand_bytes`: fills a buffer of `n` bytes from
/// the cryptographic random source; `None` when the source reports an error.
/// The function asserts that the length fits a C `int`.
#[verifier::external_body]
pub(crate) fn random_bytes(n: usize) -> (r: Option<Vec<u8>>)
    requires
        n <= i32::MAX,
    ensures
        r matches Some(v) ==> v@.len() == n,
{
    let mut buf = vec![0u8; n];
    match openssl::rand::rand_bytes(&mut buf) {
        Ok(()) => Some(buf),
        Err(_) => None,
    }
}

/// The E.164 form of the phone number `number` read with the region hint
/// `country`, or `None` when it cannot be parsed or is not a valid number.
pub uninterp spec fn e164_of(country: Seq<char>, number: Seq<char>) -> Option<Seq<char>>;

/// Relies on `phonenumber::parse`, `phonenumber::is_valid` and the
/// `phonenumber::Formatter` in `Mode::E164`. The hint is read as a
/// `phonenumber::country::Id` when it names one; every `Id` has a territory
/// in the compiled-in metadata, so the hint's metadata lookup succeeds. Only a
/// valid number is formatted: its country code has metadata, so formatting
/// does not fail, and it writes a `+`, the country code and the national
/// number. The result depends on the two strings alone.
#[verifier::external_body]
pub(crate) fn parse_valid_e164(country: &str, number: &str) -> (r: Option<String>)
    ensures
        match r {
            Some(s) => e164_of(country@, number@) == Some(s@) && s@.len() >= 1 && s@[0] == '+',
            None => e164_of(country@, number@).is_none(),
        },
{
    match phonenumber::parse(country.parse().ok(), number) {
        Ok(n) if phonenumber::is_valid(&n) => Some(n.format().mode(phonenumber::Mode::E164).to_string()),
        _ => None,
    }
}

/// The string value stored under `key` in the JSON object that `text`
/// holds, or `None` when `text` is not JSON, not an object, or the field is
/// missing or not a string.
pub uninterp spec fn json_string_field(text: Seq<char>, key: Seq<char>) -> Option<Seq<char>>;

/// Relies on `serde_json::from_str` into a `serde_json::Value`, then
/// `Value::get` and `Value::as_str`: the result depends on the two strings alone.
#[verifier::external_body]
pub(crate) fn read_json_string_field(text: &str, key: &str) -> (r: Option<String>)
    ensures
        match r {
            Some(s) => json_string_field(text@, key@) == Some(s@),
            None => json_string_field(text@, key@).is_none(),
        },
{
    match serde_json::from_str::<serde_json::Value>(text) {
        Ok(v) => v.get(key).and_then(|f| f.as_str()).map(|s| s.to_string()),
        Err(_) => None,
    }
}

} // verus!
