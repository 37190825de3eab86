//! The request handlers, one module per route group.
pub mod device;
pub mod push;
pub mod test;
pub mod upload;
pub mod user;

use vstd::prelude::*;

verus! {

/// Whether a character is a lower-case hexadecimal digit.
pub open spec fn is_lower_hex(c: char) -> bool {
    ('0' <= c <= '9') || ('a' <= c <= 'f')
}

/// Whether a text is a hyphenated lower-case UUID, as `Uuid`'s `Display`
/// writes one: 36 characters, hyphens at positions 8, 13, 18 and 23, and
/// lower-case hexadecimal digits everywhere else.
pub open spec fn is_uuid_text(u: Seq<char>) -> bool {
    &&& u.len() == 36
    &&& forall|i: int|
        0 <= i < 36 ==> if i == 8 || i == 13 || i == 18 || i == 23 {
            #[trigger] u[i] == '-'
        } else {
            is_lower_hex(u[i])
        }
}

/// Whether a text is a hyphenated version-4 UUID: a UUID text whose
/// version digit (position 14) is `4` and whose variant digit (position 19)
/// is one of `8`, `9`, `a` and `b`.
pub open spec fn is_v4_uuid_text(u: Seq<char>) -> bool {
    &&& is_uuid_text(u)
    &&& u[14] == '4'
    &&& (u[19] == '8' || u[19] == '9' || u[19] == 'a' || u[19] == 'b')
}

/// Calls `uuid::Uuid::new_v4()` and formats it with `to_string()`. The value
/// is random; the contract claims only what the crate's source shows of
/// every value: `Display` writes the hyphenated lower-case form, and
/// `new_v4` sets the version bits to 4 and the variant bits to `10`. The
/// call panics when the system's random source fails, which no argument
/// can rule out.
#[verifier::external_body]
pub(crate) fn new_uuid_text() -> (u: String)
    ensures
        is_v4_uuid_text(u@),
{
    uuid::Uuid::new_v4().to_string()
}

/// What `bcrypt::verify(password, hash)` returns: whether the password
/// matches the hash, or the debug text of the error met in reading the hash.
pub uninterp spec fn bcrypt_verify_result(password: Seq<char>, hash: Seq<char>) -> Result<bool, Seq<char>>;

/// The view of a verification outcome.
pub open spec fn verified_view(r: Result<bool, String>) -> Result<bool, Seq<char>> {
    match r {
        Ok(b) => Ok(b),
        Err(d) => Err(d@),
    }
}

/// Whether a password matches a stored bcrypt hash.
pub open spec fn password_matches(password: Seq<char>, hash: Seq<char>) -> bool {
    bcrypt_verify_result(password, hash) == Ok::<bool, Seq<char>>(true)
}

/// Calls `bcrypt::verify`, which parses the hash, hashes the password again
/// with the salt and cost that it holds, and compares; an error is turned
/// into its debug text. The result depends on the two arguments alone, and
/// the contract names it `bcrypt_verify_result`.
#[verifier::external_body]
pub(crate) fn bcrypt_verify(password: &str, hash: &str) -> (r: Result<bool, String>)
    ensures
        verified_view(r) == bcrypt_verify_result(password@, hash@),
{
    match bcrypt::verify(password, hash) {
        Ok(b) => Ok(b),
        Err(e) => Err(format!("{:?}", e)),
    }
}

/// The decimal digit for a value from 0 to 9.
pub open spec fn decimal_digit(n: int) -> char {
    (n + 48) as char
}

/// Whether a character belongs to the base-64 alphabet that bcrypt uses:
/// `./A-Za-z0-9`.
pub open spec fn is_bcrypt_base64(c: char) -> bool {
    c == '.' || c == '/' || ('A' <= c <= 'Z') || ('a' <= c <= 'z') || ('0' <= c <= '9')
}

/// The first seven characters of a `$2b$` bcrypt hash with the given cost:
/// `$2b$`, the cost as two decimal digits, and `$`.
pub open spec fn bcrypt_prefix(cost: u32) -> Seq<char> {
    seq!['$', '2', 'b', '$', decimal_digit(cost as int / 10), decimal_digit(cost as int % 10), '$']
}

/// Whether a text has the form of a `$2b$` bcrypt hash with the given cost:
/// 60 characters, the prefix for that cost, then 53 characters of bcrypt's
/// base-64 alphabet (22 for the salt, 31 for the hash).
pub open spec fn is_bcrypt_hash_text(h: Seq<char>, cost: u32) -> bool {
    &&& h.len() == 60
    &&& h.take(7) == bcrypt_prefix(cost)
    &&& forall|i: int| 7 <= i < 60 ==> is_bcrypt_base64(#[trigger] h[i])
}

/// Whether a debug text is that of bcrypt's error for a failure of the
/// system's random source: `Rand(` around the debug text of a
/// `getrandom::Error`, which is a struct named `Error` with at least one field.
pub open spec fn is_random_source_failure(d: Seq<char>) -> bool {
    &&& d.len() >= 16
    &&& d.take(13) == "Rand(Error { "@
    &&& d.skip(d.len() - 3) == " })"@
}

/// Calls `bcrypt::hash(password, cost)`, which draws a random salt; an
/// error is turned into its debug text. The contract claims what the
/// crate's source shows of every outcome: a cost outside 4 to 31 is
/// refused; a returned hash is written as `${version}${cost:02}${salt}{hash}`
/// with version `2b` and salt and hash in bcrypt's base-64 alphabet (22 and
/// 31 characters); it is one that `bcrypt::verify` accepts for the same
/// password, since `verify` recomputes it from the salt and cost that the
/// hash holds; and with an allowed cost the only error is
/// `BcryptError::Rand`, met when the salt cannot be drawn, whatever the
/// password (bcrypt truncates long passwords rather than refusing them).
/// Which salt is drawn, and whether drawing it fails, is left unsaid.
#[verifier::external_body]
pub(crate) fn bcrypt_hash(password: &str, cost: u32) -> (r: Result<String, String>)
    ensures
        !(4 <= cost <= 31) ==> r is Err,
        4 <= cost <= 31 ==> (r matches Err(d) ==> is_random_source_failure(d@)),
        r matches Ok(h) ==> is_bcrypt_hash_text(h@, cost),
        r matches Ok(h) ==> password_matches(password@, h@),
{
    match bcrypt::hash(password, cost) {
        Ok(h) => Ok(h),
        Err(e) => Err(format!("{:?}", e)),
    }
}

} // verus!
