//! Login from a device, which answers with the account's id as JSON.
use vstd::prelude::*;
use crate::anyhow_response_error::AnyhowError;
use crate::handlers::{bcrypt_verify, bcrypt_verify_result, verified_view};
use crate::handlers::user::{
    AccountRecord, error_is_plain, outcome_view, verification_error_text, verification_failure,
};
use crate::json::{
    json_escaped, json_member, json_object, json_string, json_unescaped, lemma_json_string_injective,
    lemma_json_unescape_escaped, lemma_object_with_one_member,
    lemma_object_with_one_member_injective, object1, string_value,
};
use crate::reply::{BodyModel, Reply, ReplyModel, plain_reply};

verus! {

/// What a device login request carries.
pub struct InputData {
    pub email: String,
    pub password: String,
}

/// The body that answers a device login: `{"user_id":"<id>"}`.
pub open spec fn device_login_body(user_id: Seq<char>) -> Seq<char> {
    json_object(seq![json_member("user_id"@, json_string(user_id))])
}

/// How a device login is answered, given the outcome of checking the
/// password against the stored hash: a match with `200 OK` and the
/// account's id as JSON, a mismatch with `401 Unauthorized`, and a hash
/// that cannot be read with an error.
pub open spec fn device_login_outcome(verified: Result<bool, Seq<char>>, user_id: Seq<char>) -> Result<ReplyModel, Seq<char>> {
    match verified {
        Ok(true) => Ok(plain_reply(200, BodyModel::Json(device_login_body(user_id)))),
        Ok(false) => Ok(plain_reply(401, BodyModel::Empty)),
        Err(detail) => Err(verification_error_text(detail)),
    }
}

/// Answers a device login, given the outcome of checking the password and
/// the account's id.
pub fn device_login_reply(verified: Result<bool, String>, user_id: &str) -> (r: Result<Reply, AnyhowError>)
    ensures
        outcome_view(r) == device_login_outcome(verified_view(verified), user_id@),
        error_is_plain(r),
{
    match verified {
        Ok(true) => {
            let value = string_value(user_id);
            Ok(Reply::json(200, object1("user_id", value.as_str())))
        },
        Ok(false) => Ok(Reply::empty(401)),
        Err(detail) => Err(verification_failure(detail.as_str())),
    }
}

/// Answers a device login with the given password to the given stored account.
pub fn handler_user_loging_device(password: &str, account: &AccountRecord) -> (r: Result<Reply, AnyhowError>)
    ensures
        outcome_view(r) == device_login_outcome(
            bcrypt_verify_result(password@, account.password@),
            account.user_id@,
        ),
        error_is_plain(r),
{
    let verified = bcrypt_verify(password, account.password.as_str());
    device_login_reply(verified, account.user_id.as_str())
}

/// A password that was hashed for storage logs in from a device too: when
/// the stored hash is one that the password matches, the device login is
/// answered with `200 OK` and the account's id as JSON.
pub proof fn lemma_registered_password_logs_in_device(
    password: Seq<char>,
    stored_hash: Seq<char>,
    user_id: Seq<char>,
)
    requires
        crate::handlers::password_matches(password, stored_hash),
    ensures
        device_login_outcome(bcrypt_verify_result(password, stored_hash), user_id) == Ok::<ReplyModel, Seq<char>>(
            plain_reply(200, BodyModel::Json(device_login_body(user_id))),
        ),
{
}

/// A device login answers with the whole account id: the body is a brace,
/// the quoted key `user_id`, a colon, the JSON string of every character of
/// the id, and a closing brace; and reading that string back gives the id.
pub proof fn lemma_device_body_holds_whole_id(user_id: Seq<char>)
    ensures
        device_login_body(user_id) == "{"@ + json_string("user_id"@) + ":"@ + json_string(user_id) + "}"@,
        json_unescaped(json_escaped(user_id)) == user_id,
{
    lemma_object_with_one_member("user_id"@, json_string(user_id));
    lemma_json_unescape_escaped(user_id);
}

/// Different account ids are answered with different device-login bodies,
/// whatever their length.
pub proof fn lemma_device_body_injective(u1: Seq<char>, u2: Seq<char>)
    requires
        device_login_body(u1) == device_login_body(u2),
    ensures
        u1 == u2,
{
    lemma_object_with_one_member_injective("user_id"@, json_string(u1), json_string(u2));
    lemma_json_string_injective(u1, u2);
}

} // verus!
