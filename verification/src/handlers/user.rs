//! Accounts: registration and login.
use vstd::prelude::*;
use crate::anyhow_response_error::{
    AnyhowError, ErrorReport, anyhow_error, is_message_error, protocol_error_text,
};
use crate::handlers::{
    bcrypt_hash, bcrypt_prefix, bcrypt_verify, bcrypt_verify_result, is_bcrypt_hash_text,
    is_random_source_failure,
    is_v4_uuid_text, new_uuid_text, password_matches, verified_view,
};
use crate::handlers::push::{PushRequest, PushRequestModel, push_payload, send_push_notification, welcome_api_url};
use crate::json::{json_member, json_object, json_string, object1, object2, string_value};
use crate::reply::{BodyModel, Reply, ReplyModel, is_success_status, opt_view, plain_reply};

verus! {

/// What a registration or login request carries.
pub struct InputData {
    pub email: String,
    pub password: String,
    pub push_endpoint: String,
    pub push_p256dh: String,
    pub push_auth: String,
}

/// The push subscription stored for an account.
#[derive(Debug)]
pub struct SubscriptionRecord {
    pub push_endpoint: String,
    pub push_p256dh: String,
    pub push_auth: String,
}

/// An account as stored: its id, e-mail address, password hash and push
/// subscription.
#[derive(Debug)]
pub struct AccountRecord {
    pub user_id: String,
    pub email: String,
    pub password: String,
    pub push_endpoint: String,
    pub push_p256dh: String,
    pub push_auth: String,
}

/// The cost with which passwords are hashed.
pub const PASSWORD_HASH_COST: u32 = 12;

/// The name of the constraint that keeps e-mail addresses unique.
pub open spec fn email_constraint() -> Seq<char> {
    "accounts_email_key"@
}

/// Whether a database error stems from an e-mail address that is already taken.
pub open spec fn email_taken(constraint: Option<Seq<char>>) -> bool {
    constraint == Some(email_constraint())
}

/// Whether an optional string is the name of the e-mail constraint.
fn names_email_constraint(constraint: &Option<String>) -> (b: bool)
    ensures
        b == email_taken(opt_view(*constraint)),
{
    match constraint {
        Some(c) => {
            let key = String::from_str("accounts_email_key");
            *c == key
        },
        None => false,
    }
}

/// A fresh user id: a random version-4 UUID in its hyphenated form.
pub fn new_user_id() -> (id: String)
    ensures
        is_v4_uuid_text(id@),
{
    new_uuid_text()
}

/// The message of the error met when a password cannot be hashed, given
/// the hashing error's debug text.
pub open spec fn hashing_error_text(detail: Seq<char>) -> Seq<char> {
    protocol_error_text("Password hashing failed: "@ + detail)
}

/// The start of every stored password hash: bcrypt version `2b`, cost 12.
pub open spec fn stored_hash_prefix() -> Seq<char> {
    "$2b$12$"@
}

/// The outcome of hashing a password for storage, given what bcrypt
/// returned: the hash itself, or the protocol error that names bcrypt's
/// error by its debug text.
pub fn hashing_outcome(hashed: Result<String, String>) -> (r: Result<String, ErrorReport>)
    ensures
        hashed matches Ok(h) ==> (r matches Ok(k) && k@ == h@),
        hashed matches Err(d) ==> (r matches Err(e) && is_message_error(e@, hashing_error_text(d@))),
{
    match hashed {
        Ok(h) => Ok(h),
        Err(detail) => {
            let mut text = String::from_str("Password hashing failed: ");
            text.append(detail.as_str());
            Err(ErrorReport::protocol(text))
        },
    }
}

/// Hashes a password for storage with bcrypt at cost 12. A returned hash
/// is a 60-character `$2b$12$` bcrypt hash that the same password matches.
/// Hashing fails only when bcrypt cannot draw its random salt, whatever
/// the password; the failure is reported as a protocol error that names
/// that randomness error.
pub fn hash_password(password: &str) -> (r: Result<String, ErrorReport>)
    ensures
        r matches Ok(h) ==> is_bcrypt_hash_text(h@, PASSWORD_HASH_COST),
        r matches Ok(h) ==> h@.len() == 60 && h@.take(7) == stored_hash_prefix(),
        r matches Ok(h) ==> password_matches(password@, h@),
        r matches Err(e) ==> exists|detail: Seq<char>|
            is_random_source_failure(detail) && is_message_error(e@, hashing_error_text(detail)),
{
    proof {
        reveal_strlit("$2b$12$");
        assert(bcrypt_prefix(PASSWORD_HASH_COST) =~= stored_hash_prefix());
    }
    let hashed = bcrypt_hash(password, PASSWORD_HASH_COST);
    let ghost hashed_view = hash_outcome_view(&hashed);
    let r = hashing_outcome(hashed);
    proof {
        if let Err(d) = hashed_view {
            assert(is_random_source_failure(d));
            assert(r matches Err(e) && is_message_error(e@, hashing_error_text(d)));
        }
    }
    r
}

/// The view of what bcrypt's hashing returned.
pub open spec fn hash_outcome_view(r: &Result<String, String>) -> Result<Seq<char>, Seq<char>> {
    match r {
        Ok(h) => Ok(h@),
        Err(d) => Err(d@),
    }
}

/// Whether a row holds the given account: its id, the form's e-mail address
/// and push subscription, and the given password hash.
pub open spec fn row_holds(row: AccountRecord, user_id: Seq<char>, form: InputData, password_hash: Seq<char>) -> bool {
    &&& row.user_id@ == user_id
    &&& row.email@ == form.email@
    &&& row.password@ == password_hash
    &&& row.push_endpoint@ == form.push_endpoint@
    &&& row.push_p256dh@ == form.push_p256dh@
    &&& row.push_auth@ == form.push_auth@
}

/// The row that registration inserts for a new account: its id, the e-mail
/// address, the given password hash in the password column, and the push
/// subscription.
pub fn account_row(user_id: &str, form: &InputData, password_hash: String) -> (row: AccountRecord)
    ensures
        row_holds(row, user_id@, *form, password_hash@),
{
    AccountRecord {
        user_id: String::from_str(user_id),
        email: form.email.clone(),
        password: password_hash,
        push_endpoint: form.push_endpoint.clone(),
        push_p256dh: form.push_p256dh.clone(),
        push_auth: form.push_auth.clone(),
    }
}

/// Prepares the row that registration inserts: the password is hashed and
/// only its hash is stored, so the password column of the row is a
/// 60-character `$2b$12$` bcrypt hash that the form's password matches,
/// never the password itself. A failure to hash is reported as the hashing
/// error, and then no row is made.
pub fn prepare_account(user_id: &str, form: &InputData) -> (r: Result<AccountRecord, ErrorReport>)
    ensures
        r matches Ok(row) ==> row_holds(row, user_id@, *form, row.password@),
        r matches Ok(row) ==> is_bcrypt_hash_text(row.password@, PASSWORD_HASH_COST),
        r matches Ok(row) ==> row.password@.len() == 60 && row.password@.take(7) == stored_hash_prefix(),
        r matches Ok(row) ==> password_matches(form.password@, row.password@),
        r matches Err(e) ==> exists|detail: Seq<char>|
            is_random_source_failure(detail) && is_message_error(e@, hashing_error_text(detail)),
{
    match hash_password(form.password.as_str()) {
        Ok(h) => {
            let row = account_row(user_id, form, h);
            assert(row_holds(row, user_id@, *form, row.password@));
            Ok(row)
        },
        Err(e) => Err(e),
    }
}

/// How the insertion of a new account ended.
#[derive(Debug)]
pub enum InsertOutcome {
    /// The statement ran and affected this many rows.
    Applied { rows_affected: u64 },
    /// The statement failed; when the failure is a database error, the
    /// constraint that it names, if any.
    Failed { constraint: Option<String> },
}

/// What registration does after the insertion.
#[derive(Debug)]
pub enum RegisterStep {
    /// Read the inserted account back, then finish with [`finish_registration`].
    FetchRecord,
    /// Answer with this reply.
    Respond(Reply),
}

/// The reply to an e-mail address that is already taken.
pub open spec fn email_exists_reply() -> ReplyModel {
    plain_reply(409, BodyModel::Text("Email already exists"@))
}

/// Decides how registration goes on once the new account's row has been
/// inserted, or has failed to be: exactly one affected row leads to reading
/// the account back; any other count to `500`; a failure on the e-mail
/// constraint to `409 Conflict` with the text `Email already exists`; any
/// other failure to `500`.
pub fn register_account(insert: &InsertOutcome) -> (s: RegisterStep)
    ensures
        match insert {
            InsertOutcome::Applied { rows_affected } => if *rows_affected == 1 {
                s is FetchRecord
            } else {
                s matches RegisterStep::Respond(r) && r@ == plain_reply(500, BodyModel::Empty)
            },
            InsertOutcome::Failed { constraint } => s matches RegisterStep::Respond(r) && r@ == (
            if email_taken(opt_view(*constraint)) {
                email_exists_reply()
            } else {
                plain_reply(500, BodyModel::Empty)
            }),
        },
{
    match insert {
        InsertOutcome::Applied { rows_affected } => {
            if *rows_affected == 1 {
                RegisterStep::FetchRecord
            } else {
                RegisterStep::Respond(Reply::empty(500))
            }
        },
        InsertOutcome::Failed { constraint } => {
            if names_email_constraint(constraint) {
                RegisterStep::Respond(Reply::text(409, String::from_str("Email already exists")))
            } else {
                RegisterStep::Respond(Reply::empty(500))
            }
        },
    }
}

/// The reply that ends a registration whose account was inserted, once it
/// has been read back: `200 OK` that sets the `user_id` cookie to the new
/// id, or the error met in reading it.
pub fn finish_registration(user_id: &str, fetched: Result<(), ErrorReport>) -> (r: Result<Reply, ErrorReport>)
    ensures
        fetched is Ok ==> (r matches Ok(reply) && reply@ == (ReplyModel {
            status: 200,
            body: BodyModel::Empty,
            user_id_cookie: Some(user_id@),
        })),
        fetched matches Err(e) ==> (r matches Err(f) && f@ == e@),
{
    match fetched {
        Ok(()) => Ok(Reply::ok_with_user_cookie(String::from_str(user_id))),
        Err(e) => Err(e),
    }
}

/// What an account creation request leads to: the reply, and the welcome
/// notification to send before answering, if any.
#[derive(Debug)]
pub struct CreateOutcome {
    pub reply: Reply,
    pub welcome: Option<PushRequest>,
}

/// The body that answers an account creation whose e-mail address is taken:
/// `{"message":"Email already exists","redirect":"/login"}`.
pub open spec fn conflict_body() -> Seq<char> {
    json_object(
        seq![
            json_member("message"@, json_string("Email already exists"@)),
            json_member("redirect"@, json_string("/login"@)),
        ],
    )
}

/// The body that answers an account creation that failed for another
/// reason: `{"error":"Failed to execute query: <report>"}`.
pub open spec fn failure_body(report: Seq<char>) -> Seq<char> {
    json_object(seq![json_member("error"@, json_string("Failed to execute query: "@ + report))])
}

/// The welcome notification sent to a newly registered subscription.
pub open spec fn welcome_request(endpoint: Seq<char>, p256dh: Seq<char>, auth: Seq<char>) -> PushRequestModel {
    PushRequestModel {
        url: welcome_api_url(),
        body: push_payload(endpoint, p256dh, auth, "Welcome!"@, "Thank you for registering!"@),
    }
}

/// Decides how an account creation request is answered, given how its
/// registration ended. A registration reply is passed on, and when it is a
/// success a welcome notification goes to the new subscription first. A
/// registration error on the e-mail constraint is answered with
/// `409 Conflict` and a JSON body that points to `/login`; any other error
/// with `500` and a JSON body that holds the error's report.
pub fn handler_user_create(input: &InputData, registered: Result<Reply, ErrorReport>) -> (o: CreateOutcome)
    ensures
        registered matches Ok(reply) ==> {
            &&& o.reply@ == reply@
            &&& o.welcome is Some <==> is_success_status(reply.status)
            &&& o.welcome matches Some(w) ==> w@ == welcome_request(
                input.push_endpoint@,
                input.push_p256dh@,
                input.push_auth@,
            )
        },
        registered matches Err(e) ==> {
            &&& o.welcome is None
            &&& o.reply@ == if email_taken(e@.database_constraint) {
                plain_reply(409, BodyModel::Json(conflict_body()))
            } else {
                plain_reply(500, BodyModel::Json(failure_body(e@.report)))
            }
        },
{
    match registered {
        Ok(reply) => {
            let welcome = if reply.is_success() {
                Some(
                    send_push_notification(
                        input.push_endpoint.as_str(),
                        input.push_p256dh.as_str(),
                        input.push_auth.as_str(),
                        "Welcome!",
                        "Thank you for registering!",
                    ),
                )
            } else {
                None
            };
            CreateOutcome { reply, welcome }
        },
        Err(e) => {
            if names_email_constraint(&e.database_constraint) {
                proof {
                    reveal_strlit("message");
                    reveal_strlit("redirect");
                }
                let message = string_value("Email already exists");
                let redirect = string_value("/login");
                let body = object2("message", message.as_str(), "redirect", redirect.as_str());
                CreateOutcome { reply: Reply::json(409, body), welcome: None }
            } else {
                let mut text = String::from_str("Failed to execute query: ");
                text.append(e.report.as_str());
                let value = string_value(text.as_str());
                let body = object1("error", value.as_str());
                CreateOutcome { reply: Reply::json(500, body), welcome: None }
            }
        },
    }
}

/// The message of the error met when a stored hash cannot be read, given
/// the error's debug text.
pub open spec fn verification_error_text(detail: Seq<char>) -> Seq<char> {
    protocol_error_text("Password verification failed: "@ + detail)
}

/// The view of a handler's outcome: the reply, or the message of the error.
pub open spec fn outcome_view(r: Result<Reply, AnyhowError>) -> Result<ReplyModel, Seq<char>> {
    match r {
        Ok(reply) => Ok(reply@),
        Err(e) => Err(e@.message),
    }
}

/// Whether a handler's outcome, when it is an error, is one made from its
/// message alone.
pub open spec fn error_is_plain(r: Result<Reply, AnyhowError>) -> bool {
    r matches Err(e) ==> is_message_error(e@, e@.message)
}

/// How a login is answered, given the outcome of checking the password
/// against the stored hash: a match with `200 OK` that sets the `user_id`
/// cookie, a mismatch with `401 Unauthorized`, and a hash that cannot be
/// read with an error.
pub open spec fn login_outcome(verified: Result<bool, Seq<char>>, user_id: Seq<char>) -> Result<ReplyModel, Seq<char>> {
    match verified {
        Ok(true) => Ok(ReplyModel { status: 200, body: BodyModel::Empty, user_id_cookie: Some(user_id) }),
        Ok(false) => Ok(plain_reply(401, BodyModel::Empty)),
        Err(detail) => Err(verification_error_text(detail)),
    }
}

/// The error that a hash which cannot be read leads to.
pub fn verification_failure(detail: &str) -> (e: AnyhowError)
    ensures
        is_message_error(e@, verification_error_text(detail@)),
{
    let mut text = String::from_str("Password verification failed: ");
    text.append(detail);
    anyhow_error(ErrorReport::protocol(text))
}

/// Answers a login, given the outcome of checking the password and the
/// account's id.
pub fn login_reply(verified: Result<bool, String>, user_id: &str) -> (r: Result<Reply, AnyhowError>)
    ensures
        outcome_view(r) == login_outcome(verified_view(verified), user_id@),
        error_is_plain(r),
{
    match verified {
        Ok(true) => Ok(Reply::ok_with_user_cookie(String::from_str(user_id))),
        Ok(false) => Ok(Reply::empty(401)),
        Err(detail) => Err(verification_failure(detail.as_str())),
    }
}

/// Answers a login with the given password to the given stored account.
pub fn handler_user_login(password: &str, account: &AccountRecord) -> (r: Result<Reply, AnyhowError>)
    ensures
        outcome_view(r) == login_outcome(
            bcrypt_verify_result(password@, account.password@),
            account.user_id@,
        ),
        error_is_plain(r),
{
    let verified = bcrypt_verify(password, account.password.as_str());
    login_reply(verified, account.user_id.as_str())
}

/// A password that was hashed for storage logs in: when the stored hash is
/// one that the password matches, as every hash from [`hash_password`] is,
/// the login is answered with `200 OK` and the account's `user_id` cookie.
pub proof fn lemma_registered_password_logs_in(password: Seq<char>, stored_hash: Seq<char>, user_id: Seq<char>)
    requires
        password_matches(password, stored_hash),
    ensures
        login_outcome(bcrypt_verify_result(password, stored_hash), user_id) == Ok::<ReplyModel, Seq<char>>(
            ReplyModel { status: 200, body: BodyModel::Empty, user_id_cookie: Some(user_id) },
        ),
{
}

/// A login sets the `user_id` cookie only when the password matched, and
/// then with status 200; every other reply to a login sets no cookie.
pub proof fn lemma_login_cookie_only_on_match(verified: Result<bool, Seq<char>>, user_id: Seq<char>)
    ensures
        login_outcome(verified, user_id) matches Ok(r) ==> (r.user_id_cookie is Some <==> verified
            == Ok::<bool, Seq<char>>(true)),
        login_outcome(verified, user_id) matches Ok(r) ==> (r.user_id_cookie is Some ==> r.status
            == 200 && r.user_id_cookie == Some(user_id)),
{
}

} // verus!
