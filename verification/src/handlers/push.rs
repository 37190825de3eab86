//! Push notifications: the request sent to the notification service, and
//! the reply once it has answered.
use vstd::prelude::*;
use crate::handlers::user::SubscriptionRecord;
use crate::json::{json_member, json_object, json_string, object2, object3, string_value};
use crate::reply::{BodyModel, Reply, plain_reply};

verus! {

/// What a push request carries: the recipient's e-mail address, and the
/// title and message of the notification.
pub struct InputData {
    pub email: String,
    pub title: String,
    pub message: String,
}

/// A request to the notification service: where it is posted, and its JSON body.
#[derive(Debug)]
pub struct PushRequest {
    pub url: String,
    pub body: String,
}

/// The mathematical model of a [`PushRequest`].
pub struct PushRequestModel {
    pub url: Seq<char>,
    pub body: Seq<char>,
}

impl View for PushRequest {
    type V = PushRequestModel;

    open spec fn view(&self) -> PushRequestModel {
        PushRequestModel { url: self.url@, body: self.body@ }
    }
}

/// The base address of the notification service when none is configured.
pub open spec fn default_service_base() -> Seq<char> {
    "http://localhost:3000"@
}

/// The address to which notifications are posted: the configured base
/// address, or the default one, followed by `/api/web-push/send`.
pub open spec fn push_api_url(configured: Option<Seq<char>>) -> Seq<char> {
    let base = match configured {
        Some(b) => b,
        None => default_service_base(),
    };
    base + "/api/web-push/send"@
}

/// The address to which the welcome notification is posted.
pub open spec fn welcome_api_url() -> Seq<char> {
    "https://localhost:3000/api/web-push/send"@
}

/// The JSON of a push subscription:
/// `{"endpoint":..,"keys":{"auth":..,"p256dh":..}}`.
pub open spec fn subscription_json(endpoint: Seq<char>, p256dh: Seq<char>, auth: Seq<char>) -> Seq<char> {
    json_object(
        seq![
            json_member("endpoint"@, json_string(endpoint)),
            json_member(
                "keys"@,
                json_object(
                    seq![json_member("auth"@, json_string(auth)), json_member("p256dh"@, json_string(p256dh))],
                ),
            ),
        ],
    )
}

/// The JSON body of a notification request:
/// `{"message":..,"subscription":..,"title":..}`.
pub open spec fn push_payload(
    endpoint: Seq<char>,
    p256dh: Seq<char>,
    auth: Seq<char>,
    title: Seq<char>,
    message: Seq<char>,
) -> Seq<char> {
    json_object(
        seq![
            json_member("message"@, json_string(message)),
            json_member("subscription"@, subscription_json(endpoint, p256dh, auth)),
            json_member("title"@, json_string(title)),
        ],
    )
}

/// The JSON body of a notification request to the given subscription.
pub fn notification_payload(
    endpoint: &str,
    p256dh: &str,
    auth: &str,
    title: &str,
    message: &str,
) -> (r: String)
    ensures
        r@ == push_payload(endpoint@, p256dh@, auth@, title@, message@),
{
    proof {
        reveal_strlit("auth");
        reveal_strlit("p256dh");
        reveal_strlit("endpoint");
        reveal_strlit("keys");
        reveal_strlit("message");
        reveal_strlit("subscription");
        reveal_strlit("title");
    }
    let auth_value = string_value(auth);
    let p256dh_value = string_value(p256dh);
    let keys = object2("auth", auth_value.as_str(), "p256dh", p256dh_value.as_str());
    let endpoint_value = string_value(endpoint);
    let subscription = object2("endpoint", endpoint_value.as_str(), "keys", keys.as_str());
    let message_value = string_value(message);
    let title_value = string_value(title);
    object3(
        "message",
        message_value.as_str(),
        "subscription",
        subscription.as_str(),
        "title",
        title_value.as_str(),
    )
}

/// The address to which notifications are posted, given the configured
/// base address if there is one.
pub fn notification_url(configured: Option<&str>) -> (r: String)
    ensures
        configured matches Some(b) ==> r@ == b@ + "/api/web-push/send"@,
        configured is None ==> r@ == "http://localhost:3000"@ + "/api/web-push/send"@,
        r@ == push_api_url(
            match configured {
                Some(b) => Some(b@),
                None => None,
            },
        ),
{
    let mut r = match configured {
        Some(base) => String::from_str(base),
        None => String::from_str("http://localhost:3000"),
    };
    r.append("/api/web-push/send");
    r
}

/// The request that a push request leads to: the notification in `input`,
/// sent to the subscription stored for the recipient, at the configured
/// service address or the default one.
pub fn handler_push(configured: Option<&str>, record: &SubscriptionRecord, input: &InputData) -> (r: PushRequest)
    ensures
        configured matches Some(b) ==> r@.url == b@ + "/api/web-push/send"@,
        configured is None ==> r@.url == "http://localhost:3000"@ + "/api/web-push/send"@,
        r@ == (PushRequestModel {
            url: push_api_url(
                match configured {
                    Some(b) => Some(b@),
                    None => None,
                },
            ),
            body: push_payload(
                record.push_endpoint@,
                record.push_p256dh@,
                record.push_auth@,
                input.title@,
                input.message@,
            ),
        }),
{
    let url = notification_url(configured);
    let body = notification_payload(
        record.push_endpoint.as_str(),
        record.push_p256dh.as_str(),
        record.push_auth.as_str(),
        input.title.as_str(),
        input.message.as_str(),
    );
    PushRequest { url, body }
}

/// The reply to a push request once the notification service has answered
/// with the given status: `200 OK` when it answered 200, and
/// `500 Internal Server Error` otherwise, both without a body.
pub fn push_reply(service_status: u16) -> (r: Reply)
    ensures
        r@ == plain_reply(if service_status == 200 { 200 } else { 500 }, BodyModel::Empty),
{
    if service_status == 200 {
        Reply::empty(200)
    } else {
        Reply::empty(500)
    }
}

/// The request that posts a notification with the given title and message
/// to the given subscription, at the fixed address of the welcome service.
pub fn send_push_notification(
    endpoint: &str,
    p256dh: &str,
    auth: &str,
    title: &str,
    message: &str,
) -> (r: PushRequest)
    ensures
        r@ == (PushRequestModel {
            url: welcome_api_url(),
            body: push_payload(endpoint@, p256dh@, auth@, title@, message@),
        }),
{
    let url = String::from_str("https://localhost:3000/api/web-push/send");
    let body = notification_payload(endpoint, p256dh, auth, title, message);
    PushRequest { url, body }
}

/// Notifications go to the configured service whatever its address: the
/// address is the configured base followed by `/api/web-push/send`, and the
/// default base is used only when none is configured.
pub proof fn lemma_push_url_keeps_configured_base(base: Seq<char>)
    ensures
        push_api_url(Some(base)) == base + "/api/web-push/send"@,
        push_api_url(None) == "http://localhost:3000"@ + "/api/web-push/send"@,
{
}

/// Different configured bases lead to different notification addresses.
pub proof fn lemma_push_url_injective(b1: Seq<char>, b2: Seq<char>)
    requires
        push_api_url(Some(b1)) == push_api_url(Some(b2)),
    ensures
        b1 == b2,
{
    lemma_push_url_keeps_configured_base(b1);
    lemma_push_url_keeps_configured_base(b2);
    let u1 = b1 + "/api/web-push/send"@;
    let u2 = b2 + "/api/web-push/send"@;
    assert(u1.len() == u2.len());
    assert(u1.subrange(0, b1.len() as int) =~= b1);
    assert(u2.subrange(0, b2.len() as int) =~= b2);
}

} // verus!
