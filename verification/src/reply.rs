use vstd::prelude::*;

verus! {

/// The body of an HTTP reply.
#[derive(Debug)]
pub enum ReplyBody {
    /// No body at all (`finish()`).
    Empty,
    /// A body given as text, with no content type of its own.
    Text(String),
    /// A JSON document, sent as `application/json`.
    Json(String),
}

/// An HTTP reply: its status code, its body, and the `user_id` cookie
/// that it sets, if any.
#[derive(Debug)]
pub struct Reply {
    pub status: u16,
    pub body: ReplyBody,
    pub user_id_cookie: Option<String>,
}

/// The mathematical model of a reply body.
pub enum BodyModel {
    Empty,
    Text(Seq<char>),
    Json(Seq<char>),
}

/// The mathematical model of a reply.
pub struct ReplyModel {
    pub status: u16,
    pub body: BodyModel,
    pub user_id_cookie: Option<Seq<char>>,
}

impl View for ReplyBody {
    type V = BodyModel;

    open spec fn view(&self) -> BodyModel {
        match self {
            ReplyBody::Empty => BodyModel::Empty,
            ReplyBody::Text(t) => BodyModel::Text(t@),
            ReplyBody::Json(j) => BodyModel::Json(j@),
        }
    }
}

impl View for Reply {
    type V = ReplyModel;

    open spec fn view(&self) -> ReplyModel {
        ReplyModel {
            status: self.status,
            body: self.body@,
            user_id_cookie: opt_view(self.user_id_cookie),
        }
    }
}

/// The view of an optional string.
pub open spec fn opt_view(s: Option<String>) -> Option<Seq<char>> {
    match s {
        Some(t) => Some(t@),
        None => None,
    }
}

/// A reply with the given status and body and no cookie.
pub open spec fn plain_reply(status: u16, body: BodyModel) -> ReplyModel {
    ReplyModel { status, body, user_id_cookie: None }
}

/// Whether a status code is in the success class (200 to 299).
pub open spec fn is_success_status(status: u16) -> bool {
    200 <= status <= 299
}

impl Reply {
    /// A reply with the given status and no body.
    pub fn empty(status: u16) -> (r: Reply)
        ensures
            r@ == plain_reply(status, BodyModel::Empty),
    {
        Reply { status, body: ReplyBody::Empty, user_id_cookie: None }
    }

    /// A reply with the given status and a text body.
    pub fn text(status: u16, body: String) -> (r: Reply)
        ensures
            r@ == plain_reply(status, BodyModel::Text(body@)),
    {
        Reply { status, body: ReplyBody::Text(body), user_id_cookie: None }
    }

    /// A reply with the given status and a JSON body.
    pub fn json(status: u16, body: String) -> (r: Reply)
        ensures
            r@ == plain_reply(status, BodyModel::Json(body@)),
    {
        Reply { status, body: ReplyBody::Json(body), user_id_cookie: None }
    }

    /// An empty `200 OK` reply that sets the `user_id` cookie.
    pub fn ok_with_user_cookie(user_id: String) -> (r: Reply)
        ensures
            r@ == (ReplyModel { status: 200, body: BodyModel::Empty, user_id_cookie: Some(user_id@) }),
    {
        Reply { status: 200, body: ReplyBody::Empty, user_id_cookie: Some(user_id) }
    }

    /// Whether the status is in the success class, as `StatusCode::is_success` says.
    pub fn is_success(&self) -> (b: bool)
        ensures
            b == is_success_status(self.status),
    {
        200 <= self.status && self.status <= 299
    }
}

} // verus!
