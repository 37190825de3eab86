//! The test route, which echoes its input back inside a JSON message.
use vstd::prelude::*;
use crate::json::{
    json_escaped, json_member, json_object, json_string, json_unescaped, lemma_json_string_injective,
    lemma_json_unescape_escaped, lemma_object_with_one_member,
    lemma_object_with_one_member_injective, object1, string_value,
};
use crate::reply::{BodyModel, Reply, plain_reply};

verus! {

/// What a test request carries.
pub struct InputData {
    pub test: String,
}

/// The body that answers a test request: `{"message":"Test: <test>"}`.
pub open spec fn test_body(test: Seq<char>) -> Seq<char> {
    json_object(seq![json_member("message"@, json_string("Test: "@ + test))])
}

/// Answers a test request with `200 OK` and the JSON text
/// `{"message":"Test: <test>"}` as its body.
pub fn handler_test(input: &InputData) -> (r: Reply)
    ensures
        r@ == plain_reply(200, BodyModel::Text(test_body(input.test@))),
{
    let mut message = String::from_str("Test: ");
    message.append(input.test.as_str());
    let value = string_value(message.as_str());
    let body = object1("message", value.as_str());
    Reply::text(200, body)
}

/// The test route echoes its whole input: the body is a brace, the quoted
/// key `message`, a colon, the JSON string of `Test: ` followed by every
/// character of the input, and a closing brace; and reading that string
/// back gives `Test: ` and the input again.
pub proof fn lemma_test_body_echoes_input(test: Seq<char>)
    ensures
        test_body(test) == "{"@ + json_string("message"@) + ":"@ + json_string("Test: "@ + test) + "}"@,
        json_unescaped(json_escaped("Test: "@ + test)) == "Test: "@ + test,
{
    lemma_object_with_one_member("message"@, json_string("Test: "@ + test));
    lemma_json_unescape_escaped("Test: "@ + test);
}

/// Different inputs to the test route are answered with different bodies:
/// nothing of the input is dropped.
pub proof fn lemma_test_body_injective(t1: Seq<char>, t2: Seq<char>)
    requires
        test_body(t1) == test_body(t2),
    ensures
        t1 == t2,
{
    lemma_object_with_one_member_injective(
        "message"@,
        json_string("Test: "@ + t1),
        json_string("Test: "@ + t2),
    );
    lemma_json_string_injective("Test: "@ + t1, "Test: "@ + t2);
    reveal_strlit("Test: ");
    assert(("Test: "@ + t1).subrange(6, 6 + t1.len() as int) =~= t1);
    assert(("Test: "@ + t2).subrange(6, 6 + t2.len() as int) =~= t2);
}

} // verus!
