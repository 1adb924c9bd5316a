//! JSON-RPC 2.0 responses of the MCP protocol.
use vstd::prelude::*;

use crate::json::{
    entries_view, json_int, json_null, json_object, json_str, json_string, member, obj, Json,
    JsonValue,
};

verus! {

/// The error member of a JSON-RPC response.
#[derive(Debug, PartialEq)]
pub struct JsonRpcError {
    pub code: i32,
    pub message: String,
}

/// A JSON-RPC 2.0 response: a result or an error, with the request's id.
#[derive(Debug, PartialEq)]
pub struct JsonRpcResponse {
    pub jsonrpc: String,
    pub result: Option<JsonValue>,
    pub error: Option<JsonRpcError>,
    pub id: Option<JsonValue>,
}

/// The mathematical content of a response: protocol version, result, error (code and
/// message) and id.
pub struct Reply {
    pub jsonrpc: Seq<char>,
    pub result: Option<Json>,
    pub error: Option<(int, Seq<char>)>,
    pub id: Option<Json>,
}

pub open spec fn opt_json(v: Option<JsonValue>) -> Option<Json> {
    match v {
        Some(j) => Some(j@),
        None => None,
    }
}

impl View for JsonRpcResponse {
    type V = Reply;

    open spec fn view(&self) -> Reply {
        Reply {
            jsonrpc: self.jsonrpc@,
            result: opt_json(self.result),
            error: match self.error {
                Some(e) => Some((e.code as int, e.message@)),
                None => None,
            },
            id: opt_json(self.id),
        }
    }
}

/// A successful reply.
pub open spec fn ok_reply(id: Option<Json>, result: Json) -> Reply {
    Reply { jsonrpc: "2.0"@, result: Some(result), error: None, id }
}

/// A failed reply.
pub open spec fn err_reply(id: Option<Json>, code: int, message: Seq<char>) -> Reply {
    Reply { jsonrpc: "2.0"@, result: None, error: Some((code, message)), id }
}

/// The JSON text form of a reply: `jsonrpc`, then `result` or `error` when present,
/// then `id` (`null` when the request had none).
pub open spec fn reply_json(r: Reply) -> Json {
    let head = seq![("jsonrpc"@, Json::Str(r.jsonrpc))];
    let with_result = match r.result {
        Some(v) => head.push(("result"@, v)),
        None => head,
    };
    let with_error = match r.error {
        Some((code, message)) => with_result.push(
            (
                "error"@,
                obj(seq![("code"@, Json::Int(code)), ("message"@, Json::Str(message))]),
            ),
        ),
        None => with_result,
    };
    obj(
        with_error.push(
            (
                "id"@,
                match r.id {
                    Some(v) => v,
                    None => Json::Null,
                },
            ),
        ),
    )
}

impl JsonRpcResponse {
    /// A successful response carrying `result`.
    pub fn success(id: Option<JsonValue>, result: JsonValue) -> (r: JsonRpcResponse)
        ensures
            r.jsonrpc@ == "2.0"@,
            r.result == Some(result),
            r.error is None,
            r.id == id,
            r@ == ok_reply(opt_json(id), result@),
    {
        JsonRpcResponse { jsonrpc: String::from_str("2.0"), result: Some(result), error: None, id }
    }

    /// A failed response carrying `code` and `message`.
    pub fn error(id: Option<JsonValue>, code: i32, message: String) -> (r: JsonRpcResponse)
        ensures
            r.jsonrpc@ == "2.0"@,
            r.result is None,
            r.error matches Some(e) && e.code == code && e.message == message,
            r.id == id,
            r@ == err_reply(opt_json(id), code as int, message@),
    {
        JsonRpcResponse {
            jsonrpc: String::from_str("2.0"),
            result: None,
            error: Some(JsonRpcError { code, message }),
            id,
        }
    }

    /// The JSON form of this response.
    pub fn to_json(&self) -> (r: JsonValue)
        ensures
            r@ == reply_json(self@),
    {
        let mut v: Vec<(String, JsonValue)> = Vec::new();
        v.push(member("jsonrpc", json_string(self.jsonrpc.clone())));
        if let Some(res) = &self.result {
            v.push(member("result", res.duplicate()));
        }
        if let Some(e) = &self.error {
            let mut ev: Vec<(String, JsonValue)> = Vec::new();
            ev.push(member("code", json_int(e.code as i64)));
            ev.push(member("message", json_string(e.message.clone())));
            let err = json_object(ev);
            assert(entries_view(ev@) =~= seq![
                ("code"@, Json::Int(e.code as int)),
                ("message"@, Json::Str(e.message@)),
            ]);
            v.push(member("error", err));
        }
        match &self.id {
            Some(id) => v.push(member("id", id.duplicate())),
            None => v.push(member("id", json_null())),
        }
        let r = json_object(v);
        let ghost r1 = self@;
        let ghost head = seq![("jsonrpc"@, Json::Str(r1.jsonrpc))];
        let ghost with_result = match r1.result {
            Some(x) => head.push(("result"@, x)),
            None => head,
        };
        let ghost with_error = match r1.error {
            Some((code, message)) => with_result.push(
                (
                    "error"@,
                    obj(seq![("code"@, Json::Int(code)), ("message"@, Json::Str(message))]),
                ),
            ),
            None => with_result,
        };
        assert(entries_view(v@) =~= with_error.push(
            (
                "id"@,
                match r1.id {
                    Some(x) => x,
                    None => Json::Null,
                },
            ),
        ));
        r
    }
}

/// Every response states protocol version 2.0, keeps the request's id, and carries
/// exactly one of a result and an error.
pub proof fn lemma_replies_are_well_formed(id: Option<Json>, result: Json, code: int, message: Seq<char>)
    ensures
        ok_reply(id, result).jsonrpc == "2.0"@ && ok_reply(id, result).id == id,
        ok_reply(id, result).result is Some && ok_reply(id, result).error is None,
        err_reply(id, code, message).jsonrpc == "2.0"@ && err_reply(id, code, message).id == id,
        err_reply(id, code, message).result is None && err_reply(id, code, message).error is Some,
{
}

} // verus!
