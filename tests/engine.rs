use bitcoin_donation::client::{RpcCall, RpcClient, RpcInput};
use bitcoin_donation::commands::{
    AddWitnessAddress, BitcoinCommand, GetNewAddress, ValidateAddress, ValidateAddressOutput,
};
use bitcoin_donation::error::{CallError, SchemaError};
use bitcoin_donation::json::{Json, JsonNumber};
use bitcoin_donation::response::{check_status, INTERNAL_ERROR};
use bitcoin_donation::text::parse_json;

fn call_with_id(id: u64) -> RpcCall {
    RpcCall { id, body: String::new() }
}

fn params(ps: &[&str]) -> Vec<String> {
    ps.iter().map(|p| p.to_string()).collect()
}

#[test]
fn wire_names_of_commands() {
    assert_eq!(GetNewAddress::command(), "getnewaddress");
    assert_eq!(AddWitnessAddress::command(), "addwitnessaddress");
    assert_eq!(ValidateAddress::command(), "validateaddress");
}

#[test]
fn request_body_without_params() {
    let body = RpcInput { id: 7, method: "getnewaddress", params: &Vec::new() }.encode().unwrap();
    assert_eq!(body, r#"{"jsonrpc":"2.0","id":7,"method":"getnewaddress","params":[]}"#);
}

#[test]
fn request_body_keeps_params_in_order_and_escapes_them() {
    let body = RpcInput { id: 12, method: "validateaddress", params: &params(&["2N8x", "a\"b\\c"]) }.encode().unwrap();
    assert_eq!(
        body,
        r#"{"jsonrpc":"2.0","id":12,"method":"validateaddress","params":["2N8x","a\"b\\c"]}"#
    );
}

#[test]
fn request_body_method_and_params_read_back() {
    let ps = params(&["first", "second", "third"]);
    let body = RpcInput { id: 3, method: "addwitnessaddress", params: &ps }.encode().unwrap();
    let v: serde_json::Value = serde_json::from_str(&body).unwrap();
    assert_eq!(v["method"], "addwitnessaddress");
    assert_eq!(v["jsonrpc"], "2.0");
    assert_eq!(v["id"], 3);
    assert_eq!(v["params"], serde_json::Value::from(vec!["first", "second", "third"]));
}

#[test]
fn request_body_largest_id() {
    let body = RpcInput { id: u64::MAX, method: "getnewaddress", params: &Vec::new() }.encode().unwrap();
    assert!(body.contains(r#""id":18446744073709551615,"#));
}

#[test]
fn identifiers_increase_and_match_the_body() {
    let mut client = RpcClient::new();
    assert!(client.has_ids_left());
    let first = client.prepare::<GetNewAddress>(&Vec::new()).unwrap();
    let second = client.prepare::<AddWitnessAddress>(&params(&["2N8x"])).unwrap();
    assert_eq!(first.id, 0);
    assert_eq!(second.id, 1);
    assert_eq!(first.body, r#"{"jsonrpc":"2.0","id":0,"method":"getnewaddress","params":[]}"#);
    assert_eq!(
        second.body,
        r#"{"jsonrpc":"2.0","id":1,"method":"addwitnessaddress","params":["2N8x"]}"#
    );
}

#[test]
fn status_verdicts() {
    assert!(check_status(200).is_ok());
    assert!(matches!(check_status(401), Err(CallError::Auth)));
    assert!(matches!(check_status(500), Err(CallError::Status(500))));
    assert!(matches!(check_status(404), Err(CallError::Status(404))));
}

#[test]
fn unauthorized_ignores_a_valid_body() {
    let call = call_with_id(1);
    let r = call.finish::<String>(401, r#"{"result":"2N8x","error":null,"id":1}"#);
    assert!(matches!(r, Err(CallError::Auth)));
}

#[test]
fn other_status_is_a_transport_error() {
    let call = call_with_id(1);
    let r = call.finish::<String>(503, r#"{"result":"2N8x","error":null,"id":1}"#);
    assert!(matches!(r, Err(CallError::Status(503))));
}

#[test]
fn string_result_round_trip() {
    let mut client = RpcClient::new();
    let mut call = client.prepare::<GetNewAddress>(&Vec::new()).unwrap();
    while call.id < 7 {
        call = client.prepare::<GetNewAddress>(&Vec::new()).unwrap();
    }
    assert!(call.body.contains(r#""id":7,"#));
    let r = call.finish::<String>(200, r#"{"result":"2N8...","error":null,"id":7}"#);
    assert_eq!(r.unwrap(), "2N8...");
}

#[test]
fn validate_address_scenario() {
    let call = call_with_id(3);
    let body = r#"{"result":{"isvalid":true,"ismine":true,"iswatchonly":false,"address":null,"scriptPubKey":null,"isscript":null,"pubkey":null,"iscompressed":null,"account":null,"timestamp":null,"hdkeypath":null,"hdmasterkeyid":null},"error":null,"id":3}"#;
    let out: ValidateAddressOutput = call.finish::<ValidateAddressOutput>(200, body).unwrap();
    assert!(out.isvalid);
    assert_eq!(out.ismine, Some(true));
    assert_eq!(out.iswatchonly, Some(false));
    assert_eq!(out.address, None);
    assert_eq!(out.isscript, None);
    assert_eq!(out.timestamp, None);
    assert_eq!(out.hdmasterkeyid, None);
}

#[test]
fn validate_address_absent_members_and_extra_members() {
    let call = call_with_id(5);
    let body = r#"{"result":{"isvalid":false,"newfield":[1,2],"timestamp":-12,"account":"x"},"error":null,"id":5}"#;
    let out = call.finish::<ValidateAddressOutput>(200, body).unwrap();
    assert!(!out.isvalid);
    assert_eq!(out.ismine, None);
    assert_eq!(out.timestamp, Some(-12));
    assert_eq!(out.account, Some("x".to_string()));
}

#[test]
fn validate_address_needs_isvalid() {
    let call = call_with_id(5);
    let r = call.finish::<ValidateAddressOutput>(200, r#"{"result":{"ismine":true},"error":null,"id":5}"#);
    assert!(matches!(r, Err(CallError::Schema(SchemaError::MissingField("isvalid")))));
    let r = call.finish::<ValidateAddressOutput>(200, r#"{"result":{"isvalid":"yes"},"error":null,"id":5}"#);
    assert!(matches!(r, Err(CallError::Schema(SchemaError::WrongType))));
}

#[test]
fn daemon_error_scenario() {
    let call = call_with_id(4);
    let r = call.finish::<String>(
        200,
        r#"{"result":null,"error":{"code":-5,"message":"Invalid address","data":null},"id":4}"#,
    );
    match r {
        Err(CallError::Rpc(e)) => {
            assert_eq!(e.code, -5);
            assert_eq!(e.message, "Invalid address");
            assert!(e.data.is_none());
        },
        other => panic!("unexpected outcome {:?}", other),
    }
}

#[test]
fn daemon_error_data_is_passed_through() {
    let call = call_with_id(4);
    let r = call.finish::<String>(200, r#"{"error":{"code":-8,"message":"m","data":{"k":1.5}},"id":4}"#);
    match r {
        Err(CallError::Rpc(e)) => {
            assert_eq!(e.code, -8);
            match e.data {
                Some(Json::Object(members)) => {
                    assert_eq!(members.len(), 1);
                    assert_eq!(members[0].0, "k");
                    assert!(matches!(&members[0].1, Json::Number(JsonNumber::Fraction(t)) if t == "1.5"));
                },
                other => panic!("unexpected data {:?}", other),
            }
        },
        other => panic!("unexpected outcome {:?}", other),
    }
}

#[test]
fn mismatched_id_is_refused() {
    let call = call_with_id(9);
    let r = call.finish::<String>(200, r#"{"result":"2N8x","error":null,"id":10}"#);
    match r {
        Err(CallError::Rpc(e)) => {
            assert_eq!(e.code, INTERNAL_ERROR);
            assert_eq!(e.code, -32603);
            assert_eq!(e.message, "Wrong ID returned.");
        },
        other => panic!("unexpected outcome {:?}", other),
    }
}

#[test]
fn result_wins_over_error() {
    let call = call_with_id(2);
    let r = call.finish::<String>(
        200,
        r#"{"result":"2N8x","error":{"code":-1,"message":"ignored"},"id":2}"#,
    );
    assert_eq!(r.unwrap(), "2N8x");
}

#[test]
fn neither_result_nor_error() {
    let call = call_with_id(2);
    for body in [r#"{"result":null,"error":null,"id":2}"#, r#"{"id":2}"#] {
        match call.finish::<String>(200, body) {
            Err(CallError::Rpc(e)) => {
                assert_eq!(e.code, -32603);
                assert_eq!(e.message, "RPC error could not be retrieved.");
                assert!(e.data.is_none());
            },
            other => panic!("unexpected outcome {:?}", other),
        }
    }
}

#[test]
fn unknown_member_is_refused() {
    let call = call_with_id(2);
    let r = call.finish::<String>(200, r#"{"result":"x","error":null,"id":2,"jsonrpc":"2.0"}"#);
    assert!(matches!(r, Err(CallError::Schema(SchemaError::UnknownField(ref k))) if k == "jsonrpc"));
    let r = call.finish::<String>(200, r#"{"result":null,"error":{"code":1,"message":"m","extra":0},"id":2}"#);
    assert!(matches!(r, Err(CallError::Schema(SchemaError::UnknownField(ref k))) if k == "extra"));
}

#[test]
fn envelope_shape_errors() {
    let call = call_with_id(2);
    let r = call.finish::<String>(200, r#"{"result":"x","error":null}"#);
    assert!(matches!(r, Err(CallError::Schema(SchemaError::MissingField("id")))));
    let r = call.finish::<String>(200, r#"{"result":"x","error":null,"id":null}"#);
    assert!(matches!(r, Err(CallError::Schema(SchemaError::WrongType))));
    let r = call.finish::<String>(200, r#"{"result":5,"error":null,"id":2}"#);
    assert!(matches!(r, Err(CallError::Schema(SchemaError::WrongType))));
    let r = call.finish::<String>(200, r#"[1,2]"#);
    assert!(matches!(r, Err(CallError::Schema(SchemaError::WrongType))));
    let r = call.finish::<String>(200, r#"{"result":null,"error":{"message":"m"},"id":2}"#);
    assert!(matches!(r, Err(CallError::Schema(SchemaError::MissingField("code")))));
}

#[test]
fn text_that_is_not_json() {
    let call = call_with_id(2);
    let r = call.finish::<String>(200, "not json");
    assert!(matches!(r, Err(CallError::Json(_))));
    let r = call.finish::<String>(200, "");
    assert!(matches!(r, Err(CallError::Json(_))));
}

#[test]
fn parse_json_numbers_and_nesting() {
    match parse_json(r#"[0, 18446744073709551615, -9223372036854775808, 2.5, "s", true, null]"#) {
        Ok(Json::Array(items)) => {
            assert_eq!(items.len(), 7);
            assert!(matches!(items[0], Json::Number(JsonNumber::Unsigned(0))));
            assert!(matches!(items[1], Json::Number(JsonNumber::Unsigned(u64::MAX))));
            assert!(matches!(items[2], Json::Number(JsonNumber::Negative(i64::MIN))));
            assert!(matches!(&items[3], Json::Number(JsonNumber::Fraction(t)) if t == "2.5"));
            assert!(matches!(&items[4], Json::Str(s) if s == "s"));
            assert!(matches!(items[5], Json::Bool(true)));
            assert!(matches!(items[6], Json::Null));
        },
        other => panic!("unexpected parse {:?}", other),
    }
    let deep = format!("{}{}", "[".repeat(100), "]".repeat(100));
    assert!(parse_json(&deep).is_ok());
}

#[test]
fn repeated_member_reaches_the_decoder_once() {
    let call = call_with_id(2);
    let r = call.finish::<String>(200, r#"{"result":"first","result":"second","error":null,"id":2}"#);
    assert_eq!(r.unwrap(), "second");
}

#[test]
fn parse_json_gives_the_tree_or_the_diagnostic() {
    match parse_json(r#"{"b":[true],"a":null}"#) {
        Ok(Json::Object(members)) => {
            assert_eq!(members.len(), 2);
            assert_eq!(members[0].0, "a");
            assert!(matches!(members[0].1, Json::Null));
            assert_eq!(members[1].0, "b");
            assert!(matches!(&members[1].1, Json::Array(items) if items.len() == 1));
        },
        other => panic!("unexpected parse {:?}", other),
    }
    assert!(matches!(parse_json("{\"a\":"), Err(CallError::Json(_))));
}

#[test]
fn unknown_member_is_named_even_when_several() {
    let call = call_with_id(2);
    let r = call.finish::<String>(200, r#"{"zz":1,"result":"x","aa":2,"id":2}"#);
    assert!(matches!(r, Err(CallError::Schema(SchemaError::UnknownField(ref k))) if k == "zz"));
}

#[test]
fn request_body_escapes_control_characters() {
    let ps = params(&["\u{1}\u{8}\t\n\u{c}\r\u{1f} \u{7f}é"]);
    let body = RpcInput { id: 1, method: "m", params: &ps }.encode().unwrap();
    assert_eq!(
        body,
        "{\"jsonrpc\":\"2.0\",\"id\":1,\"method\":\"m\",\"params\":[\"\\u0001\\b\\t\\n\\f\\r\\u001f \u{7f}é\"]}"
    );
}
