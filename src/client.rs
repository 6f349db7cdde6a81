//! The call engine: correlation identifiers, request framing and the handling
//! of an answer.

use crate::commands::BitcoinCommand;
use crate::decode::FromJson;
use crate::error::CallError;
use crate::json::{field_of, Json, JsonNumber};
use crate::response::{answered, check_status, decode_response, status_verdict};
use crate::text::{json_string, json_string_of, json_tree_of, parse_json};
use vstd::prelude::*;

verus! {

/// The user name and password sent with every request.
pub struct Credentials {
    pub username: String,
    pub password: String,
}

/// The character of a decimal digit.
pub open spec fn digit(d: nat) -> char {
    if d == 0 {
        '0'
    } else if d == 1 {
        '1'
    } else if d == 2 {
        '2'
    } else if d == 3 {
        '3'
    } else if d == 4 {
        '4'
    } else if d == 5 {
        '5'
    } else if d == 6 {
        '6'
    } else if d == 7 {
        '7'
    } else if d == 8 {
        '8'
    } else {
        '9'
    }
}

/// The decimal text of `n`, without leading zeros.
pub open spec fn decimal(n: nat) -> Seq<char>
    decreases n,
{
    if n < 10 {
        seq![digit(n)]
    } else {
        decimal(n / 10).push(digit(n % 10))
    }
}

fn digit_str(d: u64) -> (r: &'static str)
    requires
        d < 10,
    ensures
        r@ == seq![digit(d as nat)],
{
    proof {
        reveal_strlit("0");
        reveal_strlit("1");
        reveal_strlit("2");
        reveal_strlit("3");
        reveal_strlit("4");
        reveal_strlit("5");
        reveal_strlit("6");
        reveal_strlit("7");
        reveal_strlit("8");
        reveal_strlit("9");
    }
    let r = if d == 0 {
        "0"
    } else if d == 1 {
        "1"
    } else if d == 2 {
        "2"
    } else if d == 3 {
        "3"
    } else if d == 4 {
        "4"
    } else if d == 5 {
        "5"
    } else if d == 6 {
        "6"
    } else if d == 7 {
        "7"
    } else if d == 8 {
        "8"
    } else {
        "9"
    };
    assert(r@ =~= seq![digit(d as nat)]);
    r
}

fn push_decimal(s: &mut String, n: u64)
    ensures
        final(s)@ == old(s)@ + decimal(n as nat),
    decreases n,
{
    if n >= 10 {
        push_decimal(s, n / 10);
    }
    s.append(digit_str(n % 10));
    proof {
        if n >= 10 {
            assert(old(s)@ + decimal(n as nat) =~= old(s)@ + decimal((n / 10) as nat) + seq![
                digit((n % 10) as nat),
            ]);
        } else {
            assert(decimal(n as nat) =~= seq![digit((n % 10) as nat)]);
        }
    }
}

} // verus!

verus! {

/// The views of a sequence of strings.
pub open spec fn views(ps: Seq<String>) -> Seq<Seq<char>> {
    ps.map_values(|p: String| p@)
}

/// The JSON literals of `ps`, separated by commas.
pub open spec fn joined(ps: Seq<Seq<char>>) -> Seq<char>
    decreases ps.len(),
{
    if ps.len() == 0 {
        Seq::empty()
    } else if ps.len() == 1 {
        json_string_of(ps[0])
    } else {
        joined(ps.drop_last()) + ","@ + json_string_of(ps.last())
    }
}

/// The body of a request: protocol version "2.0", the correlation
/// identifier, the method name and the positional parameters in order.
pub open spec fn request_text(id: u64, method: Seq<char>, params: Seq<Seq<char>>) -> Seq<char> {
    "{\"jsonrpc\":\"2.0\",\"id\":"@ + decimal(id as nat) + ",\"method\":"@ + json_string_of(method)
        + ",\"params\":["@ + joined(params) + "]}"@
}

/// A request: its correlation identifier, method name and positional
/// parameters; the protocol version is always "2.0".
pub struct RpcInput<'a> {
    pub id: u64,
    pub method: &'a str,
    pub params: &'a Vec<String>,
}

impl<'a> RpcInput<'a> {
    /// Writes the JSON body of the request.
    pub fn encode(&self) -> (r: Result<String, CallError>)
        ensures
            r matches Ok(b) && b@ == request_text(self.id, self.method@, views(self.params@)),
    {
        let id = self.id;
        let method = self.method;
        let params = self.params;
        let mut body = String::from_str("{\"jsonrpc\":\"2.0\",\"id\":");
        push_decimal(&mut body, id);
        body.append(",\"method\":");
        match json_string(method) {
            Ok(m) => body.append(m.as_str()),
            Err(e) => {
                return Err(CallError::Json(e));
            },
        }
        body.append(",\"params\":[");
        let ghost head = body@;
        let ghost vs = views(params@);
        let mut i: usize = 0;
        assert(vs.subrange(0, 0) =~= Seq::<Seq<char>>::empty());
        assert(body@ =~= head + joined(vs.subrange(0, 0)));
        while i < params.len()
            invariant
                i <= params@.len(),
                vs == views(params@),
                body@ == head + joined(vs.subrange(0, i as int)),
            decreases params@.len() - i,
        {
            let ghost before = body@;
            if i > 0 {
                body.append(",");
            }
            match json_string(params[i].as_str()) {
                Ok(p) => body.append(p.as_str()),
                Err(e) => {
                    return Err(CallError::Json(e));
                },
            }
            proof {
                let next = vs.subrange(0, i + 1);
                assert(next.drop_last() =~= vs.subrange(0, i as int));
                assert(next.last() == params@[i as int]@);
                if i == 0 {
                    assert(body@ =~= head + joined(next));
                } else {
                    assert(body@ =~= before + ","@ + json_string_of(next.last()));
                    assert(body@ =~= head + joined(next));
                }
            }
            i = i + 1;
        }
        assert(vs.subrange(0, i as int) =~= vs);
        body.append("]}");
        Ok(body)
    }
}

/// A request ready to be sent, and the identifier its answer must carry.
pub struct RpcCall {
    pub id: u64,
    pub body: String,
}

/// Hands out correlation identifiers: each one once, in increasing order.
pub struct RpcClient {
    next_id: u64,
    issued: Ghost<Seq<u64>>,
}

impl RpcClient {
    /// The identifier the next request gets.
    pub closed spec fn spec_next_id(&self) -> u64 {
        self.next_id
    }

    /// The identifiers handed out so far, in order.
    pub closed spec fn issued(&self) -> Seq<u64> {
        self.issued@
    }

    /// The identifiers handed out so far increase strictly and stay below
    /// the next one.
    pub closed spec fn wf(&self) -> bool {
        &&& forall|i: int, j: int| 0 <= i < j < self.issued@.len() ==> self.issued@[i] < self.issued@[j]
        &&& forall|i: int| 0 <= i < self.issued@.len() ==> self.issued@[i] < self.next_id
    }

    pub fn new() -> (r: RpcClient)
        ensures
            r.wf(),
            r.spec_next_id() == 0,
            r.issued() == Seq::<u64>::empty(),
    {
        RpcClient { next_id: 0, issued: Ghost(Seq::empty()) }
    }

    /// Whether an identifier is left to hand out.
    pub fn has_ids_left(&self) -> (r: bool)
        ensures
            r == (self.spec_next_id() < u64::MAX),
    {
        self.next_id < u64::MAX
    }

    /// Takes a fresh identifier and writes the request of command `X`
    /// with `params`.
    pub fn prepare<X: BitcoinCommand>(&mut self, params: &Vec<String>) -> (r: Result<
        RpcCall,
        CallError,
    >)
        requires
            old(self).wf(),
            old(self).spec_next_id() < u64::MAX,
        ensures
            final(self).wf(),
            final(self).spec_next_id() == old(self).spec_next_id() + 1,
            final(self).issued() == old(self).issued().push(old(self).spec_next_id()),
            forall|i: int|
                0 <= i < old(self).issued().len() ==> old(self).issued()[i] < old(self).spec_next_id(),
            r matches Ok(c) && c.id == old(self).spec_next_id() && c.body@ == request_text(
                c.id,
                X::spec_command(),
                views(params@),
            ),
    {
        let id = self.next_id;
        self.next_id = self.next_id + 1;
        self.issued = Ghost(self.issued@.push(id));
        let input = RpcInput { id, method: X::command(), params };
        match input.encode() {
            Ok(body) => Ok(RpcCall { id, body }),
            Err(e) => Err(e),
        }
    }
}

/// Every identifier a client hands out is above all those it handed out
/// before, so none is used twice.
pub proof fn lemma_fresh_ids(c: RpcClient, id: u64)
    requires
        c.wf(),
        c.issued().contains(id),
    ensures
        id < c.spec_next_id(),
{
}

impl RpcCall {
    /// What the answer with HTTP `status` and `body` comes to. A status other
    /// than success decides alone, whatever the body holds; a body that parses
    /// is decoded against this call's identifier.
    pub fn finish<T: FromJson>(&self, status: u16, body: &str) -> (r: Result<T, CallError>)
        ensures
            status != 200 ==> r == Err::<T, CallError>(status_verdict(status)->Err_0),
            status == 401 ==> r == Err::<T, CallError>(CallError::Auth),
            status == 200 ==> match json_tree_of(body@) {
                None => r matches Err(CallError::Json(_)),
                Some(j) => answered::<T>(self.id, j, r),
            },
    {
        match check_status(status) {
            Err(e) => Err(e),
            Ok(()) => match parse_json(body) {
                Err(e) => Err(e),
                Ok(j) => decode_response::<T>(self.id, j),
            },
        }
    }
}

/// An answer that echoes a request's identifier with a string result and a
/// null error yields exactly that string.
pub proof fn lemma_string_echo(id: u64, j: Json, s: String, r: Result<String, CallError>)
    requires
        j matches Json::Object(es) && es@.len() == 3 && es@[0].0@ == "result"@ && es@[0].1
            == Json::Str(s) && es@[1].0@ == "error"@ && es@[1].1 == Json::Null && es@[2].0@ == "id"@
            && es@[2].1 == Json::Number(JsonNumber::Unsigned(id)),
        answered::<String>(id, j, r),
    ensures
        r == Ok::<String, CallError>(s),
{
    reveal_strlit("result");
    reveal_strlit("error");
    reveal_strlit("id");
    reveal_with_fuel(field_of, 4);
    reveal_with_fuel(crate::json::last_unknown, 4);
    if let Json::Object(es) = j {
        let v = es@;
        assert("result"@.len() == 6 && "error"@.len() == 5 && "id"@.len() == 2);
        assert(v.drop_last().drop_last().drop_last() =~= Seq::<(String, Json)>::empty());
        assert(v[0].0@ != "error"@ && v[0].0@ != "id"@);
        assert(v[1].0@ != "result"@ && v[1].0@ != "id"@);
        assert(v[2].0@ != "result"@ && v[2].0@ != "error"@);
        assert(field_of(v, "id"@) == Some(Json::Number(JsonNumber::Unsigned(id))));
        assert(field_of(v, "error"@) == Some(Json::Null));
        assert(field_of(v, "result"@) == Some(Json::Str(s)));
    }
}

} // verus!
