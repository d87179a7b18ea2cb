//! Requests that pause, resume and snapshot an instance.

use vstd::prelude::*;

use crate::api::firecrackerapi::{http_request, request_text};
use crate::api::firecrackerapi::content_length;
use crate::text::{hex_digits, nat_decimal, push_hex, str_eq};

verus! {

/// The hyphenated lower-case text of a UUID given as the 128-bit big-endian
/// value of its bytes: groups of 8, 4, 4, 4 and 12 hexadecimal digits.
pub open spec fn uuid_text(u: u128) -> Seq<char> {
    hex_digits((u / 0x1_0000_0000_0000_0000_0000_0000) as nat, 8, false) + "-"@
        + hex_digits((u / 0x1_0000_0000_0000_0000_0000) as nat, 4, false) + "-"@
        + hex_digits((u / 0x1_0000_0000_0000_0000) as nat, 4, false) + "-"@
        + hex_digits((u / 0x1_0000_0000_0000) as nat, 4, false) + "-"@
        + hex_digits(u as nat, 12, false)
}

/// Writes a UUID in its hyphenated lower-case form.
pub fn format_uuid(u: u128) -> (r: String)
    ensures
        r@ == uuid_text(u),
{
    let mut s = String::new();
    push_hex(&mut s, u / 0x1_0000_0000_0000_0000_0000_0000, 8, false);
    s.append("-");
    push_hex(&mut s, u / 0x1_0000_0000_0000_0000_0000, 4, false);
    s.append("-");
    push_hex(&mut s, u / 0x1_0000_0000_0000_0000, 4, false);
    s.append("-");
    push_hex(&mut s, u / 0x1_0000_0000_0000, 4, false);
    s.append("-");
    push_hex(&mut s, u, 12, false);
    s
}

/// Whether the snapshot type asks for a snapshot (`Full` or `Diff`) rather
/// than a change of state.
pub open spec fn is_snapshot_kind(snapshot_type: Seq<char>) -> bool {
    snapshot_type == "Full"@ || snapshot_type == "Diff"@
}

/// The body of a snapshot or state request.
pub open spec fn snapshot_body_text(
    state: Seq<char>,
    uuid: u128,
    snapshot_type: Seq<char>,
    snapshot_path: Seq<char>,
) -> Seq<char> {
    if is_snapshot_kind(snapshot_type) {
        "{ \"snapshot_type\": \""@ + snapshot_type + "\", \"snapshot_path\": \"./"@ + snapshot_path
            + "/snapshot_"@ + uuid_text(uuid) + "\", \"mem_file_path\": \"./"@ + snapshot_path
            + "/mem_file_"@ + uuid_text(uuid) + "\" }"@
    } else {
        "{ \"state\": \""@ + state + "\" }"@
    }
}

/// The full snapshot or state request: `PUT /snapshot/create` for `Full` and
/// `Diff`, `PATCH /vm` otherwise.
pub open spec fn snapshot_request_spec(
    state: Seq<char>,
    uuid: u128,
    snapshot_type: Seq<char>,
    snapshot_path: Seq<char>,
) -> Seq<char> {
    let body = snapshot_body_text(state, uuid, snapshot_type, snapshot_path);
    if is_snapshot_kind(snapshot_type) {
        request_text("PUT /snapshot/create"@, true, body)
    } else {
        request_text("PATCH /vm"@, true, body)
    }
}

/// The body of a snapshot request (for the types `Full` and `Diff`, naming
/// the snapshot and memory files after the VM's UUID under `snapshot_path`)
/// or of a state change to `state` (for any other type).
pub fn snapshot_body(state: &str, uuid: u128, snapshot_type: &str, snapshot_path: &str) -> (r: String)
    ensures
        r@ == snapshot_body_text(state@, uuid, snapshot_type@, snapshot_path@),
{
    if str_eq(snapshot_type, "Full") || str_eq(snapshot_type, "Diff") {
        let id = format_uuid(uuid);
        let mut s = String::from_str("{ \"snapshot_type\": \"");
        s.append(snapshot_type);
        s.append("\", \"snapshot_path\": \"./");
        s.append(snapshot_path);
        s.append("/snapshot_");
        s.append(id.as_str());
        s.append("\", \"mem_file_path\": \"./");
        s.append(snapshot_path);
        s.append("/mem_file_");
        s.append(id.as_str());
        s.append("\" }");
        s
    } else {
        let mut s = String::from_str("{ \"state\": \"");
        s.append(state);
        s.append("\" }");
        s
    }
}

/// The request sent for a snapshot of type `snapshot_type`, or for a change
/// of the VM's state to `state`.
pub fn snapshot_request_text(
    state: &str,
    uuid: u128,
    snapshot_type: &str,
    snapshot_path: &str,
) -> (r: String)
    ensures
        r@ == snapshot_request_spec(state@, uuid, snapshot_type@, snapshot_path@),
        snapshot_type@ == "Full"@ || snapshot_type@ == "Diff"@ ==> r@.len() >= 31 && r@.subrange(0, 31)
            == "PUT /snapshot/create HTTP/1.1\r\n"@,
        !(snapshot_type@ == "Full"@ || snapshot_type@ == "Diff"@) ==> r@.len() >= 20 && r@.subrange(0, 20)
            == "PATCH /vm HTTP/1.1\r\n"@,
{
    proof {
        lemma_snapshot_request_endpoint(state@, uuid, snapshot_type@, snapshot_path@);
    }
    let body = snapshot_body(state, uuid, snapshot_type, snapshot_path);
    if str_eq(snapshot_type, "Full") || str_eq(snapshot_type, "Diff") {
        http_request("PUT /snapshot/create", true, body.as_str())
    } else {
        http_request("PATCH /vm", true, body.as_str())
    }
}

/// Both snapshot types, `Full` and `Diff`, are sent as `PUT /snapshot/create`
/// with a body naming the snapshot type; every other type is a change of
/// the VM's state, sent as `PATCH /vm` with a body holding only that state.
/// Either way the request ends with its body.
pub proof fn lemma_snapshot_request_endpoint(
    state: Seq<char>,
    uuid: u128,
    snapshot_type: Seq<char>,
    snapshot_path: Seq<char>,
)
    ensures
        ({
            let req = snapshot_request_spec(state, uuid, snapshot_type, snapshot_path);
            let body = snapshot_body_text(state, uuid, snapshot_type, snapshot_path);
            &&& snapshot_type == "Full"@ || snapshot_type == "Diff"@ ==> req.len() >= 31 && req.subrange(0, 31)
                == "PUT /snapshot/create HTTP/1.1\r\n"@
            &&& snapshot_type == "Full"@ || snapshot_type == "Diff"@ ==> body.len() >= 20
                + snapshot_type.len() && body.subrange(0, (20 + snapshot_type.len()) as int)
                == "{ \"snapshot_type\": \""@ + snapshot_type
            &&& !(snapshot_type == "Full"@ || snapshot_type == "Diff"@) ==> req.len() >= 20 && req.subrange(
                0,
                20,
            ) == "PATCH /vm HTTP/1.1\r\n"@
            &&& !(snapshot_type == "Full"@ || snapshot_type == "Diff"@) ==> body == "{ \"state\": \""@
                + state + "\" }"@
            &&& req.len() >= body.len() && req.subrange(req.len() - body.len(), req.len() as int) == body
        }),
{
    reveal_strlit("PUT /snapshot/create HTTP/1.1\r\n");
    reveal_strlit("PATCH /vm HTTP/1.1\r\n");
    reveal_strlit("PUT /snapshot/create");
    reveal_strlit("PATCH /vm");
    reveal_strlit(" HTTP/1.1\r\nHost: localhost\r\n");
    reveal_strlit("{ \"snapshot_type\": \"");
    let req = snapshot_request_spec(state, uuid, snapshot_type, snapshot_path);
    let body = snapshot_body_text(state, uuid, snapshot_type, snapshot_path);
    let kind = snapshot_type == "Full"@ || snapshot_type == "Diff"@;
    let head = if kind { "PUT /snapshot/create"@ } else { "PATCH /vm"@ };
    let rest = (if true {
        "Accept: application/json\r\n"@
    } else {
        Seq::<char>::empty()
    }) + "Content-Type: application/json\r\nContent-Length: "@ + nat_decimal(content_length(body))
        + "\r\n\r\n"@;
    assert(req == head + " HTTP/1.1\r\nHost: localhost\r\n"@ + rest + body);
    assert(req =~= (head + " HTTP/1.1\r\nHost: localhost\r\n"@) + (rest + body));
    if kind {
        assert(req.subrange(0, 31) =~= "PUT /snapshot/create HTTP/1.1\r\n"@);
        let t = "{ \"snapshot_type\": \""@ + snapshot_type;
        assert(body =~= t + ("\", \"snapshot_path\": \"./"@ + snapshot_path + "/snapshot_"@ + uuid_text(
            uuid,
        ) + "\", \"mem_file_path\": \"./"@ + snapshot_path + "/mem_file_"@ + uuid_text(uuid)
            + "\" }"@));
        assert(body.subrange(0, (20 + snapshot_type.len()) as int) =~= t);
    } else {
        assert(req.subrange(0, 20) =~= "PATCH /vm HTTP/1.1\r\n"@);
    }
    assert(req.subrange(req.len() - body.len(), req.len() as int) =~= body);
}

} // verus!
