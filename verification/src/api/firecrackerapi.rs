//! Requests of the Firecracker API: configuring the boot source, the root
//! drive and the network interface, and controlling a running instance.

use vstd::prelude::*;
use vstd::utf8::encode_utf8;

use crate::text::{nat_decimal, push_decimal};
use crate::vm::vminfo::VmStatus;

verus! {

/// The value of the `Content-Length` header for `body`: its length in bytes
/// once encoded as UTF-8.
pub open spec fn content_length(body: Seq<char>) -> nat {
    (encode_utf8(body).len() as usize) as nat
}

/// An HTTP/1.1 request to the API socket: the request line `head` followed by
/// ` HTTP/1.1`, the headers (with `Accept: application/json` when `accept`),
/// a blank line and the JSON `body`.
pub open spec fn request_text(head: Seq<char>, accept: bool, body: Seq<char>) -> Seq<char> {
    head + " HTTP/1.1\r\nHost: localhost\r\n"@ + (if accept {
        "Accept: application/json\r\n"@
    } else {
        Seq::<char>::empty()
    }) + "Content-Type: application/json\r\nContent-Length: "@ + nat_decimal(content_length(body))
        + "\r\n\r\n"@ + body
}

/// Writes the request with request line `head` and JSON `body`.
pub fn http_request(head: &str, accept: bool, body: &str) -> (r: String)
    ensures
        r@ == request_text(head@, accept, body@),
{
    let mut s = String::from_str(head);
    s.append(" HTTP/1.1\r\nHost: localhost\r\n");
    if accept {
        s.append("Accept: application/json\r\n");
    }
    s.append("Content-Type: application/json\r\nContent-Length: ");
    let len: usize = body.len();
    push_decimal(&mut s, len as u64);
    s.append("\r\n\r\n");
    s.append(body);
    s
}

/// The body of `PUT /boot-source`.
pub open spec fn boot_source_body_text(kernel_image_path: Seq<char>, boot_args: Seq<char>) -> Seq<
    char,
> {
    "{          \n        \"kernel_image_path\": \""@ + kernel_image_path
        + "\",\n        \"boot_args\": \""@ + boot_args + "\"\n    }"@
}

/// The JSON text of a boolean.
pub open spec fn bool_text(b: bool) -> Seq<char> {
    if b { "true"@ } else { "false"@ }
}

/// The body of `PUT /drives/rootfs`.
pub open spec fn rootfs_body_text(rootfs_path: Seq<char>, is_read_only: bool) -> Seq<char> {
    "{          \n        \"drive_id\": \"rootfs\",\n        \"path_on_host\": \""@ + rootfs_path
        + "\",\n        \"is_root_device\": true,\n        \"is_read_only\": "@ + bool_text(
        is_read_only,
    ) + "\n    }"@
}

/// The body of the network-interface request.
pub open spec fn network_body_text(
    iface_id: Seq<char>,
    guest_mac: Seq<char>,
    host_dev_name: Seq<char>,
) -> Seq<char> {
    "{\n        \"iface_id\": \""@ + iface_id
        + "\",\n        \"guest_mac\": \""@ + guest_mac + "\",\n        \"host_dev_name\": \""@
        + host_dev_name + "\"\n    }"@
}

/// The body of the `/actions` request that moves an instance to `state`, or
/// `None` where the API has no such action.
pub open spec fn action_body_text(state: VmStatus) -> Option<Seq<char>> {
    match state {
        VmStatus::Running => Some("{\"action_type\": \"InstanceStart\"}"@),
        VmStatus::Paused => Some("{\"state\": \"Paused\"}"@),
        VmStatus::Resume => Some("{\"state\": \"Resumed\"}"@),
        VmStatus::Terminated => Some("{\"action_type\": \"SendCtrlAltDel\"}"@),
        _ => None,
    }
}

/// The body of the boot-source request.
pub fn boot_source_body(kernel_image_path: &str, boot_args: &str) -> (r: String)
    ensures
        r@ == boot_source_body_text(kernel_image_path@, boot_args@),
{
    let mut s = String::from_str("{          \n        \"kernel_image_path\": \"");
    s.append(kernel_image_path);
    s.append("\",\n        \"boot_args\": \"");
    s.append(boot_args);
    s.append("\"\n    }");
    s
}

/// The request that sets the kernel image and command line of an instance.
pub fn boot_source_request(kernel_image_path: &str, boot_args: &str) -> (r: String)
    ensures
        r@ == request_text(
            "PUT /boot-source"@,
            true,
            boot_source_body_text(kernel_image_path@, boot_args@),
        ),
{
    let body = boot_source_body(kernel_image_path, boot_args);
    http_request("PUT /boot-source", true, body.as_str())
}

/// The body of the root-drive request.
pub fn rootfs_body(rootfs_path: &str, is_read_only: bool) -> (r: String)
    ensures
        r@ == rootfs_body_text(rootfs_path@, is_read_only),
{
    let mut s = String::from_str(
        "{          \n        \"drive_id\": \"rootfs\",\n        \"path_on_host\": \"",
    );
    s.append(rootfs_path);
    s.append("\",\n        \"is_root_device\": true,\n        \"is_read_only\": ");
    if is_read_only {
        s.append("true");
    } else {
        s.append("false");
    }
    s.append("\n    }");
    s
}

/// The request that attaches the root file system of an instance.
pub fn rootfs_request(rootfs_path: &str, is_read_only: bool) -> (r: String)
    ensures
        r@ == request_text("PUT /drives/rootfs"@, true, rootfs_body_text(rootfs_path@, is_read_only)),
{
    let body = rootfs_body(rootfs_path, is_read_only);
    http_request("PUT /drives/rootfs", true, body.as_str())
}

/// The body of the network-interface request.
pub fn network_body(iface_id: &str, guest_mac: &str, host_dev_name: &str) -> (r: String)
    ensures
        r@ == network_body_text(iface_id@, guest_mac@, host_dev_name@),
{
    let mut s = String::from_str("{\n        \"iface_id\": \"");
    s.append(iface_id);
    s.append("\",\n        \"guest_mac\": \"");
    s.append(guest_mac);
    s.append("\",\n        \"host_dev_name\": \"");
    s.append(host_dev_name);
    s.append("\"\n    }");
    s
}

/// The request that attaches a network interface to an instance:
/// `PUT /network-interfaces/<iface_id>` with the interface, MAC address and
/// host device as JSON, and no `Accept` header.
pub fn network_request(iface_id: &str, guest_mac: &str, host_dev_name: &str) -> (r: String)
    ensures
        r@ == request_text(
            "PUT /network-interfaces/"@ + iface_id@,
            false,
            network_body_text(iface_id@, guest_mac@, host_dev_name@),
        ),
{
    let body = network_body(iface_id, guest_mac, host_dev_name);
    let mut head = String::from_str("PUT /network-interfaces/");
    head.append(iface_id);
    http_request(head.as_str(), false, body.as_str())
}

/// The body of the `/actions` request for `state`, or `None` for a state that
/// no action reaches.
pub fn instance_action_body(state: VmStatus) -> (r: Option<&'static str>)
    ensures
        match r {
            Some(b) => action_body_text(state) == Some(b@),
            None => action_body_text(state) is None,
        },
{
    match state {
        VmStatus::Running => Some("{\"action_type\": \"InstanceStart\"}"),
        VmStatus::Paused => Some("{\"state\": \"Paused\"}"),
        VmStatus::Resume => Some("{\"state\": \"Resumed\"}"),
        VmStatus::Terminated => Some("{\"action_type\": \"SendCtrlAltDel\"}"),
        _ => None,
    }
}

/// The `PUT /actions` request that moves an instance to `state`; `None` for
/// the states `Initializaing` and `Ready`, which are refused as invalid.
pub fn instance_control_request(state: VmStatus) -> (r: Option<String>)
    ensures
        match action_body_text(state) {
            Some(body) => r matches Some(req) && req@ == request_text("PUT /actions"@, true, body),
            None => r is None,
        },
{
    match instance_action_body(state) {
        Some(body) => Some(http_request("PUT /actions", true, body)),
        None => None,
    }
}

/// Every request starts with its request line, `head` followed by
/// ` HTTP/1.1` and a line break, and ends with its whole body.
pub proof fn lemma_request_text_frames_body(head: Seq<char>, accept: bool, body: Seq<char>)
    ensures
        ({
            let req = request_text(head, accept, body);
            let line = head + " HTTP/1.1\r\n"@;
            &&& req.len() >= line.len() + body.len()
            &&& req.subrange(0, line.len() as int) == line
            &&& req.subrange(req.len() - body.len(), req.len() as int) == body
        }),
{
    reveal_strlit(" HTTP/1.1\r\nHost: localhost\r\n");
    reveal_strlit(" HTTP/1.1\r\n");
    let req = request_text(head, accept, body);
    let line = head + " HTTP/1.1\r\n"@;
    let rest = "Host: localhost\r\n"@ + (if accept {
        "Accept: application/json\r\n"@
    } else {
        Seq::<char>::empty()
    }) + "Content-Type: application/json\r\nContent-Length: "@ + nat_decimal(content_length(body))
        + "\r\n\r\n"@;
    reveal_strlit("Host: localhost\r\n");
    assert(" HTTP/1.1\r\nHost: localhost\r\n"@ =~= " HTTP/1.1\r\n"@ + "Host: localhost\r\n"@);
    assert(req =~= line + rest + body);
    assert(req.subrange(0, line.len() as int) =~= line);
    assert(req.subrange(req.len() - body.len(), req.len() as int) =~= body);
}

/// The root-drive body always declares the drive the root device, whatever
/// `is_read_only` is: after the opening lines and the path come
/// `"is_root_device": true,` and then `"is_read_only": ` with `true` or
/// `false` as asked, and the object closes. Two bodies for the same path
/// differ only in that last value.
pub proof fn lemma_rootfs_body_fields(rootfs_path: Seq<char>, is_read_only: bool)
    ensures
        ({
            let b = rootfs_body_text(rootfs_path, is_read_only);
            let at: int = (67 + rootfs_path.len()) as int;
            let value = if is_read_only { "true"@ } else { "false"@ };
            &&& b.len() == at + 59 + value.len() as int + 6
            &&& b.subrange(0, 67) == "{          \n        \"drive_id\": \"rootfs\",\n        \"path_on_host\": \""@
            &&& b.subrange(67, at) == rootfs_path
            &&& b.subrange(at, at + 11) == "\",\n        "@
            &&& b.subrange(at + 11, at + 34) == "\"is_root_device\": true,"@
            &&& b.subrange(at + 34, at + 43) == "\n        "@
            &&& b.subrange(at + 43, at + 59) == "\"is_read_only\": "@
            &&& b.subrange(at + 59, at + 59 + value.len() as int) == value
            &&& b.subrange(b.len() - 6, b.len() as int) == "\n    }"@
        }),
        rootfs_body_text(rootfs_path, true).subrange(0, (126 + rootfs_path.len()) as int)
            == rootfs_body_text(rootfs_path, false).subrange(0, (126 + rootfs_path.len()) as int),
{
    let head = "{          \n        \"drive_id\": \"rootfs\",\n        \"path_on_host\": \""@;
    let mid = "\",\n        \"is_root_device\": true,\n        \"is_read_only\": "@;
    reveal_strlit("{          \n        \"drive_id\": \"rootfs\",\n        \"path_on_host\": \"");
    reveal_strlit("\",\n        \"is_root_device\": true,\n        \"is_read_only\": ");
    reveal_strlit("\",\n        ");
    reveal_strlit("\"is_root_device\": true,");
    reveal_strlit("\n        ");
    reveal_strlit("\"is_read_only\": ");
    reveal_strlit("true");
    reveal_strlit("false");
    reveal_strlit("\n    }");
    assert(head.len() == 67);
    assert(mid.len() == 59);
    let at: int = (67 + rootfs_path.len()) as int;
    assert(mid =~= "\",\n        "@ + "\"is_root_device\": true,"@ + "\n        "@ + "\"is_read_only\": "@);
    let b = rootfs_body_text(rootfs_path, is_read_only);
    let value = if is_read_only { "true"@ } else { "false"@ };
    assert(b =~= head + rootfs_path + mid + value + "\n    }"@);
    assert(b.subrange(0, 67) =~= head);
    assert(b.subrange(67, at) =~= rootfs_path);
    assert(b.subrange(at, at + 11) =~= mid.subrange(0, 11));
    assert(mid.subrange(0, 11) =~= "\",\n        "@);
    assert(b.subrange(at + 11, at + 34) =~= mid.subrange(11, 34));
    assert(mid.subrange(11, 34) =~= "\"is_root_device\": true,"@);
    assert(b.subrange(at + 34, at + 43) =~= mid.subrange(34, 43));
    assert(mid.subrange(34, 43) =~= "\n        "@);
    assert(b.subrange(at + 43, at + 59) =~= mid.subrange(43, 59));
    assert(mid.subrange(43, 59) =~= "\"is_read_only\": "@);
    assert(b.subrange(at + 59, at + 59 + value.len() as int) =~= value);
    assert(b.subrange(b.len() - 6, b.len() as int) =~= "\n    }"@);
    let bt = rootfs_body_text(rootfs_path, true);
    let bf = rootfs_body_text(rootfs_path, false);
    assert(bt =~= (head + rootfs_path + mid) + ("true"@ + "\n    }"@));
    assert(bf =~= (head + rootfs_path + mid) + ("false"@ + "\n    }"@));
    assert(bt.subrange(0, (126 + rootfs_path.len()) as int) =~= head + rootfs_path + mid);
    assert(bf.subrange(0, (126 + rootfs_path.len()) as int) =~= head + rootfs_path + mid);
}

} // verus!

