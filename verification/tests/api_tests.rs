use serverlessinterface::api::firecrackerapi::{
    boot_source_body, boot_source_request, http_request, instance_action_body, instance_control_request,
    network_body, network_request, rootfs_body, rootfs_request,
};
use serverlessinterface::api::snapshotapi::{format_uuid, snapshot_body, snapshot_request_text};
use serverlessinterface::api::systemapi::{deregister_network_commands, register_network_commands};
use serverlessinterface::vm::vminfo::VmStatus;

#[test]
fn boot_source_body_text() {
    let body = boot_source_body("/img/vmlinux", "console=ttyS0");
    assert_eq!(
        body,
        "{          \n        \"kernel_image_path\": \"/img/vmlinux\",\n        \"boot_args\": \"console=ttyS0\"\n    }"
    );
}

#[test]
fn boot_source_request_text() {
    let body = boot_source_body("/img/vmlinux", "console=ttyS0");
    let req = boot_source_request("/img/vmlinux", "console=ttyS0");
    let expected = format!(
        "PUT /boot-source HTTP/1.1\r\nHost: localhost\r\nAccept: application/json\r\nContent-Type: application/json\r\nContent-Length: {}\r\n\r\n{}",
        body.len(),
        body
    );
    assert_eq!(req, expected);
    assert!(req.contains("Content-Length: 99\r\n"));
}

#[test]
fn content_length_counts_utf8_bytes() {
    let req = http_request("PUT /x", true, "é");
    assert!(req.ends_with("Content-Length: 2\r\n\r\né"));
    let plain = http_request("PUT /x", false, "{}");
    assert_eq!(plain, "PUT /x HTTP/1.1\r\nHost: localhost\r\nContent-Type: application/json\r\nContent-Length: 2\r\n\r\n{}");
}

#[test]
fn rootfs_request_text() {
    assert_eq!(
        rootfs_body("/root.ext4", false),
        "{          \n        \"drive_id\": \"rootfs\",\n        \"path_on_host\": \"/root.ext4\",\n        \"is_root_device\": true,\n        \"is_read_only\": false\n    }"
    );
    let ro = rootfs_body("/r", true);
    assert!(ro.contains("\"is_read_only\": true\n"));
    let req = rootfs_request("/r", true);
    assert!(req.starts_with("PUT /drives/rootfs HTTP/1.1\r\nHost: localhost\r\nAccept: application/json\r\n"));
    assert!(req.ends_with(&format!("Content-Length: {}\r\n\r\n{}", ro.len(), ro)));
}

#[test]
fn network_request_text() {
    let body = network_body("net1", "06:00:AC:10:00:02", "tap1");
    assert_eq!(
        body,
        "{\n        \"iface_id\": \"net1\",\n        \"guest_mac\": \"06:00:AC:10:00:02\",\n        \"host_dev_name\": \"tap1\"\n    }"
    );
    let req = network_request("net1", "06:00:AC:10:00:02", "tap1");
    assert_eq!(
        req,
        format!(
            "PUT /network-interfaces/net1 HTTP/1.1\r\nHost: localhost\r\nContent-Type: application/json\r\nContent-Length: {}\r\n\r\n{}",
            body.len(),
            body
        )
    );
}

#[test]
fn instance_actions_for_each_state() {
    assert_eq!(instance_action_body(VmStatus::Running), Some("{\"action_type\": \"InstanceStart\"}"));
    assert_eq!(instance_action_body(VmStatus::Paused), Some("{\"state\": \"Paused\"}"));
    assert_eq!(instance_action_body(VmStatus::Resume), Some("{\"state\": \"Resumed\"}"));
    assert_eq!(instance_action_body(VmStatus::Terminated), Some("{\"action_type\": \"SendCtrlAltDel\"}"));
    assert_eq!(instance_action_body(VmStatus::Ready), None);
    assert_eq!(instance_action_body(VmStatus::Initializaing), None);
}

#[test]
fn instance_control_request_text() {
    let req = instance_control_request(VmStatus::Running).unwrap();
    assert_eq!(
        req,
        "PUT /actions HTTP/1.1\r\nHost: localhost\r\nAccept: application/json\r\nContent-Type: application/json\r\nContent-Length: 32\r\n\r\n{\"action_type\": \"InstanceStart\"}"
    );
    assert!(instance_control_request(VmStatus::Ready).is_none());
    assert!(instance_control_request(VmStatus::Initializaing).is_none());
}

#[test]
fn uuid_text_matches_uuid_crate() {
    for v in [0u128, 1, 0x0123_4567_89ab_cdef_0011_2233_4455_6677, u128::MAX, 0xa1a2a3a4_b1b2_c1c2_d1d2_d3d4d5d6d7d8] {
        assert_eq!(format_uuid(v), uuid::Uuid::from_u128(v).to_string());
    }
    assert_eq!(format_uuid(0x0123_4567_89ab_cdef_0011_2233_4455_6677), "01234567-89ab-cdef-0011-223344556677");
}

#[test]
fn snapshot_full_and_diff_bodies() {
    let u = 0x0123_4567_89ab_cdef_0011_2233_4455_6677u128;
    let full = snapshot_body("Paused", u, "Full", "snaps");
    assert_eq!(
        full,
        "{ \"snapshot_type\": \"Full\", \"snapshot_path\": \"./snaps/snapshot_01234567-89ab-cdef-0011-223344556677\", \"mem_file_path\": \"./snaps/mem_file_01234567-89ab-cdef-0011-223344556677\" }"
    );
    let diff = snapshot_body("Paused", u, "Diff", "d");
    assert!(diff.starts_with("{ \"snapshot_type\": \"Diff\", \"snapshot_path\": \"./d/snapshot_"));
    let req = snapshot_request_text("Paused", u, "Full", "snaps");
    assert_eq!(
        req,
        format!(
            "PUT /snapshot/create HTTP/1.1\r\nHost: localhost\r\nAccept: application/json\r\nContent-Type: application/json\r\nContent-Length: {}\r\n\r\n{}",
            full.len(),
            full
        )
    );
}

#[test]
fn snapshot_other_type_changes_state() {
    let body = snapshot_body("Paused", 7, "Other", "p");
    assert_eq!(body, "{ \"state\": \"Paused\" }");
    let req = snapshot_request_text("Resumed", 7, "full", "p");
    assert_eq!(
        req,
        "PATCH /vm HTTP/1.1\r\nHost: localhost\r\nAccept: application/json\r\nContent-Type: application/json\r\nContent-Length: 22\r\n\r\n{ \"state\": \"Resumed\" }"
    );
}

#[test]
fn host_network_commands() {
    assert_eq!(
        register_network_commands(300, 45, 1),
        vec![
            "sudo ip link del tap300 2> /dev/null || true".to_string(),
            "sudo ip tuntap add dev tap300 mode tap".to_string(),
            "sudo ip addr add 172.16.1.45/24 dev tap300".to_string(),
            "sudo ip link set dev tap300 up".to_string(),
        ]
    );
    assert_eq!(deregister_network_commands(4), vec!["sudo ip link del tap4".to_string()]);
}
