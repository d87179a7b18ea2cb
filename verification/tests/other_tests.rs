use std::collections::HashMap;

use serverlessinterface::chunks::{part_file_path, CHUNK_SIZE};
use serverlessinterface::encrypt::{digest_hex, md5_hex, seal_and_open, CryptoError};
use serverlessinterface::registry::metadata;
use serverlessinterface::vm::vminfo::{IpLibrary, VmInfo, VmStatus};

#[test]
fn md5_of_alphabet() {
    assert_eq!(md5_hex(b"abcdefghijklmnopqrstuvwxyz"), "c3fcd3d76192e4007dfb496cca67e13b");
    assert_eq!(md5_hex(b""), "d41d8cd98f00b204e9800998ecf8427e");
}

#[test]
fn digest_hex_is_lower_case_pairs() {
    let d = [0u8, 1, 0x0a, 0xff, 0x10, 0xab, 0, 0, 0, 0, 0, 0, 0, 0, 0, 0x7f];
    assert_eq!(digest_hex(&d), "00010aff10ab0000000000000000007f");
    assert_eq!(digest_hex(&d), format!("{:x}", md5::Digest(d)));
}

#[test]
fn seal_then_open_gives_message_back() {
    let key = [7u8; 32];
    let nonce = [3u8; 12];
    let (ciphertext, plaintext) = seal_and_open(&key, &nonce, b"plaintext message").unwrap();
    assert_eq!(plaintext, b"plaintext message");
    assert_eq!(ciphertext.len(), 33);
    assert_ne!(&ciphertext[..17], b"plaintext message");
    let (again, _) = seal_and_open(&key, &nonce, b"plaintext message").unwrap();
    assert_eq!(again, ciphertext);
    let (other, _) = seal_and_open(&[8u8; 32], &nonce, b"plaintext message").unwrap();
    assert_ne!(other, ciphertext);
    let (empty, back) = seal_and_open(&key, &nonce, b"").unwrap();
    assert_eq!(empty.len(), 16);
    assert!(back.is_empty());
    let _unused: Option<CryptoError> = None;
}

#[test]
fn chunk_paths() {
    assert_eq!(CHUNK_SIZE, 2 * 1024 * 1024);
    assert_eq!(part_file_path(1), "small_files/part_1.txt");
    assert_eq!(part_file_path(1234), "small_files/part_1234.txt");
}

#[test]
fn metadata_registers_vm() {
    let mut lib = IpLibrary::new();
    let mut map: HashMap<i32, VmInfo> = HashMap::new();
    let (uid, setup) = metadata(&mut lib, &mut map);
    assert_eq!(uid, 1);
    assert_eq!(setup.uid, 1);
    assert_eq!(setup.socket_path, "/tmp/firecracker_1.socket");
    let info = &map[&1];
    assert_eq!(info.uid, 1);
    assert_eq!(info.uuid, setup.uuid);
    assert_eq!(info.image, "image");
    assert_eq!(info.status, VmStatus::Initializaing);
    assert_eq!(info.network.ip, "172.16.0.1");
    assert_eq!(info.network.iface_id, "net1");
    assert_eq!(info.network.host_dev_name, "tap1");
    assert_eq!(info.network.guest_mac.len(), 17);
    assert_eq!(info.config.socket_path, setup.socket_path);
    let (uid2, _) = metadata(&mut lib, &mut map);
    assert_eq!(uid2, 2);
    assert_eq!(map.len(), 2);
    lib.relase_ip(1);
    let (uid3, _) = metadata(&mut lib, &mut map);
    assert_eq!(uid3, 1);
    assert_eq!(map.len(), 2);
}
