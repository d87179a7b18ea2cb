use serverlessinterface::vm::vmconfig::{initialize_step, report_message, InitReport, InitStep};
use serverlessinterface::vm::generator::{format_mac, generate_random_mac, generate_uuid};
use serverlessinterface::vm::network::{calculate_mod_and_divide, guest_ip_text, set_vmnetwork};
use serverlessinterface::vm::vminfo::{IpLibrary, VMnetowrk, VmInfo, VmRuntime, VmSetUp, VmStatus};

#[test]
fn ip_library_starts_at_one() {
    let mut lib = IpLibrary::new();
    assert_eq!(lib.seeds, 1);
    assert!(lib.freelist.is_empty());
    assert_eq!(lib.pop_freelist_or_seeds(), 1);
    assert_eq!(lib.pop_freelist_or_seeds(), 2);
    assert_eq!(lib.pop_freelist_or_seeds(), 3);
    assert_eq!(lib.seeds, 4);
}

#[test]
fn ip_library_release_then_pop_returns_released() {
    let mut lib = IpLibrary::new();
    let a = lib.pop_freelist_or_seeds();
    let _b = lib.pop_freelist_or_seeds();
    lib.relase_ip(a);
    assert_eq!(lib.freelist.len(), 1);
    assert_eq!(lib.pop_freelist_or_seeds(), a);
    assert!(lib.freelist.is_empty());
    assert_eq!(lib.seeds, 3);
    assert_eq!(lib.pop_freelist_or_seeds(), 3);
}

#[test]
fn ip_library_released_in_fifo_order() {
    let mut lib = IpLibrary::new();
    for _ in 0..5 {
        lib.pop_freelist_or_seeds();
    }
    lib.relase_ip(4);
    lib.relase_ip(2);
    lib.relase_ip(5);
    assert_eq!(lib.pop_freelist_or_seeds(), 4);
    assert_eq!(lib.pop_freelist_or_seeds(), 2);
    assert_eq!(lib.pop_freelist_or_seeds(), 5);
    assert_eq!(lib.pop_freelist_or_seeds(), 6);
}

#[test]
fn ip_library_never_hands_out_a_held_number() {
    let mut lib = IpLibrary::new();
    let mut held: Vec<i32> = Vec::new();
    for round in 0..20 {
        let id = lib.pop_freelist_or_seeds();
        assert!(!held.contains(&id));
        held.push(id);
        if round % 3 == 2 {
            let back = held.remove(0);
            lib.relase_ip(back);
        }
    }
}

#[test]
fn mod_and_divide_rounds_toward_zero() {
    assert_eq!(calculate_mod_and_divide(0), (0, 0));
    assert_eq!(calculate_mod_and_divide(254), (254, 0));
    assert_eq!(calculate_mod_and_divide(255), (0, 1));
    assert_eq!(calculate_mod_and_divide(300), (45, 1));
    assert_eq!(calculate_mod_and_divide(-1), (-1, 0));
    assert_eq!(calculate_mod_and_divide(-256), (-1, -1));
    assert_eq!(calculate_mod_and_divide(i32::MIN), (i32::MIN % 255, i32::MIN / 255));
}

#[test]
fn vm_network_from_seed() {
    let net = set_vmnetwork(300, "06:00:AC:10:00:02");
    assert_eq!(net.ip, "172.16.1.45");
    assert_eq!(net.iface_id, "net300");
    assert_eq!(net.guest_mac, "06:00:AC:10:00:02");
    assert_eq!(net.host_dev_name, "tap300");
}

#[test]
fn vm_network_first_vm() {
    let net = set_vmnetwork(1, "m");
    assert_eq!(net.ip, "172.16.0.1");
    assert_eq!(net.iface_id, "net1");
    assert_eq!(net.host_dev_name, "tap1");
}

#[test]
fn vm_network_negative_seed() {
    assert_eq!(guest_ip_text(-1), "172.16.0.-1");
    let net = set_vmnetwork(-300, "m");
    assert_eq!(net.ip, "172.16.-1.-45");
    assert_eq!(net.iface_id, "net-300");
    assert_eq!(net.host_dev_name, "tap-300");
}

#[test]
fn vmnetwork_new_keeps_fields() {
    let n = VMnetowrk::new("a".to_string(), "b".to_string(), "c".to_string(), "d".to_string());
    assert_eq!((n.ip.as_str(), n.iface_id.as_str(), n.guest_mac.as_str(), n.host_dev_name.as_str()), ("a", "b", "c", "d"));
}

#[test]
fn setup_socket_path_from_uid() {
    let s = VmSetUp::new(7, 42, "k".to_string(), "args".to_string(), "root".to_string(), true, 2, 256);
    assert_eq!(s.socket_path, "/tmp/firecracker_7.socket");
    assert_eq!(s.uid, 7);
    assert_eq!(s.uuid, 42);
    assert_eq!(s.kernel_image_path, "k");
    assert_eq!(s.boot_args, "args");
    assert_eq!(s.rootfs_path, "root");
    assert!(s.is_read_only);
    assert_eq!(s.vcpu_count, 2);
    assert_eq!(s.mem_size_mib, 256);
    let neg = VmSetUp::new(-12, 0, String::new(), String::new(), String::new(), false, 1, 1);
    assert_eq!(neg.socket_path, "/tmp/firecracker_-12.socket");
}

#[test]
fn setup_default_test_values() {
    let s = VmSetUp::default_test(3, 9);
    assert_eq!(s.socket_path, "/tmp/firecracker_3.socket");
    assert_eq!(s.kernel_image_path, "/home/shared/images/vmlinux-5.10.198");
    assert_eq!(s.boot_args, "console=ttyS0 reboot=k panic=1 pci=off");
    assert_eq!(s.rootfs_path, "/home/shared/images/ubuntu-22.04.ext4");
    assert!(!s.is_read_only);
    assert_eq!(s.vcpu_count, 1);
    assert_eq!(s.mem_size_mib, 128);
    let d = s.duplicate();
    assert_eq!(d.socket_path, s.socket_path);
    assert_eq!(d.uuid, 9);
}

#[test]
fn vminfo_and_runtime_keep_fields() {
    let setup = VmSetUp::default_test(5, 11);
    let info = VmInfo::new(5, 11, "image".to_string(), set_vmnetwork(5, "m"), VmStatus::Ready, setup);
    assert_eq!(info.uid, 5);
    assert_eq!(info.status, VmStatus::Ready);
    assert_eq!(info.config.socket_path, "/tmp/firecracker_5.socket");
    let mut rt = VmRuntime::new(1, 2, 3, 4, info);
    rt.update(10, 20, 30, 40);
    assert_eq!((rt.cpu, rt.memory, rt.storage, rt.pid), (10, 20, 30, 40));
    assert_eq!(rt.vm.uid, 5);
}

#[test]
fn mac_formatting_is_upper_hex() {
    assert_eq!(format_mac([0x06, 0x00, 0xac, 0x10, 0x00, 0x02]), "06:00:AC:10:00:02");
    assert_eq!(format_mac([0xff, 0xfe, 0x0a, 0xb0, 0x7f, 0x80]), "FF:FE:0A:B0:7F:80");
}

#[test]
fn random_mac_has_mac_shape() {
    let mac = generate_random_mac();
    assert_eq!(mac.len(), 17);
    for (i, c) in mac.chars().enumerate() {
        if i % 3 == 2 {
            assert_eq!(c, ':');
        } else {
            assert!(c.is_ascii_digit() || ('A'..='F').contains(&c));
        }
    }
}

#[test]
fn random_uuid_has_version_and_variant() {
    for _ in 0..8 {
        let u = generate_uuid();
        assert_eq!((u >> 76) & 0xf, 4);
        assert_eq!((u >> 62) & 0x3, 2);
        assert_eq!(uuid::Uuid::from_u128(u).get_version_num(), 4);
    }
    assert_ne!(generate_uuid(), generate_uuid());
}

#[test]
fn initialization_runs_in_order_and_stops_on_failure() {
    assert_eq!(initialize_step(InitStep::SetBootSource, true), (InitStep::SetRootfs, InitReport::BootSourceSet));
    assert_eq!(initialize_step(InitStep::SetRootfs, true), (InitStep::SetNetwork, InitReport::RootfsSet));
    assert_eq!(initialize_step(InitStep::SetNetwork, true), (InitStep::RegisterNetwork, InitReport::NetworkSet));
    assert_eq!(initialize_step(InitStep::RegisterNetwork, true), (InitStep::Finished, InitReport::NetworkRegistered));
    assert_eq!(initialize_step(InitStep::RegisterNetwork, false), (InitStep::Finished, InitReport::RegistrationFailed));
    assert_eq!(initialize_step(InitStep::SetBootSource, false), (InitStep::Finished, InitReport::BootSourceFailed));
    assert_eq!(initialize_step(InitStep::SetRootfs, false), (InitStep::Finished, InitReport::RootfsFailed));
    assert_eq!(initialize_step(InitStep::SetNetwork, false), (InitStep::Finished, InitReport::NetworkFailed));
    assert_eq!(report_message(InitReport::BootSourceSet), "Boot source set successfully");
    assert_eq!(report_message(InitReport::NetworkFailed), "Error setting network: ");
    let mut sent = Vec::new();
    let mut step = InitStep::SetBootSource;
    let answers = [true, false, true];
    let mut i = 0;
    while step != InitStep::Finished {
        sent.push(step);
        step = initialize_step(step, answers[i]).0;
        i += 1;
    }
    assert_eq!(sent, vec![InitStep::SetBootSource, InitStep::SetRootfs]);
    let mut all = Vec::new();
    let mut step = InitStep::SetBootSource;
    while step != InitStep::Finished {
        all.push(step);
        step = initialize_step(step, true).0;
    }
    assert_eq!(all, vec![InitStep::SetBootSource, InitStep::SetRootfs, InitStep::SetNetwork, InitStep::RegisterNetwork]);
}

#[test]
fn distinct_vms_get_distinct_addresses() {
    let mut seen = std::collections::HashSet::new();
    for seeds in -600..600 {
        let net = set_vmnetwork(seeds, "m");
        assert!(seen.insert(net.ip.clone()));
        assert_eq!(net.iface_id, format!("net{}", seeds));
        assert_eq!(net.host_dev_name, format!("tap{}", seeds));
        assert_eq!(VmSetUp::default_test(seeds, 0).socket_path, format!("/tmp/firecracker_{}.socket", seeds));
    }
}

#[test]
fn allocation_possible_until_overflow() {
    let mut lib = IpLibrary::new();
    assert!(lib.can_allocate());
    lib.seeds = i32::MAX;
    assert!(!lib.can_allocate());
    lib.relase_ip(7);
    assert!(lib.can_allocate());
    assert_eq!(lib.pop_freelist_or_seeds(), 7);
    assert_eq!(lib.seeds, i32::MAX);
}
