//! Registering a new micro-VM: choosing its number, identity and network,
//! and recording it in the table of known VMs.

use std::collections::HashMap;
use vstd::prelude::*;

use crate::vm::generator::{generate_random_mac, generate_uuid, is_random_uuid, mac_text};
use crate::vm::network::{guest_ip, iface_name, set_vmnetwork, tap_name};
use crate::vm::vminfo::{
    allocation_sound,
    can_pop,
    can_pop_many,
    lemma_pops_hand_out_distinct,
    pop_many,
    pop_outcome,
    socket_path_for,
    test_boot_args,
    test_kernel_image,
    test_rootfs,
    IpLibrary,
    VmInfo,
    VmSetUp,
    VmStatus,
};

verus! {

broadcast use vstd::std_specs::hash::group_hash_axioms;

/// `setup` is the test configuration of VM `uid` with some random UUID.
pub open spec fn is_test_setup(setup: VmSetUp, uid: i32) -> bool {
    &&& setup.uid == uid
    &&& is_random_uuid(setup.uuid)
    &&& setup.socket_path@ == socket_path_for(uid as int)
    &&& setup.kernel_image_path@ == test_kernel_image()
    &&& setup.boot_args@ == test_boot_args()
    &&& setup.rootfs_path@ == test_rootfs()
    &&& !setup.is_read_only
    &&& setup.vcpu_count == 1
    &&& setup.mem_size_mib == 128
}

/// `info` records VM `uid` as being initialised with the configuration
/// `setup`, the image name `image`, and a network for `uid` with a random MAC.
pub open spec fn is_new_vm_record(info: VmInfo, uid: i32, setup: VmSetUp) -> bool {
    &&& info.uid == uid
    &&& info.uuid == setup.uuid
    &&& info.image@ == "image"@
    &&& info.status == VmStatus::Initializaing
    &&& info.config == setup
    &&& info.network.ip@ == guest_ip(uid as int)
    &&& info.network.iface_id@ == iface_name(uid as int)
    &&& info.network.host_dev_name@ == tap_name(uid as int)
    &&& exists|b: Seq<u8>| b.len() == 6 && info.network.guest_mac@ == mac_text(b)
}

/// Registers a new VM: takes a number from the allocator, gives the VM a
/// random MAC address and UUID, records it in `vm_map` under its number as
/// initialising, and returns the number with the VM's test configuration.
pub fn metadata(iplibrary: &mut IpLibrary, vm_map: &mut HashMap<i32, VmInfo>) -> (r: (i32, VmSetUp))
    requires
        can_pop(old(iplibrary).seeds, old(iplibrary).freelist@),
    ensures
        (r.0, final(iplibrary).seeds, final(iplibrary).freelist@) == pop_outcome(
            old(iplibrary).seeds,
            old(iplibrary).freelist@,
        ),
        is_test_setup(r.1, r.0),
        final(vm_map)@.dom() == old(vm_map)@.dom().insert(r.0),
        forall|k: i32| k != r.0 && #[trigger] old(vm_map)@.contains_key(k) ==> final(vm_map)@[k]
            == old(vm_map)@[k],
        is_new_vm_record(final(vm_map)@[r.0], r.0, r.1),
{
    let uid: i32 = iplibrary.pop_freelist_or_seeds();
    let mac = generate_random_mac();
    let uuid: u128 = generate_uuid();
    let network = set_vmnetwork(uid, mac.as_str());
    let vm = VmSetUp::default_test(uid, uuid);
    let vminfo = VmInfo::new(
        uid,
        uuid,
        String::from_str("image"),
        network,
        VmStatus::Initializaing,
        vm.duplicate(),
    );
    vm_map.insert(uid, vminfo);
    (uid, vm)
}

/// Registrations made one after another from the allocator state
/// `(seeds, free)` (concurrent callers take turns under a shared lock) get
/// the numbers `pop_many` gives: pairwise different, and none of them already
/// a key of the table, when every key of the table is a number in use. Each
/// registration adds exactly its own number to the table's keys (the
/// `ensures` of `metadata`), so `k` registrations add `k` new keys.
pub proof fn lemma_registrations_get_new_numbers(
    seeds: i32,
    free: Seq<i32>,
    held: Set<i32>,
    keys: Set<i32>,
    k: nat,
)
    requires
        allocation_sound(seeds, free, held),
        keys.subset_of(held),
        can_pop_many(seeds, free, k),
    ensures
        ({
            let (ids, seeds2, free2) = pop_many(seeds, free, k);
            &&& ids.len() == k
            &&& ids.no_duplicates()
            &&& forall|i: int| 0 <= i < ids.len() ==> !keys.contains(#[trigger] ids[i])
        }),
{
    lemma_pops_hand_out_distinct(seeds, free, held, k);
    let (ids, seeds2, free2) = pop_many(seeds, free, k);
    assert forall|i: int| 0 <= i < ids.len() implies !keys.contains(#[trigger] ids[i]) by {
        assert(!held.contains(ids[i]));
    }
}

} // verus!
