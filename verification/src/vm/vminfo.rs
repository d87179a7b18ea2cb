//! The data kept about each micro-VM, and the allocator of VM numbers.

use std::collections::VecDeque;
use vstd::prelude::*;

use crate::text::{int_decimal, lemma_cancel_affixes, lemma_int_decimal_injective, push_i32_decimal};

verus! {

/// The boot configuration of one micro-VM.
#[derive(Debug, Clone)]
pub struct VmSetUp {
    pub uid: i32,
    /// The VM's UUID, as the 128-bit big-endian value of its 16 bytes.
    pub uuid: u128,
    pub socket_path: String,
    pub kernel_image_path: String,
    pub boot_args: String,
    pub rootfs_path: String,
    pub is_read_only: bool,
    pub vcpu_count: u32,
    pub mem_size_mib: u32,
}

/// The API socket of the VM numbered `uid`: `/tmp/firecracker_<uid>.socket`.
pub open spec fn socket_path_for(uid: int) -> Seq<char> {
    "/tmp/firecracker_"@ + int_decimal(uid) + ".socket"@
}

/// Different VM numbers get different API sockets.
pub proof fn lemma_distinct_vms_distinct_sockets(uid1: int, uid2: int)
    requires
        uid1 != uid2,
    ensures
        socket_path_for(uid1) != socket_path_for(uid2),
{
    if socket_path_for(uid1) == socket_path_for(uid2) {
        lemma_cancel_affixes("/tmp/firecracker_"@, int_decimal(uid1), int_decimal(uid2), ".socket"@);
        lemma_int_decimal_injective(uid1, uid2);
    }
}

/// The kernel image that test VMs boot.
pub open spec fn test_kernel_image() -> Seq<char> {
    "/home/shared/images/vmlinux-5.10.198"@
}

/// The kernel command line of test VMs.
pub open spec fn test_boot_args() -> Seq<char> {
    "console=ttyS0 reboot=k panic=1 pci=off"@
}

/// The root file system image of test VMs.
pub open spec fn test_rootfs() -> Seq<char> {
    "/home/shared/images/ubuntu-22.04.ext4"@
}

fn socket_path_of(uid: i32) -> (r: String)
    ensures
        r@ == socket_path_for(uid as int),
{
    let mut s = String::from_str("/tmp/firecracker_");
    push_i32_decimal(&mut s, uid);
    s.append(".socket");
    s
}

impl VmSetUp {
    pub fn new(
        uid: i32,
        uuid: u128,
        kernel_image_path: String,
        boot_args: String,
        rootfs_path: String,
        is_read_only: bool,
        vcpu_count: u32,
        mem_size_mib: u32,
    ) -> (r: Self)
        ensures
            r.uid == uid,
            r.uuid == uuid,
            r.socket_path@ == socket_path_for(uid as int),
            r.kernel_image_path == kernel_image_path,
            r.boot_args == boot_args,
            r.rootfs_path == rootfs_path,
            r.is_read_only == is_read_only,
            r.vcpu_count == vcpu_count,
            r.mem_size_mib == mem_size_mib,
    {
        let socket_path = socket_path_of(uid);
        VmSetUp {
            uid,
            uuid,
            socket_path,
            kernel_image_path,
            boot_args,
            rootfs_path,
            is_read_only,
            vcpu_count,
            mem_size_mib,
        }
    }

    /// The configuration used for test VMs: the shared test kernel and root
    /// file system, writable, one vCPU and 128 MiB of memory.
    pub fn default_test(uid: i32, uuid: u128) -> (r: Self)
        ensures
            r.uid == uid,
            r.uuid == uuid,
            r.socket_path@ == socket_path_for(uid as int),
            r.kernel_image_path@ == test_kernel_image(),
            r.boot_args@ == test_boot_args(),
            r.rootfs_path@ == test_rootfs(),
            !r.is_read_only,
            r.vcpu_count == 1,
            r.mem_size_mib == 128,
    {
        let socket_path = socket_path_of(uid);
        VmSetUp {
            uid: uid,
            uuid: uuid,
            socket_path: socket_path,
            kernel_image_path: String::from_str("/home/shared/images/vmlinux-5.10.198"),
            boot_args: String::from_str("console=ttyS0 reboot=k panic=1 pci=off"),
            rootfs_path: String::from_str("/home/shared/images/ubuntu-22.04.ext4"),
            is_read_only: false,
            vcpu_count: 1,
            mem_size_mib: 128,
        }
    }

    /// A field-by-field copy.
    pub fn duplicate(&self) -> (r: Self)
        ensures
            r == *self,
    {
        VmSetUp {
            uid: self.uid,
            uuid: self.uuid,
            socket_path: self.socket_path.clone(),
            kernel_image_path: self.kernel_image_path.clone(),
            boot_args: self.boot_args.clone(),
            rootfs_path: self.rootfs_path.clone(),
            is_read_only: self.is_read_only,
            vcpu_count: self.vcpu_count,
            mem_size_mib: self.mem_size_mib,
        }
    }
}

/// The life-cycle states of a micro-VM.
#[derive(Debug, Clone, Copy, PartialEq, Eq, Structural)]
pub enum VmStatus {
    Initializaing,
    Ready,
    Running,
    Paused,
    Resume,
    Terminated,
}

/// Everything recorded about one micro-VM.
#[derive(Debug, Clone)]
pub struct VmInfo {
    pub uid: i32,
    pub uuid: u128,
    pub image: String,
    pub network: VMnetowrk,
    pub status: VmStatus,
    pub config: VmSetUp,
}

impl VmInfo {
    pub fn new(
        uid: i32,
        uuid: u128,
        image: String,
        network: VMnetowrk,
        status: VmStatus,
        config: VmSetUp,
    ) -> (r: Self)
        ensures
            r.uid == uid,
            r.uuid == uuid,
            r.image == image,
            r.network == network,
            r.status == status,
            r.config == config,
    {
        VmInfo { uid, uuid, image, network, status, config }
    }
}

/// The network attachment of one micro-VM.
#[derive(Debug, Clone)]
pub struct VMnetowrk {
    /// The guest address, `172.16.x.y`.
    pub ip: String,
    /// The interface name inside Firecracker, `net<n>`.
    pub iface_id: String,
    /// The guest MAC address.
    pub guest_mac: String,
    /// The host tap device, `tap<n>`.
    pub host_dev_name: String,
}

impl VMnetowrk {
    pub fn new(ip: String, iface_id: String, guest_mac: String, host_dev_name: String) -> (r: Self)
        ensures
            r.ip == ip,
            r.iface_id == iface_id,
            r.guest_mac == guest_mac,
            r.host_dev_name == host_dev_name,
    {
        VMnetowrk { ip, iface_id, guest_mac, host_dev_name }
    }
}

/// Hands out VM numbers: released numbers first, in the order in which they
/// were released, and otherwise the next number never handed out.
#[derive(Debug)]
pub struct IpLibrary {
    /// The next number that has never been handed out.
    pub seeds: i32,
    /// Released numbers, oldest first.
    pub freelist: VecDeque<i32>,
}

/// What a request for a number gives, from the state `(seeds, free)`: the
/// number handed out, then the new `seeds` and the new free list.
pub open spec fn pop_outcome(seeds: i32, free: Seq<i32>) -> (i32, i32, Seq<i32>) {
    if free.len() > 0 {
        (free[0], seeds, free.drop_first())
    } else {
        (seeds, (seeds + 1) as i32, free)
    }
}

/// Whether a request for a number can be served without overflowing `seeds`.
pub open spec fn can_pop(seeds: i32, free: Seq<i32>) -> bool {
    free.len() > 0 || seeds < i32::MAX
}

/// The allocator state `(seeds, free)` is consistent with the numbers in
/// `held` being in use: every number below `seeds` (from 1 on) is either held
/// or free, never both, and no number is free twice.
pub open spec fn allocation_sound(seeds: i32, free: Seq<i32>, held: Set<i32>) -> bool {
    &&& 1 <= seeds
    &&& free.no_duplicates()
    &&& forall|i: int| 0 <= i < free.len() ==> 1 <= #[trigger] free[i] < seeds && !held.contains(free[i])
    &&& forall|x: i32| #[trigger] held.contains(x) ==> 1 <= x < seeds
    &&& forall|x: i32| 1 <= x < seeds ==> #[trigger] held.contains(x) || free.contains(x)
}

impl IpLibrary {
    /// A fresh allocator: nothing released, next number 1.
    pub fn new() -> (r: Self)
        ensures
            r.seeds == 1,
            r.freelist@ == Seq::<i32>::empty(),
            allocation_sound(r.seeds, r.freelist@, Set::empty()),
    {
        IpLibrary { seeds: 1, freelist: VecDeque::new() }
    }

    /// Whether a number can be handed out: one has been released, or the
    /// next fresh number does not overflow.
    pub fn can_allocate(&self) -> (r: bool)
        ensures
            r == can_pop(self.seeds, self.freelist@),
    {
        self.freelist.len() > 0 || self.seeds < i32::MAX
    }

    /// Takes the oldest released number, or else the next fresh one.
    pub fn pop_freelist_or_seeds(&mut self) -> (id: i32)
        requires
            can_pop(old(self).seeds, old(self).freelist@),
        ensures
            (id, final(self).seeds, final(self).freelist@) == pop_outcome(
                old(self).seeds,
                old(self).freelist@,
            ),
    {
        if let Some(first_item) = self.freelist.pop_front() {
            first_item
        } else {
            let seeds: i32 = self.seeds;
            self.seeds = self.seeds + 1;
            seeds
        }
    }

    /// Returns a number to the allocator; it is handed out again after the
    /// numbers released before it.
    pub fn relase_ip(&mut self, ip: i32)
        ensures
            final(self).seeds == old(self).seeds,
            final(self).freelist@ == old(self).freelist@.push(ip),
    {
        self.freelist.push_back(ip);
    }
}

/// A number handed out by the allocator is never one that is in use, and
/// handing it out keeps the allocator consistent with it now being in use.
pub proof fn lemma_pop_hands_out_unused(seeds: i32, free: Seq<i32>, held: Set<i32>)
    requires
        allocation_sound(seeds, free, held),
        can_pop(seeds, free),
    ensures
        ({
            let (id, seeds2, free2) = pop_outcome(seeds, free);
            &&& !held.contains(id)
            &&& 1 <= id
            &&& allocation_sound(seeds2, free2, held.insert(id))
        }),
{
    let (id, seeds2, free2) = pop_outcome(seeds, free);
    if free.len() > 0 {
        assert(free[0] == id);
        assert forall|i: int| 0 <= i < free2.len() implies 1 <= #[trigger] free2[i] < seeds2
            && !held.insert(id).contains(free2[i]) by {
            assert(free2[i] == free[i + 1]);
        }
        assert forall|x: i32| 1 <= x < seeds2 implies #[trigger] held.insert(id).contains(x)
            || free2.contains(x) by {
            if !held.contains(x) && x != id {
                assert(free.contains(x));
                let k = choose|k: int| 0 <= k < free.len() && free[k] == x;
                assert(k != 0);
                assert(free2[k - 1] == x);
            }
        }
    } else {
        assert forall|x: i32| 1 <= x < seeds2 implies #[trigger] held.insert(id).contains(x)
            || free2.contains(x) by {
            if x < seeds {
                assert(held.contains(x) || free.contains(x));
            }
        }
    }
}

/// Releasing a number that is in use keeps the allocator consistent with it
/// no longer being in use.
pub proof fn lemma_release_keeps_sound(seeds: i32, free: Seq<i32>, held: Set<i32>, ip: i32)
    requires
        allocation_sound(seeds, free, held),
        held.contains(ip),
    ensures
        allocation_sound(seeds, free.push(ip), held.remove(ip)),
{
    let free2 = free.push(ip);
    assert forall|i: int, j: int| 0 <= i < free2.len() && 0 <= j < free2.len() && i != j
        implies free2[i] != free2[j] by {
        if i < free.len() && j < free.len() {
        } else if i < free.len() {
            assert(!held.contains(free[i]));
        } else {
            assert(!held.contains(free[j]));
        }
    }
    assert forall|i: int| 0 <= i < free2.len() implies 1 <= #[trigger] free2[i] < seeds
        && !held.remove(ip).contains(free2[i]) by {
        if i < free.len() {
            assert(free2[i] == free[i]);
        }
    }
    assert forall|x: i32| 1 <= x < seeds implies #[trigger] held.remove(ip).contains(x)
        || free2.contains(x) by {
        if x == ip {
            assert(free2[free.len() as int] == ip);
        } else if free.contains(x) {
            let k = choose|k: int| 0 <= k < free.len() && free[k] == x;
            assert(free2[k] == x);
        }
    }
}

/// A number released into an empty free list is the next one handed out,
/// and handing it out restores the allocator to where it was.
pub proof fn lemma_release_then_pop(seeds: i32, free: Seq<i32>, ip: i32)
    requires
        free.len() == 0,
    ensures
        pop_outcome(seeds, free.push(ip)) == (ip, seeds, free),
{
    assert(free.push(ip).drop_first() =~= free);
}

/// Released numbers come back in the order in which they were released.
pub proof fn lemma_release_order(seeds: i32, free: Seq<i32>, a: i32, b: i32)
    requires
        free.len() == 0,
    ensures
        ({
            let (first, s1, f1) = pop_outcome(seeds, free.push(a).push(b));
            let (second, s2, f2) = pop_outcome(s1, f1);
            first == a && second == b && s2 == seeds && f2 == free
        }),
{
    assert(free.push(a).push(b).drop_first() =~= seq![b]);
    assert(seq![b].drop_first() =~= free);
}

/// What `k` requests in a row give from the state `(seeds, free)`: the
/// numbers handed out, in order, then the final `seeds` and free list.
pub open spec fn pop_many(seeds: i32, free: Seq<i32>, k: nat) -> (Seq<i32>, i32, Seq<i32>)
    decreases k,
{
    if k == 0 {
        (Seq::empty(), seeds, free)
    } else {
        let (id, s1, f1) = pop_outcome(seeds, free);
        let (ids, s2, f2) = pop_many(s1, f1, (k - 1) as nat);
        (seq![id] + ids, s2, f2)
    }
}

/// Whether `k` requests in a row can be served without overflowing `seeds`.
pub open spec fn can_pop_many(seeds: i32, free: Seq<i32>, k: nat) -> bool {
    k <= free.len() + (i32::MAX - seeds)
}

/// However many requests are served in a row (as the lock that `metadata`'s
/// callers share makes of concurrent registrations), the numbers handed out
/// are pairwise different and none of them was in use; the allocator stays
/// consistent with them now being in use.
pub proof fn lemma_pops_hand_out_distinct(seeds: i32, free: Seq<i32>, held: Set<i32>, k: nat)
    requires
        allocation_sound(seeds, free, held),
        can_pop_many(seeds, free, k),
    ensures
        ({
            let (ids, seeds2, free2) = pop_many(seeds, free, k);
            &&& ids.len() == k
            &&& ids.no_duplicates()
            &&& forall|i: int| 0 <= i < ids.len() ==> !held.contains(#[trigger] ids[i])
            &&& allocation_sound(seeds2, free2, held.union(ids.to_set()))
        }),
    decreases k,
{
    if k == 0 {
        let (ids, seeds2, free2) = pop_many(seeds, free, k);
        assert(held.union(ids.to_set()) =~= held);
    } else {
        lemma_pop_hands_out_unused(seeds, free, held);
        let (id, s1, f1) = pop_outcome(seeds, free);
        let held1 = held.insert(id);
        assert(can_pop_many(s1, f1, (k - 1) as nat));
        lemma_pops_hand_out_distinct(s1, f1, held1, (k - 1) as nat);
        let (rest, s2, f2) = pop_many(s1, f1, (k - 1) as nat);
        let ids = seq![id] + rest;
        assert(pop_many(seeds, free, k) == (ids, s2, f2));
        assert forall|i: int| 0 <= i < ids.len() implies !held.contains(#[trigger] ids[i]) by {
            if i > 0 {
                assert(ids[i] == rest[i - 1]);
                assert(!held1.contains(rest[i - 1]));
            }
        }
        assert forall|i: int, j: int| 0 <= i < ids.len() && 0 <= j < ids.len() && i != j
            implies ids[i] != ids[j] by {
            if i > 0 && j > 0 {
                assert(ids[i] == rest[i - 1] && ids[j] == rest[j - 1]);
            } else if i == 0 {
                assert(ids[j] == rest[j - 1]);
                assert(!held1.contains(rest[j - 1]));
            } else {
                assert(ids[i] == rest[i - 1]);
                assert(!held1.contains(rest[i - 1]));
            }
        }
        assert(held1.union(rest.to_set()) =~= held.union(ids.to_set())) by {
            assert forall|x: i32| held.union(ids.to_set()).contains(x) implies held1.union(rest.to_set()).contains(x) by {
                if ids.to_set().contains(x) && x != id {
                    let m = choose|m: int| 0 <= m < ids.len() && ids[m] == x;
                    assert(rest[m - 1] == x);
                    assert(rest.to_set().contains(x));
                }
            }
            assert forall|x: i32| held1.union(rest.to_set()).contains(x) implies held.union(ids.to_set()).contains(x) by {
                if x == id {
                    assert(ids[0] == id);
                    assert(ids.to_set().contains(x));
                } else if rest.to_set().contains(x) {
                    let m = choose|m: int| 0 <= m < rest.len() && rest[m] == x;
                    assert(ids[m + 1] == x);
                    assert(ids.to_set().contains(x));
                }
            }
        }
    }
}

/// Resources in use by a running micro-VM.
pub struct VmRuntime {
    pub cpu: u32,
    pub memory: u32,
    pub storage: u32,
    pub pid: u32,
    pub vm: VmInfo,
}

impl VmRuntime {
    pub fn new(cpu: u32, memory: u32, storage: u32, pid: u32, vm: VmInfo) -> (r: Self)
        ensures
            r.cpu == cpu,
            r.memory == memory,
            r.storage == storage,
            r.pid == pid,
            r.vm == vm,
    {
        VmRuntime { cpu, memory, storage, pid, vm }
    }

    /// Records new usage figures; the VM it describes is unchanged.
    pub fn update(&mut self, cpu: u32, memory: u32, storage: u32, pid: u32)
        ensures
            final(self).cpu == cpu,
            final(self).memory == memory,
            final(self).storage == storage,
            final(self).pid == pid,
            final(self).vm == old(self).vm,
    {
        self.cpu = cpu;
        self.memory = memory;
        self.storage = storage;
        self.pid = pid;
    }
}

} // verus!
