//! Host-side commands for the network of a micro-VM.

use vstd::prelude::*;

use crate::text::{int_decimal, push_i32_decimal};
use crate::vm::network::tap_name;

verus! {

/// The shell commands that create and bring up the tap device of VM `seeds`
/// with the address `172.16.<quotient>.<remainder>/24`.
pub open spec fn register_commands(seeds: int, remainder: int, quotient: int) -> Seq<Seq<char>> {
    let tap = tap_name(seeds);
    let ip = "172.16."@ + int_decimal(quotient) + "."@ + int_decimal(remainder);
    seq![
        "sudo ip link del "@ + tap + " 2> /dev/null || true"@,
        "sudo ip tuntap add dev "@ + tap + " mode tap"@,
        "sudo ip addr add "@ + ip + "/24"@ + " dev "@ + tap,
        "sudo ip link set dev "@ + tap + " up"@,
    ]
}

/// The shell commands that remove the tap device of VM `seeds`.
pub open spec fn deregister_commands(seeds: int) -> Seq<Seq<char>> {
    seq!["sudo ip link del "@ + tap_name(seeds)]
}

/// The views of a vector of strings.
pub open spec fn string_views(v: Seq<String>) -> Seq<Seq<char>> {
    v.map_values(|s: String| s@)
}

/// The commands that set up the host side of the network of VM `seeds`, in
/// the order in which they are run.
pub fn register_network_commands(seeds: i32, remainder: i32, quotient: i32) -> (r: Vec<String>)
    ensures
        string_views(r@) == register_commands(seeds as int, remainder as int, quotient as int),
{
    let mut tap = String::from_str("tap");
    push_i32_decimal(&mut tap, seeds);
    let mut ip = String::from_str("172.16.");
    push_i32_decimal(&mut ip, quotient);
    ip.append(".");
    push_i32_decimal(&mut ip, remainder);

    let mut first = String::from_str("sudo ip link del ");
    first.append(tap.as_str());
    first.append(" 2> /dev/null || true");

    let mut second = String::from_str("sudo ip tuntap add dev ");
    second.append(tap.as_str());
    second.append(" mode tap");

    let mut third = String::from_str("sudo ip addr add ");
    third.append(ip.as_str());
    third.append("/24");
    third.append(" dev ");
    third.append(tap.as_str());

    let mut fourth = String::from_str("sudo ip link set dev ");
    fourth.append(tap.as_str());
    fourth.append(" up");

    let mut commands: Vec<String> = Vec::new();
    commands.push(first);
    commands.push(second);
    commands.push(third);
    commands.push(fourth);
    assert(string_views(commands@) =~= register_commands(seeds as int, remainder as int, quotient as int));
    commands
}

/// The commands that tear down the host side of the network of VM `seeds`.
pub fn deregister_network_commands(seeds: i32) -> (r: Vec<String>)
    ensures
        string_views(r@) == deregister_commands(seeds as int),
{
    let mut tap = String::from_str("tap");
    push_i32_decimal(&mut tap, seeds);
    let mut command = String::from_str("sudo ip link del ");
    command.append(tap.as_str());
    let mut commands: Vec<String> = Vec::new();
    commands.push(command);
    assert(string_views(commands@) =~= deregister_commands(seeds as int));
    commands
}

} // verus!
