//! Naming of the fixed-size pieces a memory file is cut into.

use vstd::prelude::*;

use crate::text::{nat_decimal, push_decimal};

verus! {

/// The size of each piece: 2 MiB.
pub const CHUNK_SIZE: usize = 0x20_0000;

/// The file that holds piece number `counter` (counting from 1):
/// `small_files/part_<counter>.txt`.
pub open spec fn part_path(counter: nat) -> Seq<char> {
    "small_files/part_"@ + nat_decimal(counter) + ".txt"@
}

/// The path of piece number `counter`.
pub fn part_file_path(counter: u64) -> (r: String)
    ensures
        r@ == part_path(counter as nat),
{
    let mut s = String::from_str("small_files/part_");
    push_decimal(&mut s, counter);
    s.append(".txt");
    s
}

} // verus!
