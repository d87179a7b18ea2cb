# serverlessinterface

A configuration and control layer for Firecracker micro-VMs, and a small
FUSE file system that keeps inode attributes and directory listings as files.

The library (`src/`) is written in Verus and verified:

- `vm/`: the data kept about each VM, the allocator of VM numbers
  (`IpLibrary`), guest addressing, random identifiers, and the order in which
  a new instance is configured.
- `api/`: the exact text of the HTTP requests sent to the Firecracker API
  socket and of the host commands that create tap devices.
- `fuse/`: inode attributes, file handles, directory listings, paths under the
  data directory, and the decisions of each file-system operation.
- `encrypt.rs`, `chunks.rs`, `registry.rs`, `text.rs`: digests and
  authenticated encryption, memory-file piece names, registering a new VM, and
  text rendering.

The program (`app/`) does the I/O: it talks to the API socket with tokio,
runs host commands, mounts the file system with `fuser` and stores its state
with `bincode`. The requests, the order of the configuration steps, and the
checks of each file-system operation (including which error a refused
operation gets) come from the library; the program replies in the order in
which its disk reads fail.
