# lupos_net

The networking layer of a small kernel, as a Verus library: every function
in `src/` is verified by Verus against its contract. One function states no
result: `SkBuff::cloned`, whose answer depends on how many clones of a
buffer are alive.

- `src/` — the verified library: socket buffers, IPv4/IPv6 framing and the
  Internet checksum, TCP and UDP, the socket layer's rules (address
  layouts, option calls, control messages, receive queues, connect and
  bind decisions, netlink and audit messages, DNS and ICMP echo replies),
  interface `ioctl` requests, netfilter matches, traffic-control metadata
  and ematches, the IPv6/MPLS niche protocols (MPLS GSO, IOAM, Mobile
  IPv6), RxRPC, TIPC, NFC, uevents, and the sysctl and statistics tables of
  several protocol families.
- `app/` — the kernel-facing side: the global tables behind spin locks
  (devices, sockets and bound addresses, uevent queue, audit status and
  log, IOAM tables) and the entry points that take the locks and call the
  library.
- `tests/` — tests of the library's public functions on concrete values.

Laws that relate several calls are public proof functions next to the
functions they speak of (their names start with `lemma_`).
