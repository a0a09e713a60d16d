# cudyos

The programs of a small Nix-based router operating system (for the Cudy X6):
an init process, a network configuration daemon, a configuration tool and a
message bus. The decisions these programs make are a library verified with
Verus; the programs around it do the system calls and the netlink traffic.

- `src/config.rs` — the configuration model and its defaults.
- `src/initd/` — early mounts (`early`), the tasks and how they are started
  (`task`), their supervision (`supervisor`), errors, descriptors and the
  decisions around system calls (`util`).
- `src/netconf/` — the plain-value model of netlink link messages
  (`netlink`), reconciliation of the interfaces with the configuration
  (`network`), reading link dumps (`rtnl`), and the network process's tasks
  and poll set.
- `src/nanobus/` — subscription routing of the bus and the receive loop of
  its in-process broadcast channel.
- `app/` — the binaries: system calls, tokio, rtnetlink, clap and serde.
