# dynamic-hibernate

Creates a correctly-sized btrfs swapfile immediately before hibernation,
points the kernel resume pointers at it, and removes it after resume.

```
swapfile_kb = must_save_kb / zswap_ratio × 1.10 + vram_kb + 1024
```

## Layout

- `src/` — the verified library (Verus):
  - `text` — whitespace, trimming, splitting, decimal numbers;
  - `probe` — `/proc/meminfo`, zswap, `nvidia-smi` and `/proc/swaps` figures;
  - `sizing` — the swapfile size formula;
  - `power` — resume pointers, `/proc/mounts`, device numbers, and the
    resume configuration with its rollback;
  - `swap` — btrfs subvolume and swapfile creation, metadata, and the
    `create` / `cleanup` / `status` lifecycles;
  - `systemd` — boot menu hiding around hibernation;
  - `dbus` — what the desktop notifier shows for an error code;
  - `system` — the requests the lifecycles make and the answers they take.

  Every operation that touches the system is a state machine: it is given
  the outcome of its last request and answers with the next request, until
  it finishes. Contracts state each transition; `law_*` proof functions
  state what holds across them.
- `app/` — the program: command line, logging, file and process I/O, D-Bus,
  desktop notifications, JSON; it performs the requests of the library.
- `tests/` — tests of the library on concrete values.
