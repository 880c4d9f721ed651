# xsk

`AF_XDP` sockets, with everything but the system calls verified by Verus.

- `src/` is the library. `ring` has the producer/consumer rings, `umem` the frames of the shared
  memory, `setup` the order of the system calls that set a socket up, `socket` the data path, and
  `sys` what the results of system calls mean. `ring_laws` and `socket_laws` state and prove what
  ties the operations together. `abi` has the kernel's constants and structures.
- `app/` makes the system calls, maps the rings, and moves words and descriptors between the
  library's rings and the memory that is shared with the kernel.
- `tests/` runs the library.

The library trusts five constants of the `libc` crate; each is wrapped in a function that says
what is claimed of it.
