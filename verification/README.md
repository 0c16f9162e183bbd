# ovey

Verified core of the Ovey overlay-RDMA tools.

- `src/` is the library, verified with Verus:
  - `endianness`, `guid`, `lid`, `text`: byte order and the text forms of
    GUIDs and LIDs;
  - `types`, `urls`, `cli`: the messages between the daemon and the
    coordinator, their endpoints and how refusals are reported;
  - `ocp`, `ocp_send`, `ocp_recv`, `krequests`: the operations and
    attributes of the kernel protocol, the requests sent to the kernel (GUIDs
    in its big-endian order) and the decoding of what it sends back;
  - `regex`: full matches of the accepted name patterns;
  - `coordinator`: the coordinator's state (networks, devices, ports, GID,
    LID and QP translations), what each request does to it, the device
    registry, and proofs of the properties that span requests (`laws`).
- `tests/` runs the library on concrete values.
- `app/` is the coordinator program (configuration file, HTTP server, JSON);
  started with `new`, `delete` or `list` it is the command line tool, which
  talks to the kernel module over netlink and to the coordinator over REST.
