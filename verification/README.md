# virtio_devices

Virtio devices that are served to a virtual machine over vhost-user: a console with any number of
ports, and a GPU.

* `src/` is the library, verified with Verus. It holds everything that is decided or computed:
  * `events`: tokens of events, how enumerations are packed into them, and what is asked of an epoll
    instance;
  * `virtio`: queues and what devices have in common;
  * `vhost_user`: rings, the memory map of the guest, and the handler of requests of a front-end;
  * `console`: ports, control messages, and the workers of the console;
  * `gpu`: the set-up of the device, its commands, and its worker.
* `app/` is ordinary Rust around the library: sockets, epoll instances, threads and the mapping of
  the guest's memory. It performs what the library asks for and reports what came of it.
* `tests/` runs the library.

Queues stay those of the `virtio_queue` crate, in memory of the `vm_memory` crate. What the library
believes of these crates, and of the constants of the others it uses, stands in the contracts of the
functions marked `external_body`.
