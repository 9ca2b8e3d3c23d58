# virtio_balloon

The decision logic of a virtio memory balloon device, verified with Verus.

- `src/config.rs`: the configuration space and how the driver reads it.
- `src/memory.rs`: the guest's memory, as `vm_memory` keeps it.
- `src/queue.rs`: the work on the inflate and the deflate queue.
- `src/handler.rs`: the event loop of the worker thread.
- `src/resize.rs`: requests for a new balloon size.
- `src/device.rs`: the device: features, activation and reset.
- `src/host.rs`: the handles that only the host can use.
- `src/error.rs`: errors.
- `src/laws/`: what holds of these together, as public proof functions.
- `app/`: the device on Linux: system calls, the worker thread, logging.

Where the logic cannot go on without a system call, it returns a step that names the call
and carries what continues after it. `app/` makes the call and hands back the outcome.
