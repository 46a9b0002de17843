# virtio

A verified VIRTIO abstraction for drivers: device identification, the discovery and use of
virtqueues, the life of a driver between registration and removal, and an entropy driver on top of
it.

The library in `src/` decides and does not touch the machine. A function that needs something of the VIRTIO core,
of the allocator or of the device returns a request, and another takes the answer. The callbacks of a driver call the
methods that the driver implements. `app/` runs
these decisions against a kernel, which it knows as the trait `Platform`.

| module      | contents                                                                   |
|-------------|----------------------------------------------------------------------------|
| `error`     | error codes, and their passage across the integer convention of the core   |
| `id`        | the device types and their numbers                                         |
| `memory`    | requests to the allocator                                                  |
| `device`    | devices, device ids, the discovery of virtqueues                           |
| `driver`    | the `Driver` trait, registration, the order of probe and removal           |
| `virtqueue` | virtqueues, scatter-gather tables, requests to virtqueues                  |
| `utils`     | integers with an explicit byte order                                       |
| `rng`       | the entropy driver                                                         |

The entropy driver is written as tasks that share four words of state (`rng::task`). What a task
does on its own is stated in `rng::solo`, and what holds of any number of tasks that run
concurrently in `rng::system`.
