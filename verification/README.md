# gpu_compute

The core of a bare-metal NVIDIA GPU compute driver, written in Verus: PCI
detection, register procedures, Falcon firmware loading, VRAM allocation, FIFO
channels, compute dispatch and tensors.

The core performs no I/O. A hardware procedure is a function from the replies
received so far to its next step: one more register, configuration or memory
access, or its result. The contracts say which accesses are asked for, in which
order and with which values, and what the result is for every reply that the
hardware may give.

- `src/` is the verified library. `access` defines accesses and steps; `mmio`,
  `pci_config`, `falcon`, `fifo`, `memory`, `compute`, `tensor` and `driver` are
  the parts of the driver; `transfer` copies bytes through mapped memory;
  `shared` puts the VRAM allocator behind a spin lock; `text` formats numbers.
- `tests/` runs the library against simulated hardware.
- `app/` is the hardware side: port I/O, volatile accesses, the BAR1 aperture
  and logging.

Trusted are the spin lock of the `spin` crate (in `shared`), of which is claimed
only what it holds when it is made, and what Verus itself trusts.
