# vmm

The device models and machine rules of a virtual machine monitor, verified
with Verus.

The library holds what decides: what a guest's access does to a device, what an
operator's text means, which devices a machine has and how they come and go.
Every guest action is a function of the device's state, the access and guest
memory, and its contract says what the state is afterwards. What has to be done
outside (pulse a pin, move a mapping, stop the vCPUs) comes back as a value.

- `src/bytes.rs`, `text.rs`, `access.rs`, `mem.rs`, `pci.rs`, `intr.rs`,
  `ratelimit.rs`: what the rest is built on.
- `src/uart/`: the 16550 UART, its port window and its output queue.
- `src/ps2/`: the keyboard and mouse controller.
- `src/xhci/`: the USB host controller and its tablet. `model.rs` says what each
  register write and each ring does, and `laws.rs` what holds across them.
- `src/fbuf/`: the framebuffer, the wire format of remote clients and a
  client's session.
- `src/hyperv/`: the enlightenment, its overlay pages and its migration.
- `src/machine/`: device specs, the device registry, hotplug of devices, CPUs
  and memory, the pause gate, the power-management and firmware phases, and the
  shutdown watchdog.
- `app/`: sockets, terminals, threads and signals around the library.
- `tests/`: the library run on concrete values.
