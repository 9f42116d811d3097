# dali_tools

Tools for DALI lighting buses: addresses and commands of control gear, the
drivers' logic for several USB and serial adapters, a simulator of control
gear on a simulated bus, and a sequencer of light changes.

The library in `src/` is verified with Verus: each public function states
what it returns or changes, and laws that span functions (round trips of
encodings, what a fade reaches, what the scheduler keeps) are proved as
proof functions beside them.

- `address`, `address_set`, `cmd_defs`, `command_utils`, `status`, `device_type`, `fade`:
  addresses, sets of short addresses, commands and their bytes.
- `driver`, `send_flags`: frames, bus events, results and send options.
- `dgw521`, `dali_rpi`, `helvar`, `pru`, `dali_msg`, `dummy`, `serial`,
  `registry`: the decisions of the drivers, each as a state machine or as
  functions from what the adapter says to what the driver answers.
- `simulator`: the scheduler of simulated time, the bus, the sender, and
  the control gear with its configuration and parameters.
- `sequencer`: pending light changes for sets of addresses.
- `identification`: the gear found by short address, with its long
  address, when identifying gear by hand.

`app/` holds the program: opening a driver by name, the drivers' I/O (the
serial line of the Raspberry Pi Pico, Modbus to the DGW 521, the PRU's
device), the dummy driver, the tasks that run the simulator on tokio, and
what needs floating point. The Helvar 510's USB I/O needs a library that
this build does not have.
