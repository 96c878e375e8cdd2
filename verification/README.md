# embassy-nrf-esb

Enhanced ShockBurst (ESB) for the nRF52 series, with its protocol logic verified
by Verus.

- `src/` is the verified library. It decides and computes, and touches no
  peripheral: operations on registers are appended to a log, and what has to be
  read from a register is an argument.
- `app/` is ordinary Rust around it: registers, interrupts, tasks, sessions of the
  multiprotocol service layer, the firmware of a split keyboard, and the task
  runner.
- `tests/` runs the library on concrete values.

| Area | Modules |
| --- | --- |
| Packets and buffers | `header`, `addresses`, `config`, `payload`, `rx_queue`, `bytes` |
| Radio and timer | `hw`, `radio`, `radio_model`, `timer`, `mpsl_radio` |
| PTX and PRX | `state_machine`, `ptx`, `prx`, `suspend`, `isr`, `ptx_laws`, `prx_laws`, `link_laws` |
| Timeslots | `mpsl_common`, `mpsl_profile`, `mpsl_schedule`, `mpsl_timeslot`, `ptx_schedule`, `slot_ptx`, `ptx_session`, `slot_prx`, `prx_session`, `slot_laws` |
| Split transport | `transport`, `event_sender`, `right_half` |
| Keyboard | `matrix`, `keymap`, `hid` |
| Host connection | `att`, `smp`, `ble` |
| Tools | `tasks` |

What holds across functions is stated as `law_*` proof functions next to the code
they are about.
