# ctru

A verified core of a Nintendo 3DS system library. The library (`src/`) holds the
logic behind the console's services, checked by Verus against its contracts:

- `error`: result codes, their decomposition and names, and the library's errors;
- `services`: the handle bookkeeping shared by the services (`reference`), and each
  service's decisions, state and data formats (`uds`, `ndsp`, `cam`, `ir_user`,
  `hid`, `cfgu`, `ptm`, `svc`, `gfx`, `soc`, `romfs`, `am`, `ac`, `apt`, `ps`, `fs`,
  `sslc`, `gspgpu`);
- `applets`: the software keyboard, the Mii selector and the error pop-up;
- `mii`, `smdh`, `os`, `console`: decoding of stored data and small state machines;
- `utf16`, `text`, `bits`: encoding, decoding and formatting helpers.

Calls into the system are made by the caller and handed to the library as
closures or as the values the system reported; `app/` shows that side.
