# picoboot

The verified core of a crate for RP2040/RP2350 microcontrollers driven over
the PICOBOOT USB interface.

- `src/lib.rs`: the memory map, USB identities, page/sector sizes and UF2
  family IDs of the parts.
- `src/target.rs`: `Target` and what each target answers to (VID/PID) and
  holds (flash range, sizes, default stack pointer), each method with an
  exact contract.
- `src/access.rs`: the exclusive-access modes and their wire byte
  (`From<Access> for u8`), and the transfer `Direction`.
- `src/error.rs`: the crate's `Error`, carrying the USB stack's and the
  codec's error values, whose types are declared to Verus.
- `src/laws.rs`: properties proved across these functions.
- `app/lib.rs`: the same error type with `thiserror`'s `Error`/`Display`,
  converted to and from the library's.
