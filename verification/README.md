# swiftnav

GNSS utility functions with machine-checked contracts.

`src/` is a library verified with Verus. It holds the parts of GNSS
processing that are integer and text logic:

- `signal`: satellite constellations, signal codes and signal identifiers,
  their names, numbers and RINEX characters, and the valid satellite numbers
  of each constellation;
- `edc`: the CRC-24Q checksum of RTCM messages;
- `nmea`: the NMEA 0183 checksum, talker identifiers, fix quality
  indicators and the precision that keeps a GGA sentence within 82
  characters;
- `time`: leap years, splitting a day count into a calendar date, the
  modified Julian day of a date and the table of leap seconds;
- `reference_frame`: reference frame names and the graph of transformations
  between frames, with a breadth-first search proved to find a shortest chain;
- `ephemeris`, `almanac`, `solver`, `geoid`, `ionosphere`: what the status
  and return codes of the C library mean, and the solver settings.

`app/` holds what carries floating point values (times of week,
coordinates, Helmert parameters), the calls into the C library
`swiftnav-sys`, and copies of library types with serde, strum and thiserror
derives.

`tests/` exercises the library on concrete values.
