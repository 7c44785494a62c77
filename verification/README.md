# jmon_rs

Reads the performance counters that a HotSpot JVM publishes in its `hsperfdata` file, without JMX,
agents or a network connection. The library is written in Rust and verified with Verus.

## Layout

- `src/` is the library. It makes every decision and does no I/O.
  - `perfdata`, `bytes`, `index`: the file format, and the index of its entries.
  - `capture`: taking a consistent index out of a file that keeps changing.
  - `metrics`: the logical counters, the keys they may have, and how a key is chosen.
  - `target`: whether a file still belongs to the process that it was mapped for.
  - `connect`, `monitor`, `refresh`: the life of a monitor.
  - `stats`, `compatibility`, `report`: what is read out of a monitor and how it is shown.
  - `discovery`, `process`, `command`, `text`: finding Java processes, `/proc`, the command line.
  - `laws`: what holds of a monitor over its whole life.
- `tests/` runs the library on fixtures.
- `app/` is the command line tool. It maps files, walks directories, waits and prints.

## Images

A monitor never looks at a mapping itself. The caller takes an image of it, byte by byte from the
start to the end, and hands it over. Connecting and refreshing may ask for several images, because
the JVM announces a new entry before it has finished writing it. Counters are read from the latest
image.

## Fractions

Kilobytes, seconds and shares are exact quotients (`Ratio`). They become floating point where they
are displayed.

## What is proved

- An index is complete or it is not handed out: as many entries as announced, no name twice, empty
  or with a NUL in it, each value within the used bytes. It does not depend on the values.
- No key stands for two logical counters, and a canonical key comes before its aliases.
- A refresh only ever adds entries. What was known stays where it was, a logical counter stays with
  the key that it was bound to, and a refresh that fails changes nothing but the image.
- A refresh ends after a bounded number of images, and takes in all that a structure holds once it
  is still.
- A logical counter is resolved to a key just where it can be read, as long as the images are those
  of one mapping.
- The utilization of the code cache and the overhead of safepoints lie between zero and one.
- The processes that are discovered are those that were seen running with perfdata that name an
  application.
- Every error says what the file or the target did to cause it, and comes only then.
