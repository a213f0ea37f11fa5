# tungsten_mc

Deterministic random-number generation, Perlin permutation tables and
density-tree shrinking for Minecraft-compatible terrain generation, written
in Verus: the library's functions carry contracts that Verus proves. The
few calls into outside crates (MD5 digests and the code generator's default
settings) stand behind small trusted wrappers whose contracts restate what
those crates document.

## Layout

- `src/xoroshiro.rs` – Xoroshiro128++ and its seeding (Stafford mixing, seeds
  from names through MD5), bounded draws with their rejection loop.
- `src/random.rs` – the 48-bit linear congruential generator, its splitter and
  the string hash it uses.
- `src/perlin.rs` – Perlin samplers (origin draws and shuffled permutation
  tables), octave groups, lattice hashing and gradient selection.
- `src/spline.rs` – which segment a spline is evaluated on.
- `src/density.rs` – density function trees, their mathematical model, copies
  and structural equality.
- `src/shrink/` – the shrink methods, the shrinker that walks their
  candidates, and the path rebuilder.
- `src/harness.rs` – chunk index arithmetic, shared-library names, and the
  shrink loop of the differential harness as a state machine.
- `src/protocol.rs` – the line protocol of the test server: words, integer
  and floating-point literals, commands and their arguments, and the answers
  computed on integers.
- `src/reply.rs` – the text of the server's answers computed on integers
  (`OK pong`, integer lists, the bytes of a permutation table).
- `src/export.rs` – density trees as datapack JSON documents, built as plain
  JSON values.
- `src/compiler.rs` – configuration of the compiler front end and its backend
  settings.
- `app/` – the program around the library: the TCP server, floating-point
  noise evaluation, the differential harness (building, loading and comparing
  the pipelines) and the conversion of JSON documents to `serde_json`.
- `tests/` – tests of the library on concrete values.

Floating-point values of density trees are held as their IEEE-754 bit
patterns in the library; the code that computes on them lives in `app/`.
