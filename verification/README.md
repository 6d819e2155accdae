# halo2_vote

Small zero-knowledge voting circuits over the Pallas base field, built with
halo2: a private sum, a private vote with a Poseidon commitment, a batch of up
to ten votes for one target, and two running yes/no tallies that chain one
vote to the next.

* `src/` is the verified library. It states each circuit's constraint
  relation over field values, computes the witnesses and public instances
  that the provers assign, reads and writes the byte formats of the foreign
  interfaces, and proves what holds of them: honest provers satisfy every
  constraint, the constraints determine the outputs and admit only binary
  votes (for the batch: abstentions and the target), tallies stay consistent
  and count their votes, and encodings round-trip. That the gates admit no
  other votes needs the field's order to be prime; `src/modulus_primality.rs`
  shows it with a chain of Pocklington certificates. Field arithmetic,
  canonical decoding and the Poseidon hash are calls into `pasta_curves` and
  `halo2_gadgets` behind small trusted wrappers in `src/field.rs`.
* `app/` holds the halo2 `Circuit` implementations, key generation, proving
  and verifying, and the C and WebAssembly entry points; it takes every value
  it assigns or publishes from the library.
* `tests/` exercises the library on concrete votes.
