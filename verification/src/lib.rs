//! Verified core of a small family of halo2 voting circuits over the Pallas
//! base field: the circuits' constraint relations, the witnesses and public
//! instances their provers assign, and the byte encodings their foreign
//! interfaces exchange.

pub mod field;
pub mod primality;
pub mod modulus_primality;
pub mod sum_circuit;
pub mod vote_commitment;
pub mod batch_tally;
pub mod tally;
pub mod flagged_tally;
pub mod chained_tally;
pub mod recursive_io;
