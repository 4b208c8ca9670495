//! Lock-free shared variables for code that runs under a managed,
//! garbage-collected host: a boolean flag, a 32-bit counter, and a slot that
//! owns one strong reference to a managed object.
//!
//! The flag and the counter are in [`primitive`]. The slot is in [`object`];
//! what it asks of the host, step by step, is laid down in [`protocol`].
//!
//! The other modules hold no code that runs. [`history`] is about the writes
//! to one cell in the order in which they took place. [`world`] lets any
//! number of threads work on one slot in any order, and over it are proved:
//! what each operation does when it is left alone ([`solo`]),
//! that reference counts are conserved ([`conservation`]), that nothing is
//! given up while the slot or an operation still holds it ([`alive`]), that of
//! the threads that race to replace the same content one wins ([`contest`]),
//! that a compare-and-exchange which finds no match takes nothing
//! ([`mismatch`]), that clearing again is clearing once ([`teardown`]), and
//! that an operation left alone ends after a few calls ([`progress`]).

pub mod alive;
pub mod conservation;
pub mod contest;
pub mod history;
pub mod mismatch;
pub mod object;
pub mod primitive;
pub mod progress;
pub mod protocol;
pub mod solo;
pub mod teardown;
pub mod world;
