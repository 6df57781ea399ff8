//! Core of a configuration-driven backup and restore tool: it resolves
//! archive name templates against the calendar, lays out the tar /
//! compress / encrypt pipeline and its temp-file bookkeeping, builds the
//! external dump, cipher and import invocations and judges their
//! outcomes, picks the newest matching archive out of a listing, and
//! dispatches every extracted entry to the directory or database it
//! belongs to.
//!
//! Everything here is verified: each public function carries a contract
//! over the character sequences, byte sequences and sample sequences it
//! works on. The filesystem, network and process work itself lives with
//! the caller, which feeds every outside outcome back in as a plain
//! value.

use vstd::prelude::*;

pub mod backup;
pub mod configuration;
pub mod formatter;
pub mod helper;
pub mod restore;
pub mod template;
pub mod text;

verus! {

} // verus!
