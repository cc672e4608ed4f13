//! A bidirectional codec for tile identifiers ("pai").
//!
//! A tile is identified by a numeric code (a byte) or by a short
//! human-readable token such as `"5mr"`. The codec owns the canonical
//! association between the two: a fixed forward table from code to token,
//! and a reverse lookup from token to code derived from it. Unknown input
//! never fails: an out-of-vocabulary token encodes to the sentinel code 0,
//! and any byte renders as some token, the code being reduced modulo 60
//! before the table is read.

pub mod laws;
pub mod pai;
pub mod table;

pub use pai::pai_codes;
pub use pai::Pai;
pub use table::code_for;
pub use table::string_for;
