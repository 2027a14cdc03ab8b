//! Shogi game records in CSA (Computer Shogi Association) V2.2 text notation.
//!
//! Every value type carries a spec function that states, character by
//! character, the text it stands for; each renderer is proved to produce
//! exactly that text.

pub mod laws;
pub mod text;
pub mod value;
