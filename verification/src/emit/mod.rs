//! The declarations, one routine for each kind of described type.
//!
//! What a routine writes is stated as a function from the state of the pass
//! before it to the state after it: the text grows at its end, a missing
//! referenced type is counted, and the first error or defect stops the
//! pass with what was written until then.

pub mod aliases;
pub mod coclasses;
pub mod dispatch;
pub mod enums;
pub mod interfaces;
pub mod lines;
pub mod modules;
pub mod records;
pub mod unions;
