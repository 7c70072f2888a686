//! What holds of reading and writing together: what is written reads back
//! as what it was, what is read can be written, and lines out of order make
//! a block unreadable.

pub mod dispensing_block;
pub mod drug_block;
pub mod notebook;
pub mod order;
pub mod prescription_block;
pub mod reading;
pub mod rp_block;
