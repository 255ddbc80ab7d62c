//! R vectors and the values they hold.

pub mod na;
pub mod utils;
pub mod sexptype;
pub mod numeric;
pub mod scalar;
pub mod null;
pub mod integer;
pub mod logical;
pub mod raw;
pub mod string;
pub mod list;
pub mod external_pointer;
