//! Plans the commit and reveal transactions that inscribe a fungible-token
//! transfer. The reveal fee is estimated on a provisional reveal transaction,
//! the commit transaction locks that fee plus the tagged output's value, and
//! the final reveal transaction spends the commit transaction by its
//! identifier in reverse byte order.
pub mod types;
pub mod detach;
pub mod planner;
pub mod plan_lemmas;
