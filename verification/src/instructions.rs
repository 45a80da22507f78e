//! The atomic state transitions of the event lifecycle.
//!
//! Each module holds one operation: a context of the records the operation
//! reads and writes, a well-formedness predicate standing for what the
//! storage layer guarantees about how those records were looked up, a
//! specification of exactly when the operation succeeds and which error it
//! reports otherwise, and the handler itself. A handler either applies its
//! full effect or returns an error and leaves every record untouched.

pub mod cancel_event;
pub mod claim_rewards;
pub mod create_community;
pub mod create_event;
pub mod join_event;
pub mod reject_attendance;
pub mod verify_attendance;
