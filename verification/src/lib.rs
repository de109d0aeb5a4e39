//! Users service: account validation, password hashing, the responses that the
//! service sends, and the request flows (register, log in, update, read, delete)
//! written as steps from a state and an event to the next state and an action.

pub mod model;
pub mod response;
pub mod validation;
pub mod password;
pub mod replies;
pub mod flows;
pub mod table;
pub mod laws;
pub mod guarantees;
