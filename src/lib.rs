//! Order intake: decoding a form submission into an order record, and the
//! decisions of the two request handlers (show the form, accept an order).

pub mod form;
pub mod intake;
pub mod laws;
pub mod order;
pub mod page;
