//! Quote viewer core: cached credentials, the request protocol with its single
//! retry after re-authentication, quote selection and terminal colors.

pub mod persistence;
pub mod text;
pub mod protocol;
pub mod entities;
pub mod color;
pub mod colors;
