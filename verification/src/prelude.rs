//! What a caller of the client needs in scope.

pub use crate::Client;
pub use crate::ClientTodoExt;
