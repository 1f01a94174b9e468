// Persistence of a to-do list: the file store's decisions, the table
// store's schema migrations, the error kinds shown to the user, and the
// greeting command.

pub mod error;
pub mod file_store;
pub mod greeting;
pub mod schema;
pub mod todo;
