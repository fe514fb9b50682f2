pub mod handlers;
pub mod laws;
pub mod model;
pub mod order;
pub mod render;
pub mod store;
pub mod text;
pub mod users;

pub use model::Error;
pub use model::Note;
pub use model::NoteEdit;
pub use model::NoteNew;
pub use model::User;
