pub mod error;
pub mod op_code;
pub mod program;
pub mod registers;
pub mod text;
pub mod tgs;
pub mod tgs_display;
