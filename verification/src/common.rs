pub mod cell;
pub mod char_span;
pub mod chars;
pub mod loc;
pub mod span;
pub mod time_travel;
pub mod timeline;
