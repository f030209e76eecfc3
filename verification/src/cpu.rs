pub mod cpu;
pub mod decoder;
pub mod model;
pub mod registers;
