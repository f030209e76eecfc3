pub mod ppu;
pub mod ppuctrl;
pub mod ppumask;
pub mod ppustatus;
pub mod registers;
