//! A system summary printer: facts about the host laid out beside a piece of
//! text art, in two aligned and coloured columns.

pub mod color;
pub mod text;
pub mod terminal;
pub mod theme;
pub mod facts;
pub mod sysoverview;
