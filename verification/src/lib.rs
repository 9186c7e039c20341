pub mod cell;
pub mod cursor;
pub mod damage;
pub mod grid;
pub mod text;
pub mod selection;
pub mod terminal;
pub mod palette;
pub mod encode;
pub mod input;
pub mod search;
pub mod shortcuts;
pub mod ui;
pub mod laws;
pub mod config;
pub mod fonts;
pub mod session;
pub mod pty;
