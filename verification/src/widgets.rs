//! The data side of the widgets: what they show, not how it is drawn.

pub mod command_cell;
pub mod cpu;
pub mod percentage_bar;
pub mod process_table;
pub mod state;
pub mod table_of_processes;
