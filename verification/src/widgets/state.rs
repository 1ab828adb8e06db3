pub mod process_table;
