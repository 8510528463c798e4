pub mod file_iterator;
