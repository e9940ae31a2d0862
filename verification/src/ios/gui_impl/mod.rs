pub mod input_hook;
