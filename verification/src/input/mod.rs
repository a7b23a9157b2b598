//! Digital inputs: five buttons scanned periodically and debounced.
pub mod buttons;
