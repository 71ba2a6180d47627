//! Laws about what the functions of the library give: what holds of every result that their
//! contracts admit, told from the arguments and the result alone.

pub mod flag_sets;
pub mod on_files;
pub mod on_paths;
pub mod on_setups;
pub mod values;
