pub mod sparse;
