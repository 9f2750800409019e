pub mod address;
pub mod codec;
pub mod command;
pub mod derivation;
pub mod image;
pub mod instruction;
pub mod ops;
