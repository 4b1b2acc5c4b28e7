//! Generation of a GRUB boot menu configuration that loads, through
//! multiboot2, every module found in a directory.

pub mod cli;
pub mod document;
pub mod listing;
pub mod options;
pub mod output;
