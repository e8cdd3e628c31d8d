#![allow(non_snake_case, non_camel_case_types, clippy::upper_case_acronyms)]

pub mod riscv;
