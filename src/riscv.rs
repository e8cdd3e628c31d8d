pub mod slices;
pub mod instructions;
pub mod assemblers;
pub mod decode;
pub mod machine;
pub mod executors;
pub mod disassemblers;
pub mod disassemble;
pub mod assemble;
