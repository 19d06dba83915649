//! A CHIP-8 interpreter: the machine state, the instruction set, the font and
//! the keyboard layout, with what each instruction does stated and proved.
pub mod font;
pub mod keypad;
pub mod machine;
pub mod emulator;
pub mod laws;
pub mod rom;
pub mod opcode_laws;
