pub mod chords;
pub mod hook;
pub mod keymap;
pub mod modifiers;
pub mod synth;
