//! A PS/2 controller and keyboard driver: the command protocol with its retries, the device
//! lifecycle, controller initialisation, scancode decoding, and the keymaps that turn a key
//! position into a portable keycode and a character.

pub mod io;
pub mod command;
pub mod controller;
pub mod device;
pub mod keymap;
pub mod keyboard;
