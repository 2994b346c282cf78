//! Colour palettes for the Linux virtual console: decoding colour schemes,
//! encoding them in the layout the console driver expects, and deciding which
//! device-control requests install them.

pub mod apply;
pub mod color;
pub mod console;
pub mod hex;
pub mod job;
pub mod options;
pub mod palette;
pub mod scheme;
pub mod text;
pub mod stream;

pub use apply::{clear_term, Applier, ApplyError, Command, Outcome, Stage};
pub use color::Color;
pub use console::{
    fd_of_path, get_console_fd, Fd, LocateError, Locator, Probe, Progress, Reply, Request, Verdict,
    CONSOLE_PATHS, KB_101, KDGKBTYPE, O_NOCTTY, PIO_CMAP,
};
pub use hex::{hex_of_rgb, nibble_of_char, rgb_of_hex_triplet};
pub use job::{Action, CliError, Given, Invocation, Job};
pub use palette::{Palette, SchemeError, DUMMY_COLORS};
pub use scheme::{Scheme, DEFAULT_COLORS, SOLARIZED_COLORS_DARK, SOLARIZED_COLORS_LIGHT};
