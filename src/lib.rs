//! A zero-copy tokenizer for command-line style arguments: short options
//! (`-f`, clustered `-abc`, `-ovalue`, `-o value`), long options (`--flag`,
//! `--flag=value`, `--flag value`), the end-of-options marker `--`, and
//! positional arguments.

pub mod arg;
pub mod bytes;
pub mod error;
pub mod laws;
pub mod opt;
pub mod options;
pub mod syntax;
pub mod text;
pub mod traits;

pub use arg::Arg;
pub use error::Error;
pub use opt::Opt;
pub use options::{Options, State};
pub use traits::Argument;
