// Runs a fixed set of command-line analysis tools on input files: the tool
// registry, the command lines, the provisioning decision for each tool's
// executable, and the localized records of what became of each file.

pub mod args;
pub mod dispatch;
pub mod error;
pub mod messages;
pub mod provision;
pub mod text;
pub mod tool;
