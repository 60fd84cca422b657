//! The command facade: the subcommand tree that routes one invocation to
//! the JWK generation command. Each layer only dispatches; the contract
//! of the generation command is passed through unchanged.

use vstd::prelude::*;

use crate::command::CliError;
use crate::command::execute_post;
use crate::params::GenerateJwkCommand;

verus! {

/// The subcommands of `generate`.
#[derive(Debug)]
pub enum GenerateSubcommand {
    Jwk(GenerateJwkCommand),
}

/// The `generate` command: a tagged dispatch to one of its subcommands.
#[derive(Debug)]
pub struct GenerateCommand {
    pub command: GenerateSubcommand,
}

impl GenerateCommand {
    /// Routes to the selected generation subcommand and returns the
    /// rendered document.
    pub fn execute(&self) -> (r: Result<String, CliError>)
        ensures
            match self.command {
                GenerateSubcommand::Jwk(req) => execute_post(req, r),
            },
    {
        match &self.command {
            GenerateSubcommand::Jwk(s) => s.execute(),
        }
    }
}

/// The top-level subcommands.
#[derive(Debug)]
pub enum CLISubcommand {
    /// Generate values.
    Generate(GenerateCommand),
}

/// The whole command line: a tagged dispatch to one top-level command.
#[derive(Debug)]
pub struct CLI {
    pub command: CLISubcommand,
}

impl CLI {
    /// Routes to the selected top-level command and returns the rendered
    /// document.
    pub fn execute(&self) -> (r: Result<String, CliError>)
        ensures
            match self.command {
                CLISubcommand::Generate(c) => match c.command {
                    GenerateSubcommand::Jwk(req) => execute_post(req, r),
                },
            },
    {
        match &self.command {
            CLISubcommand::Generate(c) => c.execute(),
        }
    }
}

} // verus!
