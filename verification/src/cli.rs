//! The values carried in from the command line, and their validation.  The
//! actual argument parsing is host plumbing; the rules for what makes the
//! arguments usable live here.

use vstd::prelude::*;
use crate::color::Color;
use crate::frontend::Frontend;

verus! {

#[derive(Debug, PartialEq, Eq)]
pub enum ArgsError {
    /// No configuration file was passed.
    NoConfig,
    /// The named frontend does not exist; carries the offending value.
    InvalidFrontend(String),
    /// Some part of the provided arguments was invalid and could not be
    /// fixed.
    Invalid,
}

/// The raw arguments, every part optional.
#[derive(Debug)]
pub struct Args {
    pub config_path: Option<String>,
    pub frontend: Option<Frontend>,
    pub background_color: Option<Color>,
}

impl Args {
    pub fn new(
        config_path: Option<String>,
        frontend: Option<Frontend>,
        background_color: Option<Color>,
    ) -> (r: Self)
        ensures
            r == (Args { config_path, frontend, background_color }),
    {
        Self { config_path, frontend, background_color }
    }

    pub fn config_path(&self) -> (r: &Option<String>)
        ensures
            r == &self.config_path,
    {
        &self.config_path
    }

    pub fn background_color(&self) -> (r: Option<Color>)
        ensures
            r == self.background_color,
    {
        self.background_color
    }
}

/// Arguments that passed validation: a configuration file is known, and a
/// frontend is chosen (the web view when none was named).
#[derive(Debug)]
pub struct ValidArgs {
    pub config_path: String,
    pub frontend: Frontend,
    pub background_color: Option<Color>,
}

impl ValidArgs {
    /// Validation: the configuration path must be present; a missing frontend
    /// falls back to the default.
    pub fn from_args(args: Args) -> (r: Result<ValidArgs, ArgsError>)
        ensures
            args.config_path matches Option::Some(path) ==> (r matches Ok(v) && v == (ValidArgs {
                config_path: path,
                frontend: match args.frontend {
                    Option::Some(f) => f,
                    Option::None => Frontend::Tauri,
                },
                background_color: args.background_color,
            })),
            args.config_path is None ==> r matches Err(ArgsError::Invalid),
    {
        if let Some(config_path) = args.config_path {
            let frontend = match args.frontend {
                Some(f) => f,
                None => Frontend::Tauri,
            };
            Ok(ValidArgs { config_path, frontend, background_color: args.background_color })
        } else {
            Err(ArgsError::Invalid)
        }
    }

    pub fn config_path(&self) -> (r: &String)
        ensures
            r == &self.config_path,
    {
        &self.config_path
    }

    pub fn frontend(&self) -> (r: Frontend)
        ensures
            r == self.frontend,
    {
        self.frontend
    }

    pub fn background_color(&self) -> (r: Option<Color>)
        ensures
            r == self.background_color,
    {
        self.background_color
    }
}

} // verus!
