//! Which presentation layer consumes the message stream.  The core never
//! depends on which one is active; it only hands out well-defined messages.

use vstd::prelude::*;
use vstd::string::StrSliceExecFns;
use crate::cli::ArgsError;
use crate::text::str_eq;

verus! {

#[derive(Clone, Copy, Debug, PartialEq, Eq, Structural)]
pub enum Frontend {
    /// The embedded web view.
    Tauri,
    /// The native window.
    Iced,
}

impl Default for Frontend {
    fn default() -> (r: Self)
        ensures
            r == Frontend::Tauri,
    {
        Frontend::Tauri
    }
}

impl Frontend {
    /// The frontend a command-line value names: the native window answers to
    /// "iced" and "native", the web view to "tauri" and "web".  Anything else
    /// is an invalid frontend, reported with the offending value.
    pub fn from_str(s: &str) -> (r: Result<Frontend, ArgsError>)
        ensures
            (s@ == "iced"@ || s@ == "native"@) ==> r == Ok::<Frontend, ArgsError>(Frontend::Iced),
            (s@ == "tauri"@ || s@ == "web"@) ==> r == Ok::<Frontend, ArgsError>(Frontend::Tauri),
            !(s@ == "iced"@ || s@ == "native"@ || s@ == "tauri"@ || s@ == "web"@) ==> (r matches
                Err(e) && e matches ArgsError::InvalidFrontend(v) && v@ == s@),
    {
        proof {
            reveal_strlit("iced");
            reveal_strlit("native");
            reveal_strlit("tauri");
            reveal_strlit("web");
            assert("iced"@.len() == 4);
            assert("tauri"@.len() == 5);
            assert("native"@.len() == 6);
            assert("web"@.len() == 3);
        }
        if str_eq(s, "iced") || str_eq(s, "native") {
            Ok(Frontend::Iced)
        } else if str_eq(s, "tauri") || str_eq(s, "web") {
            Ok(Frontend::Tauri)
        } else {
            Err(ArgsError::InvalidFrontend(s.to_owned()))
        }
    }
}

/// An error surfaced by the presentation layer, reduced to its origin.
#[derive(Clone, Copy, Debug, PartialEq, Eq, Structural)]
pub enum FrontendError {
    /// The native window's event loop failed.
    Iced,
}

} // verus!
