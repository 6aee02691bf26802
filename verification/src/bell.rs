//! Choosing which sound the bell plays.
//!
//! A user may configure a custom sound file.  The bell falls back to the
//! clip embedded in the application whenever no custom path is configured,
//! the configured path is empty, or no file is present at it.  The caller
//! looks at the disk and reports whether the file is present; the choice
//! itself is made here.

use vstd::prelude::*;

verus! {

/// Where the bell sound is read from.
#[derive(Debug)]
pub enum BellSource {
    /// A user-supplied sound file: the configured path, non-empty, with a
    /// file present at it.
    Custom(String),
    /// The clip embedded in the application.
    Embedded,
}

/// Chooses the bell sound.  A configured path is used only when it is
/// non-empty and a file is present at it (`custom_path_present`, reported
/// by the caller after looking at the disk); in every other case the
/// embedded clip is used.
pub fn choose_bell_source(custom_bell_path: Option<String>, custom_path_present: bool) -> (r:
    BellSource)
    ensures
        match custom_bell_path {
            Some(path) => if path@.len() > 0 && custom_path_present {
                r == BellSource::Custom(path)
            } else {
                r == BellSource::Embedded
            },
            None => r == BellSource::Embedded,
        },
{
    match custom_bell_path {
        Some(path) => {
            if !path.as_str().is_empty() && custom_path_present {
                BellSource::Custom(path)
            } else {
                BellSource::Embedded
            }
        },
        None => BellSource::Embedded,
    }
}

} // verus!
