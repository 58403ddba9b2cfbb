//! The configuration library's error type.

use vstd::prelude::*;

verus! {

/// Configuration errors. Errors of outside libraries (I/O, JSON, file
/// watching) are carried as their messages.
#[derive(Debug, Clone, PartialEq, Eq)]
pub enum ConfigError {
    /// File I/O failed.
    Io(String),
    /// (De)serialisation failed.
    Serde(String),
    /// A validation rule failed.
    Validation(String),
    /// File watching failed.
    Watcher(String),
    /// Every receiver of the change broadcast is gone.
    NotifierClosed,
}

/// `validation error: <msg>`, how a validation error reads as text.
pub open spec fn validation_display(msg: Seq<char>) -> Seq<char> {
    "validation error: "@ + msg
}

/// The text of an error.
pub open spec fn error_display(e: ConfigError) -> Seq<char> {
    match e {
        ConfigError::Io(m) => "io error: "@ + m@,
        ConfigError::Serde(m) => "serialization error: "@ + m@,
        ConfigError::Validation(m) => validation_display(m@),
        ConfigError::Watcher(m) => "file watcher error: "@ + m@,
        ConfigError::NotifierClosed => "notifier channel closed"@,
    }
}

impl ConfigError {
    /// The error message, as the error's text representation reads.
    pub fn to_text(&self) -> (s: String)
        ensures
            s@ == error_display(*self),
    {
        let mut v: Vec<char> = Vec::new();
        match self {
            ConfigError::Io(m) => {
                crate::text::push_chars(&mut v, "io error: ");
                crate::text::push_chars(&mut v, m.as_str());
                proof {
                    assert(v@ =~= error_display(*self));
                }
            },
            ConfigError::Serde(m) => {
                crate::text::push_chars(&mut v, "serialization error: ");
                crate::text::push_chars(&mut v, m.as_str());
                proof {
                    assert(v@ =~= error_display(*self));
                }
            },
            ConfigError::Validation(m) => {
                crate::text::push_chars(&mut v, "validation error: ");
                crate::text::push_chars(&mut v, m.as_str());
                proof {
                    assert(v@ =~= validation_display(m@));
                }
            },
            ConfigError::Watcher(m) => {
                crate::text::push_chars(&mut v, "file watcher error: ");
                crate::text::push_chars(&mut v, m.as_str());
                proof {
                    assert(v@ =~= error_display(*self));
                }
            },
            ConfigError::NotifierClosed => {
                crate::text::push_chars(&mut v, "notifier channel closed");
                proof {
                    assert(v@ =~= error_display(*self));
                }
            },
        }
        crate::text::string_from_chars(&v)
    }
}

} // verus!
