use vstd::prelude::*;

verus! {

/// Error type for color parsing operations.
#[derive(Debug, Clone, PartialEq, Eq)]
pub enum ColorError {
    /// The input string is not a valid hex color.
    InvalidHex(String),
    /// The input string format is not recognized.
    InvalidFormat(String),
}

impl ColorError {
    /// The human-readable message of an error.
    pub open spec fn message(&self) -> Seq<char> {
        match self {
            ColorError::InvalidHex(s) => "invalid hex color: "@ + s@,
            ColorError::InvalidFormat(s) => "invalid color format: "@ + s@,
        }
    }

    /// Render the error as a message, such as `"invalid hex color: xyz"`.
    pub fn to_string(&self) -> (s: String)
        ensures
            s@ == self.message(),
    {
        match self {
            ColorError::InvalidHex(m) => {
                let mut s = "invalid hex color: ".to_owned();
                s.append(m.as_str());
                s
            },
            ColorError::InvalidFormat(m) => {
                let mut s = "invalid color format: ".to_owned();
                s.append(m.as_str());
                s
            },
        }
    }
}

} // verus!
