use vstd::prelude::*;

verus! {

/// Errors of the simulator's own logic.
#[derive(Debug)]
pub enum SenateSimError {
    /// A value failed validation; `field` names it.
    Validation { field: String, message: String },
    /// A fetched body does not have the expected format.
    UnexpectedResponseFormat { url: String, expected: String, body_prefix: String },
}

impl SenateSimError {
    /// A validation error for `field` with `message`.
    pub fn validation(field: &str, message: &str) -> (r: SenateSimError)
        ensures
            r matches SenateSimError::Validation { field: f, message: m } && f@ == field@ && m@
                == message@,
    {
        SenateSimError::Validation { field: String::from_str(field), message: String::from_str(message) }
    }

    /// The error as one line of text.
    pub fn describe(&self) -> (r: String)
        ensures
            self matches SenateSimError::Validation { field, message } ==> r@ == seq!['v', 'a',
                'l', 'i', 'd', 'a', 't', 'i', 'o', 'n', ' ', 'e', 'r', 'r', 'o', 'r', ' ', 'f', 'o', 'r',
                ' '] + field@ + seq![':', ' '] + message@,
    {
        match self {
            SenateSimError::Validation { field, message } => {
                let mut out = String::from_str("validation error for ");
                out.append(field.as_str());
                out.append(": ");
                out.append(message.as_str());
                proof {
                    reveal_strlit("validation error for ");
                    reveal_strlit(": ");
                }
                out
            },
            SenateSimError::UnexpectedResponseFormat { url, expected, body_prefix } => {
                let mut out = String::from_str("unexpected response format from ");
                out.append(url.as_str());
                out.append(": expected ");
                out.append(expected.as_str());
                out.append(", body starts with ");
                out.append(body_prefix.as_str());
                out
            },
        }
    }
}

} // verus!
