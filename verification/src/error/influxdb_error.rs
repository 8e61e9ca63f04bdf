use vstd::prelude::*;
use vstd::string::StringExecFns;

verus! {

/// The single failure value of the library. It carries an underlying cause of
/// type `T` for diagnostic chaining (callers use an `Option` of the transport
/// error there) and the human-readable message that the response classifier
/// selected: a status line, an error body, or the empty string.
///
/// The observable debug form, `InfluxDbErrorError(Rest call failed {message})`,
/// is rendered by [`Self::to_debug_string`]; the derived `Debug` prints the
/// ordinary structural form and exists only so that callers can unwrap a
/// `Result` carrying this error.
#[derive(Debug)]
pub enum InfluxDbError<T> {
    Failed(T, String),
}

/// The display form of a failure whose selected message is `message`.
pub open spec fn display_chars(message: Seq<char>) -> Seq<char> {
    "Rest call failed "@ + message
}

/// The debug form of a failure: the display form inside a named wrapper.
pub open spec fn debug_chars(message: Seq<char>) -> Seq<char> {
    "InfluxDbErrorError("@ + display_chars(message) + ")"@
}

impl<T> InfluxDbError<T> {
    /// The diagnostic cause carried by this failure.
    pub open spec fn spec_cause(self) -> T {
        match self {
            InfluxDbError::Failed(cause, _) => cause,
        }
    }

    /// The message selected for this failure.
    pub open spec fn spec_message(self) -> Seq<char> {
        match self {
            InfluxDbError::Failed(_, message) => message@,
        }
    }

    /// Renders the display form, `Rest call failed {message}`.
    pub fn to_string(&self) -> (r: String)
        ensures
            r@ == display_chars(self.spec_message()),
    {
        match self {
            InfluxDbError::Failed(_, message) => {
                String::from_str("Rest call failed ").concat(message.as_str())
            },
        }
    }

    /// Renders the debug form, `InfluxDbErrorError(Rest call failed {message})`.
    pub fn to_debug_string(&self) -> (r: String)
        ensures
            r@ == debug_chars(self.spec_message()),
    {
        String::from_str("InfluxDbErrorError(").concat(self.to_string().as_str()).concat(")")
    }
}

} // verus!
