//! The failures that the library reports.

use vstd::prelude::*;

verus! {

/// Why a request could not be served.
#[derive(Debug)]
pub enum AppError {
    /// The script text is not a script in JSON.
    ScriptInvalid(serde_json::Error),
    /// The input data text is not a JSON array of objects.
    InputDataInvalid(serde_json::Error),
    /// The loop script could not be generated; the text says why.
    OtherError(String),
}

impl AppError {
    /// Whether the failure lies in the text that the caller supplied, as
    /// against a fault of the generation itself.
    pub open spec fn blames_input(&self) -> bool {
        self is ScriptInvalid || self is InputDataInvalid
    }

    /// Tells the two categories of failure apart: `true` for text that does
    /// not parse, `false` for any other fault.
    pub fn is_invalid_input(&self) -> (b: bool)
        ensures
            b == self.blames_input(),
    {
        match self {
            AppError::ScriptInvalid(_) => true,
            AppError::InputDataInvalid(_) => true,
            AppError::OtherError(_) => false,
        }
    }

    /// The text shown for this failure: for text that does not parse, what
    /// failed and the parser's own words; for another fault, its reason.
    pub fn message(&self) -> (text: String)
        ensures
            match self {
                AppError::ScriptInvalid(cause) => quotes(text@, "script Json invalid: "@, cause),
                AppError::InputDataInvalid(cause) => quotes(
                    text@,
                    "input data Json invalid: "@,
                    cause,
                ),
                AppError::OtherError(reason) => text@ == reason@,
            },
    {
        match self {
            AppError::ScriptInvalid(cause) => {
                let mut text = "script Json invalid: ".to_string();
                text.append(cause.to_string().as_str());
                text
            },
            AppError::InputDataInvalid(cause) => {
                let mut text = "input data Json invalid: ".to_string();
                text.append(cause.to_string().as_str());
                text
            },
            AppError::OtherError(reason) => reason.clone(),
        }
    }
}

/// Whether `text` is `lead` followed by what the parser's error displays as.
pub open spec fn quotes(text: Seq<char>, lead: Seq<char>, cause: &serde_json::Error) -> bool {
    exists|words: String| #[trigger]
        vstd::string::to_string_from_display_ensures::<serde_json::Error>(cause, words) && text
            == lead + words@
}

} // verus!
