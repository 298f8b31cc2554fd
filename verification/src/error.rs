//! Errors of the tasks contract and the text each one reports.

use vstd::prelude::*;

use cosmwasm_std::StdError;

verus! {

/// Errors of the tasks contract.
#[derive(Debug, PartialEq)]
pub enum ContractError {
    Std(StdError),
    InvalidBoundary {},
    InvalidInterval {},
    MustAttach {},
    InvalidWasmMsg {},
    InvalidAction {},
    InvalidQueries {},
    InvalidTransform {},
    InvalidAddress {},
    InvalidGas {},
    NoGasLimit {},
    ContractPaused,
    ContractUnpaused,
    TaskEnded {},
    TaskExists {},
    NoTaskFound {},
    Unauthorized {},
    InvalidPauseAdmin,
    TooLongChainName {},
    InvalidKey {},
    InvalidZeroValue { field: String },
}

/// The text that an error other than `Std` reports (a `Std` error reports the
/// `Display` text of the `StdError` it carries, `std_error_display`).
pub open spec fn error_text(e: ContractError) -> Seq<char> {
    match e {
        ContractError::Std(_) => Seq::empty(),
        ContractError::InvalidBoundary {} => "Boundary is not in valid format"@,
        ContractError::InvalidInterval {} => "Invalid interval"@,
        ContractError::MustAttach {} => "Empty balance, must attach funds"@,
        ContractError::InvalidWasmMsg {} => "invalid cosmwasm message"@,
        ContractError::InvalidAction {} => "Actions message unsupported or invalid message data"@,
        ContractError::InvalidQueries {} => "Query validation failed, either missing contract or invalid method"@,
        ContractError::InvalidTransform {} =>
            "Task transform is either looking at wrong indices or has malformed pointers"@,
        ContractError::InvalidAddress {} => "Supplied address is not valid address"@,
        ContractError::InvalidGas {} => "Invalid gas input"@,
        ContractError::NoGasLimit {} => "Must provide gas limit for WASM actions"@,
        ContractError::ContractPaused => "Contract is in paused state"@,
        ContractError::ContractUnpaused => "Contract is in unpaused state"@,
        ContractError::TaskEnded {} => "Task ended"@,
        ContractError::TaskExists {} => "Task already exists"@,
        ContractError::NoTaskFound {} => "No task found by hash"@,
        ContractError::Unauthorized {} => "Unauthorized"@,
        ContractError::InvalidPauseAdmin => "Invalid Pause Admin"@,
        ContractError::TooLongChainName {} => "Chain name can't be longer than 32 characters"@,
        ContractError::InvalidKey {} => "Invalid version key, please update it"@,
        ContractError::InvalidZeroValue { field } => "Field must be non-zero: "@ + field@,
    }
}

/// The `Display` text of a `cosmwasm_std::StdError`, which its `thiserror`
/// attributes derive from the error's variant and fields alone.
pub uninterp spec fn std_error_display(e: StdError) -> Seq<char>;

/// Calls `to_string` on a `cosmwasm_std::StdError`, which writes the error's
/// `Display` text: the result is that named text.
#[verifier::external_body]
fn std_error_text(e: &StdError) -> (r: String)
    ensures
        r@ == std_error_display(*e),
{
    e.to_string()
}

impl ContractError {
    /// The text the error reports; a `Std` error reports the text of the
    /// `StdError` it carries.
    pub fn message(&self) -> (r: String)
        ensures
            !(self is Std) ==> r@ == error_text(*self),
            self matches ContractError::Std(e) ==> r@ == std_error_display(*e),
    {
        match self {
            ContractError::Std(e) => std_error_text(e),
            ContractError::InvalidBoundary {} => String::from_str("Boundary is not in valid format"),
            ContractError::InvalidInterval {} => String::from_str("Invalid interval"),
            ContractError::MustAttach {} => String::from_str("Empty balance, must attach funds"),
            ContractError::InvalidWasmMsg {} => String::from_str("invalid cosmwasm message"),
            ContractError::InvalidAction {} =>
                String::from_str("Actions message unsupported or invalid message data"),
            ContractError::InvalidQueries {} =>
                String::from_str("Query validation failed, either missing contract or invalid method"),
            ContractError::InvalidTransform {} =>
                String::from_str("Task transform is either looking at wrong indices or has malformed pointers"),
            ContractError::InvalidAddress {} => String::from_str("Supplied address is not valid address"),
            ContractError::InvalidGas {} => String::from_str("Invalid gas input"),
            ContractError::NoGasLimit {} => String::from_str("Must provide gas limit for WASM actions"),
            ContractError::ContractPaused => String::from_str("Contract is in paused state"),
            ContractError::ContractUnpaused => String::from_str("Contract is in unpaused state"),
            ContractError::TaskEnded {} => String::from_str("Task ended"),
            ContractError::TaskExists {} => String::from_str("Task already exists"),
            ContractError::NoTaskFound {} => String::from_str("No task found by hash"),
            ContractError::Unauthorized {} => String::from_str("Unauthorized"),
            ContractError::InvalidPauseAdmin => String::from_str("Invalid Pause Admin"),
            ContractError::TooLongChainName {} =>
                String::from_str("Chain name can't be longer than 32 characters"),
            ContractError::InvalidKey {} => String::from_str("Invalid version key, please update it"),
            ContractError::InvalidZeroValue { field } =>
                String::from_str("Field must be non-zero: ").concat(field.as_str()),
        }
    }
}

impl From<StdError> for ContractError {
    fn from(err: StdError) -> (r: ContractError) {
        ContractError::Std(err)
    }
}

impl vstd::std_specs::convert::FromSpecImpl<StdError> for ContractError {
    open spec fn obeys_from_spec() -> bool {
        true
    }

    open spec fn from_spec(err: StdError) -> ContractError {
        ContractError::Std(err)
    }
}

} // verus!
