use vstd::prelude::*;
use vstd::string::StringExecFns;
use crate::text::{decimal, decimal_string};

verus! {

/// A string field of a record that has a length cap.
#[derive(Debug, Clone, Copy, PartialEq, Eq, Structural)]
pub enum TextField {
    UserId,
    SessionId,
    RequestId,
    ErrorName,
    ErrorStack,
    FlowId,
    Dataset,
    IpAddress,
    Country,
}

/// Largest number of characters a field may hold.
pub open spec fn field_limit(f: TextField) -> nat {
    match f {
        TextField::UserId => 100,
        TextField::SessionId => 100,
        TextField::RequestId => 100,
        TextField::ErrorName => 200,
        TextField::ErrorStack => 10000,
        TextField::FlowId => 100,
        TextField::Dataset => 50,
        TextField::IpAddress => 100,
        TextField::Country => 10,
    }
}

pub open spec fn field_name(f: TextField) -> Seq<char> {
    match f {
        TextField::UserId => "user_id"@,
        TextField::SessionId => "session_id"@,
        TextField::RequestId => "request_id"@,
        TextField::ErrorName => "error_name"@,
        TextField::ErrorStack => "error_stack"@,
        TextField::FlowId => "flow_id"@,
        TextField::Dataset => "dataset"@,
        TextField::IpAddress => "ip_address"@,
        TextField::Country => "country"@,
    }
}

impl TextField {
    pub fn limit(&self) -> (r: usize)
        ensures
            r as nat == field_limit(*self),
    {
        match self {
            TextField::UserId => 100,
            TextField::SessionId => 100,
            TextField::RequestId => 100,
            TextField::ErrorName => 200,
            TextField::ErrorStack => 10000,
            TextField::FlowId => 100,
            TextField::Dataset => 50,
            TextField::IpAddress => 100,
            TextField::Country => 10,
        }
    }

    pub fn name(&self) -> (r: &'static str)
        ensures
            r@ == field_name(*self),
    {
        match self {
            TextField::UserId => "user_id",
            TextField::SessionId => "session_id",
            TextField::RequestId => "request_id",
            TextField::ErrorName => "error_name",
            TextField::ErrorStack => "error_stack",
            TextField::FlowId => "flow_id",
            TextField::Dataset => "dataset",
            TextField::IpAddress => "ip_address",
            TextField::Country => "country",
        }
    }
}

/// Why a record was refused before it reached the queue.
#[derive(Debug, Clone, Copy, PartialEq, Eq, Structural)]
pub enum ValidationError {
    EmptyMessage,
    MessageTooLong { len: usize },
    TooManyTags { count: usize },
    TagTooLong { index: usize, len: usize },
    StepIndexOutOfRange { step: u32 },
    FieldTooLong { field: TextField, len: usize },
}

/// Human-readable text of a validation failure.
pub open spec fn validation_text(v: ValidationError) -> Seq<char> {
    match v {
        ValidationError::EmptyMessage => "message must not be empty"@,
        ValidationError::MessageTooLong { len } =>
            "message exceeds 10000 characters: "@ + decimal(len as nat),
        ValidationError::TooManyTags { count } =>
            "tags must have at most 20 items, got "@ + decimal(count as nat),
        ValidationError::TagTooLong { index, len } =>
            "tags["@ + decimal(index as nat) + "] exceeds 50 characters: "@ + decimal(len as nat),
        ValidationError::StepIndexOutOfRange { step } =>
            "step_index must be 0-1000, got "@ + decimal(step as nat),
        ValidationError::FieldTooLong { field, len } =>
            field_name(field) + " exceeds "@ + decimal(field_limit(field)) + " characters: "@
                + decimal(len as nat),
    }
}

impl ValidationError {
    pub fn to_string(&self) -> (r: String)
        ensures
            r@ == validation_text(*self),
    {
        match self {
            ValidationError::EmptyMessage => String::from_str("message must not be empty"),
            ValidationError::MessageTooLong { len } => {
                let s = String::from_str("message exceeds 10000 characters: ");
                s.concat(decimal_string(*len as u64).as_str())
            },
            ValidationError::TooManyTags { count } => {
                let s = String::from_str("tags must have at most 20 items, got ");
                s.concat(decimal_string(*count as u64).as_str())
            },
            ValidationError::TagTooLong { index, len } => {
                let s = String::from_str("tags[");
                let s = s.concat(decimal_string(*index as u64).as_str());
                let s = s.concat("] exceeds 50 characters: ");
                s.concat(decimal_string(*len as u64).as_str())
            },
            ValidationError::StepIndexOutOfRange { step } => {
                let s = String::from_str("step_index must be 0-1000, got ");
                s.concat(decimal_string(*step as u64).as_str())
            },
            ValidationError::FieldTooLong { field, len } => {
                let s = String::from_str(field.name());
                let s = s.concat(" exceeds ");
                let s = s.concat(decimal_string(field.limit() as u64).as_str());
                let s = s.concat(" characters: ");
                s.concat(decimal_string(*len as u64).as_str())
            },
        }
    }
}

/// Errors reported by the client.
#[derive(Debug)]
pub enum TimberlogsError {
    /// A record broke one of the field limits; nothing was sent.
    Validation(ValidationError),
    /// The endpoint answered with a non-success status.
    Http { status: u16, body: String },
    /// The request could not be made, or its answer could not be read.
    Request(String),
    /// The client was shut down.
    NotConnected,
}

pub open spec fn error_text(e: TimberlogsError) -> Seq<char> {
    match e {
        TimberlogsError::Validation(v) => "validation error: "@ + validation_text(v),
        TimberlogsError::Http { status, body } =>
            "HTTP error "@ + decimal(status as nat) + ": "@ + body@,
        TimberlogsError::Request(m) => "request failed: "@ + m@,
        TimberlogsError::NotConnected => "client is not connected"@,
    }
}

impl TimberlogsError {
    pub fn to_string(&self) -> (r: String)
        ensures
            r@ == error_text(*self),
    {
        match self {
            TimberlogsError::Validation(v) => {
                let s = String::from_str("validation error: ");
                s.concat(v.to_string().as_str())
            },
            TimberlogsError::Http { status, body } => {
                let s = String::from_str("HTTP error ");
                let s = s.concat(decimal_string(*status as u64).as_str());
                let s = s.concat(": ");
                s.concat(body.as_str())
            },
            TimberlogsError::Request(m) => {
                let s = String::from_str("request failed: ");
                s.concat(m.as_str())
            },
            TimberlogsError::NotConnected => String::from_str("client is not connected"),
        }
    }
}

} // verus!
