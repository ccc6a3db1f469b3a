//! Compiler for a line-oriented textual description of the Zigbee Cluster
//! Library attribute catalog. Schema text is parsed into clusters, attributes
//! and enumerations; wire types are resolved; range bounds and default
//! values are validated; and the result is an immutable descriptor registry.
use vstd::prelude::*;

pub mod attribute;
pub mod bounds;
pub mod bytes;
pub mod compile;
pub mod decl;
pub mod defaults;
pub mod enums;
pub mod literal;
pub mod parser;
pub mod types;
pub mod wiretype;

verus! {

/// A fatal compilation error: any of these aborts the whole compile.
#[derive(PartialEq, Eq, Structural, Debug, Copy, Clone)]
pub enum CompileError {
    /// A `cluster` or enumeration opener, or an enumeration body line, does
    /// not have the fields its form requires.
    MalformedDeclaration { line: usize },
    /// A scope was closed that was never opened, opened inside an
    /// incompatible scope, or left open at the end of the input.
    UnbalancedScope { line: usize },
    /// A named range bound does not resolve to a sibling attribute of the
    /// same cluster, or no cluster context exists.
    UnresolvedBoundReference { line: usize },
    /// A token could not be parsed as the literal kind its place requires.
    InvalidLiteral { line: usize },
    /// A `non` default was requested for a wire type that defines no
    /// "no value" sentinel.
    MissingSentinel { line: usize },
}

impl CompileError {
    /// The line of schema text the error points at.
    pub fn line(&self) -> (r: usize)
        ensures
            r == self.spec_line(),
    {
        match self {
            CompileError::MalformedDeclaration { line } => *line,
            CompileError::UnbalancedScope { line } => *line,
            CompileError::UnresolvedBoundReference { line } => *line,
            CompileError::InvalidLiteral { line } => *line,
            CompileError::MissingSentinel { line } => *line,
        }
    }

    /// The line of schema text the error points at, as a mathematical value.
    pub open spec fn spec_line(&self) -> usize {
        match *self {
            CompileError::MalformedDeclaration { line } => line,
            CompileError::UnbalancedScope { line } => line,
            CompileError::UnresolvedBoundReference { line } => line,
            CompileError::InvalidLiteral { line } => line,
            CompileError::MissingSentinel { line } => line,
        }
    }

    /// A short description of the error.
    pub fn message(&self) -> (r: &'static str) {
        match self {
            CompileError::MalformedDeclaration { .. } => "malformed declaration",
            CompileError::UnbalancedScope { .. } => "unbalanced scope",
            CompileError::UnresolvedBoundReference { .. } => "unresolved bound reference",
            CompileError::InvalidLiteral { .. } => "invalid literal",
            CompileError::MissingSentinel { .. } => "type has no sentinel for a 'non' default",
        }
    }
}

/// A non-fatal diagnostic: an attribute record with the wrong field count
/// was dropped, and compilation went on without it.
#[derive(PartialEq, Eq, Structural, Debug, Copy, Clone)]
pub struct Diagnostic {
    /// The line of schema text the dropped record came from.
    pub line: usize,
}

/// An error surfaced by a compiled descriptor at consumption time.
#[derive(PartialEq, Eq, Structural, Debug, Copy, Clone)]
pub enum ZclError {
    /// A value could not be serialized.
    Serialization,
    /// A value lies outside the domain declared for its attribute.
    ValueOutOfRange,
}

impl ZclError {
    /// A short description of the error.
    pub fn message(&self) -> (r: &'static str) {
        match self {
            ZclError::Serialization => "failed to serialize value",
            ZclError::ValueOutOfRange => "value is out of range",
        }
    }
}

/// A protocol command identifier.
#[derive(PartialEq, Eq, Structural, Debug, Copy, Clone)]
pub enum Command {
    PlaceholderTodo,
}

/// A protocol status code.
#[derive(PartialEq, Eq, Structural, Debug, Copy, Clone)]
pub enum Status {
    /// Operation was successful.
    Success,
    /// Operation was not successful.
    Failure,
    /// The sender is not authorized to carry out this command.
    NotAuthorized,
    /// Reserved code 0x7f.
    Reserved7f,
    /// The command has invalid or missing fields.
    MalformedCommand,
    /// The command is not supported on the device.
    UnsupCommand,
    /// At least one field of the command holds an incorrect value.
    InvalidField,
    /// The attribute does not exist on the device.
    UnsupportedAttribute,
    /// The value is out of range or reserved; the attribute keeps its value.
    InvalidValue,
    /// Attempt to write a read-only attribute.
    ReadOnly,
    /// Not enough free space to carry out the operation.
    InsufficientSpace,
    /// The requested entry was not found.
    NotFound,
    /// Periodic reports cannot be issued for this attribute.
    UnreportableAttribute,
    /// The data type given for an attribute is incorrect.
    InvalidDataType,
    /// The selector for an attribute is incorrect.
    InvalidSelector,
    /// Reserved code 0x92.
    Reserved92,
    /// The exchange was aborted due to excessive response time.
    Timeout,
    /// A client or server decided to abort the upgrade process.
    Abort,
    /// Invalid upgrade image.
    InvalidImage,
    /// The server does not have a data block available yet.
    WaitForData,
    /// No upgrade image is available for the client.
    NoImageAvailable,
    /// The client requires more image files to upgrade.
    RequireMoreImage,
    /// The command was received and is being processed.
    NotificationPending,
    /// Reserved code 0xc2.
    ReservedC2,
    /// The cluster is not supported.
    UnsupportedCluster,
    /// Any other code.
    Invalid(u8),
}

impl Status {
    /// The wire encoding of this status.
    pub fn code(&self) -> (r: u8)
        ensures
            r == self.spec_code(),
    {
        match self {
            Status::Success => 0x00,
            Status::Failure => 0x01,
            Status::NotAuthorized => 0x7e,
            Status::Reserved7f => 0x7f,
            Status::MalformedCommand => 0x80,
            Status::UnsupCommand => 0x81,
            Status::InvalidField => 0x85,
            Status::UnsupportedAttribute => 0x86,
            Status::InvalidValue => 0x87,
            Status::ReadOnly => 0x88,
            Status::InsufficientSpace => 0x89,
            Status::NotFound => 0x8b,
            Status::UnreportableAttribute => 0x8c,
            Status::InvalidDataType => 0x8d,
            Status::InvalidSelector => 0x8e,
            Status::Reserved92 => 0x92,
            Status::Timeout => 0x94,
            Status::Abort => 0x95,
            Status::InvalidImage => 0x96,
            Status::WaitForData => 0x97,
            Status::NoImageAvailable => 0x98,
            Status::RequireMoreImage => 0x99,
            Status::NotificationPending => 0x9a,
            Status::ReservedC2 => 0xc2,
            Status::UnsupportedCluster => 0xc3,
            Status::Invalid(x) => *x,
        }
    }

    /// The wire encoding, as a mathematical value.
    pub open spec fn spec_code(&self) -> u8 {
        match self {
            Status::Success => 0x00,
            Status::Failure => 0x01,
            Status::NotAuthorized => 0x7e,
            Status::Reserved7f => 0x7f,
            Status::MalformedCommand => 0x80,
            Status::UnsupCommand => 0x81,
            Status::InvalidField => 0x85,
            Status::UnsupportedAttribute => 0x86,
            Status::InvalidValue => 0x87,
            Status::ReadOnly => 0x88,
            Status::InsufficientSpace => 0x89,
            Status::NotFound => 0x8b,
            Status::UnreportableAttribute => 0x8c,
            Status::InvalidDataType => 0x8d,
            Status::InvalidSelector => 0x8e,
            Status::Reserved92 => 0x92,
            Status::Timeout => 0x94,
            Status::Abort => 0x95,
            Status::InvalidImage => 0x96,
            Status::WaitForData => 0x97,
            Status::NoImageAvailable => 0x98,
            Status::RequireMoreImage => 0x99,
            Status::NotificationPending => 0x9a,
            Status::ReservedC2 => 0xc2,
            Status::UnsupportedCluster => 0xc3,
            Status::Invalid(x) => *x,
        }
    }

    /// Decodes a status byte: every named code decodes to its own variant,
    /// every other byte to `Invalid` carrying that byte. The round trip back
    /// through `code` is the identity on the byte.
    pub fn from_code(code: u8) -> (r: Status)
        ensures
            r.spec_code() == code,
            !(r matches Status::Invalid(_)) ==> r == Status::spec_from_code(code),
            r == Status::spec_from_code(code),
    {
        match code {
            0x00 => Status::Success,
            0x01 => Status::Failure,
            0x7e => Status::NotAuthorized,
            0x7f => Status::Reserved7f,
            0x80 => Status::MalformedCommand,
            0x81 => Status::UnsupCommand,
            0x85 => Status::InvalidField,
            0x86 => Status::UnsupportedAttribute,
            0x87 => Status::InvalidValue,
            0x88 => Status::ReadOnly,
            0x89 => Status::InsufficientSpace,
            0x8b => Status::NotFound,
            0x8c => Status::UnreportableAttribute,
            0x8d => Status::InvalidDataType,
            0x8e => Status::InvalidSelector,
            0x92 => Status::Reserved92,
            0x94 => Status::Timeout,
            0x95 => Status::Abort,
            0x96 => Status::InvalidImage,
            0x97 => Status::WaitForData,
            0x98 => Status::NoImageAvailable,
            0x99 => Status::RequireMoreImage,
            0x9a => Status::NotificationPending,
            0xc2 => Status::ReservedC2,
            0xc3 => Status::UnsupportedCluster,
            x => Status::Invalid(x),
        }
    }

    /// Decoding of a status byte, as a mathematical value.
    pub open spec fn spec_from_code(code: u8) -> Status {
        if code == 0x00 {
            Status::Success
        } else if code == 0x01 {
            Status::Failure
        } else if code == 0x7e {
            Status::NotAuthorized
        } else if code == 0x7f {
            Status::Reserved7f
        } else if code == 0x80 {
            Status::MalformedCommand
        } else if code == 0x81 {
            Status::UnsupCommand
        } else if code == 0x85 {
            Status::InvalidField
        } else if code == 0x86 {
            Status::UnsupportedAttribute
        } else if code == 0x87 {
            Status::InvalidValue
        } else if code == 0x88 {
            Status::ReadOnly
        } else if code == 0x89 {
            Status::InsufficientSpace
        } else if code == 0x8b {
            Status::NotFound
        } else if code == 0x8c {
            Status::UnreportableAttribute
        } else if code == 0x8d {
            Status::InvalidDataType
        } else if code == 0x8e {
            Status::InvalidSelector
        } else if code == 0x92 {
            Status::Reserved92
        } else if code == 0x94 {
            Status::Timeout
        } else if code == 0x95 {
            Status::Abort
        } else if code == 0x96 {
            Status::InvalidImage
        } else if code == 0x97 {
            Status::WaitForData
        } else if code == 0x98 {
            Status::NoImageAvailable
        } else if code == 0x99 {
            Status::RequireMoreImage
        } else if code == 0x9a {
            Status::NotificationPending
        } else if code == 0xc2 {
            Status::ReservedC2
        } else if code == 0xc3 {
            Status::UnsupportedCluster
        } else {
            Status::Invalid(code)
        }
    }
}

} // verus!
