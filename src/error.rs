//! The failures of classification, configuration and synthesis.
use vstd::prelude::*;

use crate::config::ModuleKind;

verus! {

/// Why a build could not be planned.
#[derive(Debug, Clone)]
pub enum Error {
    /// A flag that needs a following token (named here) was the last one.
    MissingValue(String),
    /// An `-O` or `-g` flag (named here) with a suffix outside its set.
    InvalidValue(String),
    /// A module kind setting that names no kind.
    UnknownModuleKind(String),
    /// A yes/no setting (name, value) whose value is neither.
    InvalidSetting(String, String),
    /// Position-independent code was asked for without exception handling.
    PicWithoutExceptions,
    /// The resolved sysroot directory (named here) does not exist.
    MissingSysroot(String),
    /// Only binaries can be linked; this is the kind that was asked for.
    NotLinkable(ModuleKind),
    /// A release tag specification (named here) of no accepted form.
    InvalidTag(String),
    /// No toolchain download exists for this operating system and
    /// architecture.
    UnsupportedPlatform(String, String),
}

/// The mathematical form of an [`Error`].
pub enum Fault {
    MissingValue(Seq<char>),
    InvalidValue(Seq<char>),
    UnknownModuleKind(Seq<char>),
    InvalidSetting(Seq<char>, Seq<char>),
    PicWithoutExceptions,
    MissingSysroot(Seq<char>),
    NotLinkable(ModuleKind),
    InvalidTag(Seq<char>),
    UnsupportedPlatform(Seq<char>, Seq<char>),
}

impl View for Error {
    type V = Fault;

    open spec fn view(&self) -> Fault {
        match self {
            Error::MissingValue(s) => Fault::MissingValue(s@),
            Error::InvalidValue(s) => Fault::InvalidValue(s@),
            Error::UnknownModuleKind(s) => Fault::UnknownModuleKind(s@),
            Error::InvalidSetting(n, v) => Fault::InvalidSetting(n@, v@),
            Error::PicWithoutExceptions => Fault::PicWithoutExceptions,
            Error::MissingSysroot(s) => Fault::MissingSysroot(s@),
            Error::NotLinkable(k) => Fault::NotLinkable(*k),
            Error::InvalidTag(s) => Fault::InvalidTag(s@),
            Error::UnsupportedPlatform(o, a) => Fault::UnsupportedPlatform(o@, a@),
        }
    }
}

} // verus!
