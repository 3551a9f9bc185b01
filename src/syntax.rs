//! The shape of a parsed source file, as far as the extractor reads it.
//!
//! A parser outside the library fills these types from the syntax tree;
//! nothing here depends on how the text was parsed.
use vstd::prelude::*;

verus! {

/// How a method takes its receiver.
#[derive(Clone, Copy, Debug, PartialEq, Eq, Structural)]
pub enum Receiver {
    /// No receiver: an associated function.
    Absent,
    /// `self` or `mut self`.
    Value,
    /// `&self` or `&mut self`.
    Reference,
}

/// The declared return type of a method.
#[derive(Clone, Debug)]
pub enum ReturnKind {
    /// No return type.
    Unit,
    /// A path type, by the identifier of its last segment.
    Named(String),
    /// Any other type.
    Other,
}

/// One non-receiver parameter of a method.
#[derive(Clone, Debug)]
pub struct Param {
    /// The identifier, when the pattern is a plain identifier.
    pub name: Option<String>,
    /// The type's text, when the type is a path (`usize`, `Vec<String>`).
    pub type_text: Option<String>,
}

/// One method of an implementation block.
#[derive(Clone, Debug)]
pub struct FnItem {
    pub name: String,
    /// Whether it is declared `pub`.
    pub is_public: bool,
    pub receiver: Receiver,
    /// Parameters after the receiver, in order.
    pub params: Vec<Param>,
    pub output: ReturnKind,
    /// Raw documentation strings of the method, in order.
    pub docs: Vec<String>,
}

/// One implementation block.
#[derive(Clone, Debug)]
pub struct ImplBlock {
    /// The identifier of the last segment of the implemented type, when it
    /// is a path type.
    pub self_type: Option<String>,
    /// Its methods, in declaration order.
    pub methods: Vec<FnItem>,
}

/// The implementation blocks of one source file, in declaration order.
#[derive(Clone, Debug)]
pub struct SourceFile {
    pub impls: Vec<ImplBlock>,
}

} // verus!
