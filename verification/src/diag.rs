use vstd::prelude::*;

verus! {

/// The kind of item a derive annotation was attached to. Only product types
/// (structs) are accepted targets.
#[derive(Clone, Copy, PartialEq, Eq, Structural, Debug)]
pub enum TargetKind {
    Struct,
    Enum,
    Union,
}

/// How an annotation failed to parse.
#[derive(Clone, Copy, PartialEq, Eq, Structural, Debug)]
pub enum AttrFault {
    /// The size-limit value is an integer literal whose digits do not parse
    /// into the machine's unsigned size type.
    SizeLimitIntParse,
    /// The size-limit value is a literal of another kind.
    SizeLimitNotInteger,
    /// The size-limit annotation is not `key = <literal>` shaped.
    SizeLimitBadShape,
    /// The heap-allowance annotation is anything but `key = <boolean literal>`.
    AllowHeapBadShape,
}

/// A fatal validation outcome; generation is aborted and the build fails with
/// a message. The carried indices stand for the source location cited by the
/// message: the position of the offending field in declaration order.
#[derive(Clone, Copy, PartialEq, Eq, Structural, Debug)]
pub enum Diagnostic {
    /// The target is a sum type or an untagged union.
    UnsupportedTargetKind { kind: TargetKind },
    /// An annotation value is not the expected literal kind, or the
    /// annotation shape is malformed.
    InvalidAttributeSyntax { fault: AttrFault },
    /// A field's type borrows externally owned data while the configuration
    /// does not allow indirection.
    BorrowWithoutHeapAllowance { field_index: usize },
}

} // verus!
