use vstd::prelude::*;
use crate::diag::AttrFault;
use crate::diag::Diagnostic;
use crate::diag::TargetKind;
use crate::model::TypeDef;
use crate::model::TypeDefView;
use crate::text::dec_digits;
use crate::text::joined;
use crate::text::lower_seq;
use crate::text::push_dec;
use crate::text::push_joined;
use crate::text::push_lower;
use crate::text::push_upper;
use crate::text::upper_seq;

verus! {

/// The text of the one per-field assertion for field number `ctr` (counted
/// from one) of the type named `name`, whose declared type reads `ty`: a
/// uniquely named constant that instantiates a capability-constrained
/// function at the field's type, so that the host compiler accepts it
/// exactly when the type is stack-only.
pub open spec fn field_assert(name: Seq<char>, ty: Seq<char>, ctr: nat) -> Seq<char> {
    "const FIELD"@ + dec_digits(ctr) + upper_seq(name) + ": () = { const fn assert_fn"@
        + dec_digits(ctr) + lower_seq(name) + "<T: StackOnly>() {} assert_fn"@ + dec_digits(ctr)
        + lower_seq(name) + "::<"@ + ty + ">(); () };\n"@
}

/// The per-field assertions for the first `n` collected field types, in
/// declaration order, with counters 1 through `n`.
pub open spec fn field_asserts_upto(name: Seq<char>, tys: Seq<Seq<char>>, n: nat) -> Seq<char>
    decreases n,
{
    if n == 0 {
        Seq::<char>::empty()
    } else {
        field_asserts_upto(name, tys, (n - 1) as nat) + field_assert(name, tys[n - 1], n)
    }
}

/// The text of the type-level size assertion: an implementation block,
/// generic over the type's own lifetime parameters, holding one constant
/// whose array-length expression is well-typed exactly when the type's size
/// is at most the declared limit.
pub open spec fn size_assert(name: Seq<char>, lifetimes: Seq<Seq<char>>, limit: usize) -> Seq<
    char,
> {
    "impl<"@ + joined(lifetimes, ", "@) + "> "@ + name + "<"@ + joined(lifetimes, ", "@) + "> { #[doc(hidden)] const __RESOURCE_BOUND_ASSERTION_FAILED_BECAUSE_THE_STRUCT_SIZE_IS_MORE_THAN_THE_EXPLICITLY_DEFINED_VALUE: [(); 0] = [(); (core::mem::size_of::<Self>() <= "@
        + dec_digits(limit as nat) + ") as usize - 1]; }\n"@
}

/// Appends one per-field assertion to `out`.
pub fn push_field_assert(out: &mut String, name: &str, ty: &str, ctr: usize)
    requires
        ctr >= 1,
    ensures
        final(out)@ == old(out)@ + field_assert(name@, ty@, ctr as nat),
{
    out.append("const FIELD");
    push_dec(out, ctr);
    push_upper(out, name);
    out.append(": () = { const fn assert_fn");
    push_dec(out, ctr);
    push_lower(out, name);
    out.append("<T: StackOnly>() {} assert_fn");
    push_dec(out, ctr);
    push_lower(out, name);
    out.append("::<");
    out.append(ty);
    out.append(">(); () };\n");
    proof {
        assert(out@ =~= old(out)@ + field_assert(name@, ty@, ctr as nat));
    }
}

/// Appends the size assertion to `out`.
pub fn push_size_assert(out: &mut String, name: &str, lifetimes: &Vec<String>, limit: usize)
    ensures
        final(out)@ == old(out)@ + size_assert(name@, lifetimes.deep_view(), limit),
{
    out.append("impl<");
    push_joined(out, lifetimes, ", ");
    out.append("> ");
    out.append(name);
    out.append("<");
    push_joined(out, lifetimes, ", ");
    out.append("> { #[doc(hidden)] const __RESOURCE_BOUND_ASSERTION_FAILED_BECAUSE_THE_STRUCT_SIZE_IS_MORE_THAN_THE_EXPLICITLY_DEFINED_VALUE: [(); 0] = [(); (core::mem::size_of::<Self>() <= ");
    push_dec(out, limit);
    out.append(") as usize - 1]; }\n");
    proof {
        assert(out@ =~= old(out)@ + size_assert(name@, lifetimes.deep_view(), limit));
    }
}

/// The lifetime cited by a borrow diagnostic: the borrow marker of the field
/// it points at, or nothing when the diagnostic does not fit the definition.
pub open spec fn cited_lifetime(t: TypeDefView, field_index: usize) -> Seq<char> {
    if field_index < t.fields.len() && t.fields[field_index as int].borrow_lifetime is Some {
        t.fields[field_index as int].borrow_lifetime->0
    } else {
        Seq::<char>::empty()
    }
}

/// The message each diagnostic carries, as the build failure shows it.
pub open spec fn diagnostic_text(d: Diagnostic, t: TypeDefView) -> Seq<char> {
    match d {
        Diagnostic::UnsupportedTargetKind { kind } => match kind {
            TargetKind::Enum => "ResourceBound cannot be derived for enums"@,
            TargetKind::Union => "ResourceBound cannot be derived for unions"@,
            TargetKind::Struct => Seq::<char>::empty(),
        },
        Diagnostic::InvalidAttributeSyntax { fault } => match fault {
            AttrFault::SizeLimitIntParse => "parse int error"@,
            AttrFault::SizeLimitNotInteger => "#[size_limit] only accepts integer literals\n"@,
            AttrFault::SizeLimitBadShape => "invalid #[size_limit] attribute\nexpected: #[size_limit = <positive integer in bytes>]\nexample:  #[size_limit = 1024]"@,
            AttrFault::AllowHeapBadShape => "invalid #[allow_heap] attribute\nexpected: #[allow_heap = <bool>]\nexample:  #[allow_heap = true]"@,
        },
        Diagnostic::BorrowWithoutHeapAllowance { field_index } => "if you are borrowing '&T'\n"@
            + cited_lifetime(t, field_index)
            + " then allocating mechanism is unknown even if `T` implements `StackOnly`\n , so struct "@
            + t.name + " must be annotated with  `allow_heap=true`.\n \n consider feature :\n #[allow_heap=true]"@,
    }
}

/// Renders a diagnostic's message.
pub fn diagnostic_message(d: &Diagnostic, input: &TypeDef) -> (r: String)
    ensures
        r@ == diagnostic_text(*d, input@),
{
    match d {
        Diagnostic::UnsupportedTargetKind { kind } => match kind {
            TargetKind::Enum => String::from_str("ResourceBound cannot be derived for enums"),
            TargetKind::Union => String::from_str("ResourceBound cannot be derived for unions"),
            TargetKind::Struct => String::new(),
        },
        Diagnostic::InvalidAttributeSyntax { fault } => match fault {
            AttrFault::SizeLimitIntParse => String::from_str("parse int error"),
            AttrFault::SizeLimitNotInteger => String::from_str(
                "#[size_limit] only accepts integer literals\n",
            ),
            AttrFault::SizeLimitBadShape => String::from_str(
                "invalid #[size_limit] attribute\nexpected: #[size_limit = <positive integer in bytes>]\nexample:  #[size_limit = 1024]",
            ),
            AttrFault::AllowHeapBadShape => String::from_str(
                "invalid #[allow_heap] attribute\nexpected: #[allow_heap = <bool>]\nexample:  #[allow_heap = true]",
            ),
        },
        Diagnostic::BorrowWithoutHeapAllowance { field_index } => {
            let mut out: String = String::from_str("if you are borrowing '&T'\n");
            let i: usize = *field_index;
            if i < input.fields.len() {
                match &input.fields[i].borrow_lifetime {
                    Some(lt) => {
                        out.append(lt.as_str());
                        proof {
                            assert(input@.fields[i as int].borrow_lifetime is Some);
                            assert(input@.fields[i as int].borrow_lifetime->0 == lt@);
                        }
                    },
                    None => {
                    },
                }
            }
            out.append(
                " then allocating mechanism is unknown even if `T` implements `StackOnly`\n , so struct ",
            );
            out.append(input.name.as_str());
            out.append(
                " must be annotated with  `allow_heap=true`.\n \n consider feature :\n #[allow_heap=true]",
            );
            proof {
                assert(out@ =~= diagnostic_text(*d, input@));
            }
            out
        },
    }
}

/// The build-failing artifact emitted in place of generated code when a
/// diagnostic is reported.
pub open spec fn compile_error_code(msg: Seq<char>) -> Seq<char> {
    "::core::compile_error! { \""@ + msg + "\" }\n"@
}

/// Renders the build-failing artifact for a diagnostic.
pub fn push_compile_error(out: &mut String, msg: &str)
    ensures
        final(out)@ == old(out)@ + compile_error_code(msg@),
{
    out.append("::core::compile_error! { \"");
    out.append(msg);
    out.append("\" }\n");
    proof {
        assert(out@ =~= old(out)@ + compile_error_code(msg@));
    }
}

} // verus!
