use vstd::prelude::*;
use crate::diag::Diagnostic;
use crate::diag::TargetKind;
use crate::emit::compile_error_code;
use crate::emit::diagnostic_message;
use crate::emit::diagnostic_text;
use crate::emit::field_asserts_upto;
use crate::emit::push_compile_error;
use crate::emit::push_field_assert;
use crate::emit::push_size_assert;
use crate::emit::size_assert;
use crate::model::FieldTy;
use crate::model::FieldTyView;
use crate::model::TypeDef;
use crate::model::TypeDefView;
use crate::outer_attr::empty_config;
use crate::outer_attr::parse_attrs_from;
use crate::outer_attr::parse_struct_attrs;
use crate::outer_attr::ConfigView;
use crate::outer_attr::OuterAttributes;

verus! {

/// The borrow-marker association collected while walking the fields: the
/// positions, in declaration order, of the fields whose declared type is a
/// reference carrying an explicit lifetime. Only the first entry is ever
/// cited by a diagnostic.
pub struct LifetimeAttr {
    pub lt: Vec<usize>,
}

/// The texts of the fields' declared types, in declaration order.
pub open spec fn field_texts(fields: Seq<FieldTyView>) -> Seq<Seq<char>> {
    fields.map_values(|f: FieldTyView| f.text)
}

/// The positions of the fields that carry a borrow marker, in declaration
/// order.
pub open spec fn offender_indices(fields: Seq<FieldTyView>) -> Seq<usize>
    decreases fields.len(),
{
    if fields.len() == 0 {
        Seq::<usize>::empty()
    } else {
        let init = offender_indices(fields.drop_last());
        if fields.last().borrow_lifetime is Some {
            init.push((fields.len() - 1) as usize)
        } else {
            init
        }
    }
}

/// Walks the field list once, recording each field's declared type in order
/// and, separately, the positions of the fields whose type carries a borrow
/// marker.
pub fn map_fields(fields: &Vec<FieldTy>, mutable: &mut OuterAttributes, field_attr: &mut LifetimeAttr) -> (r: Result<(), Diagnostic>)
    ensures
        r is Ok,
        final(mutable)@ == (ConfigView {
            field_types: old(mutable)@.field_types + field_texts(fields.deep_view()),
            ..old(mutable)@
        }),
        final(field_attr).lt@ == old(field_attr).lt@ + offender_indices(fields.deep_view()),
{
    let n: usize = fields.len();
    let mut i: usize = 0;
    while i < n
        invariant
            i <= n,
            n == fields.len(),
            mutable@ == (ConfigView {
                field_types: old(mutable)@.field_types + field_texts(
                    fields.deep_view().subrange(0, i as int),
                ),
                ..old(mutable)@
            }),
            field_attr.lt@ == old(field_attr).lt@ + offender_indices(
                fields.deep_view().subrange(0, i as int),
            ),
        decreases n - i,
    {
        let ghost pre = fields.deep_view().subrange(0, i as int);
        let ghost post = fields.deep_view().subrange(0, i + 1);
        proof {
            assert(post.drop_last() =~= pre);
            assert(post.last() == fields.deep_view()[i as int]);
            assert(fields.deep_view()[i as int] == fields@[i as int]@);
        }
        let field = &fields[i];
        mutable.push_type(field.text.clone());
        match &field.borrow_lifetime {
            Some(_) => {
                field_attr.lt.push(i);
                proof {
                    assert(offender_indices(post) =~= offender_indices(pre).push(i));
                }
            },
            None => {
                proof {
                    assert(offender_indices(post) =~= offender_indices(pre));
                }
            },
        }
        proof {
            assert(field_texts(post) =~= field_texts(pre).push(fields@[i as int]@.text));
            assert(mutable@.field_types =~= old(mutable)@.field_types + field_texts(post));
        }
        i = i + 1;
    }
    proof {
        assert(fields.deep_view().subrange(0, n as int) =~= fields.deep_view());
    }
    Ok(())
}

/// The code generated for a validated plan: the per-field assertions, all of
/// them skipped when indirection is allowed, followed by the one size
/// assertion.
pub open spec fn generated_code(t: TypeDefView, heap: bool, limit: usize) -> Seq<char> {
    (if heap {
        Seq::<char>::empty()
    } else {
        field_asserts_upto(t.name, field_texts(t.fields), t.fields.len())
    }) + size_assert(t.name, t.lifetimes, limit)
}

/// The size limit a configuration declares: an absent size-limit annotation
/// degenerates to a limit of zero bytes.
pub open spec fn limit_of(c: ConfigView) -> usize {
    if c.max_size is Some {
        c.max_size->0
    } else {
        0usize
    }
}

/// What the whole pipeline makes of one annotated type definition: the
/// generated artifacts, or the first diagnostic in pipeline order — target
/// kind, then annotation syntax, then the borrow rule. An absent size limit
/// degenerates to a limit of zero.
pub open spec fn expand_result(t: TypeDefView) -> Result<Seq<char>, Diagnostic> {
    match t.kind {
        TargetKind::Enum => Err(Diagnostic::UnsupportedTargetKind { kind: TargetKind::Enum }),
        TargetKind::Union => Err(Diagnostic::UnsupportedTargetKind { kind: TargetKind::Union }),
        TargetKind::Struct => match parse_attrs_from(empty_config(), t.attrs, 0) {
            Err(d) => Err(d),
            Ok(c) => {
                let limit = limit_of(c);
                if !c.allow_heap && offender_indices(t.fields).len() > 0 {
                    Err(
                        Diagnostic::BorrowWithoutHeapAllowance {
                            field_index: offender_indices(t.fields)[0],
                        },
                    )
                } else {
                    Ok(generated_code(t, c.allow_heap, limit))
                }
            },
        },
    }
}

/// Runs the pipeline on one type definition: validates the target kind,
/// parses the annotations, collects the fields, applies the borrow rule,
/// and generates the assertion artifacts.
pub fn expand_resource(input: &TypeDef) -> (r: Result<String, Diagnostic>)
    ensures
        (r is Ok) == (expand_result(input@) is Ok),
        r matches Ok(code) ==> code@ == expand_result(input@)->Ok_0,
        r matches Err(d) ==> expand_result(input@) == Err::<Seq<char>, Diagnostic>(d),
{
    match input.kind {
        TargetKind::Enum => {
            return Err(Diagnostic::UnsupportedTargetKind { kind: TargetKind::Enum });
        },
        TargetKind::Union => {
            return Err(Diagnostic::UnsupportedTargetKind { kind: TargetKind::Union });
        },
        TargetKind::Struct => {},
    }

    let mut outer_attrs = OuterAttributes::new();
    let n_attrs: usize = input.attrs.len();
    let mut ai: usize = 0;
    while ai < n_attrs
        invariant
            ai <= n_attrs,
            n_attrs == input.attrs.len(),
            input@.kind == TargetKind::Struct,
            parse_attrs_from(empty_config(), input@.attrs, 0) == parse_attrs_from(
                outer_attrs@,
                input@.attrs,
                ai as nat,
            ),
            outer_attrs@.field_types == empty_config().field_types,
        decreases n_attrs - ai,
    {
        proof {
            assert(input@.attrs[ai as int] == input.attrs@[ai as int]@);
        }
        match parse_struct_attrs(&mut outer_attrs, &input.attrs[ai]) {
            Ok(_) => {},
            Err(d) => {
                proof {
                    assert(parse_attrs_from(outer_attrs@, input@.attrs, ai as nat)
                        == Err::<ConfigView, Diagnostic>(d));
                    assert(input@.kind == TargetKind::Struct);
                    assert(expand_result(input@) == Err::<Seq<char>, Diagnostic>(d));
                }
                return Err(d);
            },
        }
        ai = ai + 1;
    }
    let ghost cfg = outer_attrs@;
    proof {
        assert(parse_attrs_from(empty_config(), input@.attrs, 0) == Ok::<ConfigView, Diagnostic>(
            cfg,
        ));
    }

    let size_limit: usize = match outer_attrs.get_max_size() {
        Some(s) => s,
        None => 0,
    };
    let heap_permission: bool = outer_attrs.get_heap_allo();
    let mut lifetime_attr = LifetimeAttr { lt: Vec::new() };
    if !heap_permission {
        match map_fields(&input.fields, &mut outer_attrs, &mut lifetime_attr) {
            Ok(_) => {},
            Err(d) => {
                return Err(d);
            },
        }
    }

    if lifetime_attr.lt.len() > 0 && !heap_permission {
        let unsolved: usize = lifetime_attr.lt[0];
        return Err(Diagnostic::BorrowWithoutHeapAllowance { field_index: unsolved });
    }

    let mut out: String = String::new();
    if !heap_permission {
        let field_types: &Vec<String> = outer_attrs.get_types();
        proof {
            assert(field_types.deep_view() =~= field_texts(input@.fields));
        }
        let n: usize = field_types.len();
        let mut i: usize = 0;
        while i < n
            invariant
                i <= n,
                n == field_types.len(),
                field_types.deep_view() == field_texts(input@.fields),
                out@ == field_asserts_upto(input@.name, field_texts(input@.fields), i as nat),
                input.name@ == input@.name,
            decreases n - i,
        {
            proof {
                assert(field_types.deep_view()[i as int] == field_types@[i as int]@);
            }
            push_field_assert(&mut out, input.name.as_str(), field_types[i].as_str(), i + 1);
            i = i + 1;
        }
        proof {
            assert(field_texts(input@.fields).len() == input@.fields.len());
        }
    }
    push_size_assert(&mut out, input.name.as_str(), &input.lifetimes, size_limit);
    proof {
        assert(out@ =~= generated_code(input@, cfg.allow_heap, size_limit));
    }
    Ok(out)
}

/// The text the derive hands back: the generated artifacts, or an artifact
/// that fails the build with the diagnostic's message.
pub open spec fn derive_output(t: TypeDefView) -> Seq<char> {
    match expand_result(t) {
        Ok(code) => code,
        Err(d) => compile_error_code(diagnostic_text(d, t)),
    }
}

/// The derive entry point over the modeled type definition.
pub fn resource_derive(input: &TypeDef) -> (r: String)
    ensures
        r@ == derive_output(input@),
{
    match expand_resource(input) {
        Ok(ts) => ts,
        Err(e) => {
            let msg: String = diagnostic_message(&e, input);
            let mut out: String = String::new();
            push_compile_error(&mut out, msg.as_str());
            proof {
                assert(out@ =~= derive_output(input@));
            }
            out
        },
    }
}

} // verus!
