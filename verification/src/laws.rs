use vstd::prelude::*;
use crate::diag::Diagnostic;
use crate::diag::TargetKind;
use crate::emit::field_assert;
use crate::emit::field_asserts_upto;
use crate::emit::size_assert;
use crate::expand::expand_result;
use crate::expand::field_texts;
use crate::expand::limit_of;
use crate::expand::offender_indices;
use crate::model::FieldTyView;
use crate::model::TypeDefView;
use crate::outer_attr::empty_config;
use crate::outer_attr::parse_attrs_from;
use crate::outer_attr::ConfigView;
use crate::text::all_dec_digits;
use crate::text::dec_digits;
use crate::text::dec_value;
use crate::text::digit_char;
use crate::text::digit_val;
use crate::text::is_dec_digit;
use crate::text::upper_seq;

verus! {

/// The collected borrow-marker positions are exactly the positions of the
/// fields whose type carries a borrow marker, and the first entry is the
/// first such field in declaration order.
pub proof fn lemma_offender_indices(fields: Seq<FieldTyView>)
    requires
        fields.len() <= usize::MAX,
    ensures
        (offender_indices(fields).len() > 0) <==> (exists|i: int|
            0 <= i < fields.len() && (#[trigger] fields[i].borrow_lifetime) is Some),
        forall|k: int|
            0 <= k < offender_indices(fields).len() ==> (#[trigger] offender_indices(fields)[k])
                < fields.len() && fields[offender_indices(fields)[k] as int].borrow_lifetime
                is Some,
        offender_indices(fields).len() > 0 ==> forall|j: int|
            0 <= j < offender_indices(fields)[0] ==> (#[trigger] fields[j].borrow_lifetime)
                is None,
    decreases fields.len(),
{
    if fields.len() > 0 {
        let d = fields.drop_last();
        lemma_offender_indices(d);
        let od = offender_indices(d);
        let of = offender_indices(fields);
        assert(forall|i: int| 0 <= i < d.len() ==> d[i] == #[trigger] fields[i]);
        if fields.last().borrow_lifetime is Some {
            assert(of == od.push((fields.len() - 1) as usize));
            assert(fields[fields.len() - 1].borrow_lifetime is Some);
            assert forall|k: int|
                0 <= k < of.len() implies (#[trigger] of[k]) < fields.len()
                && fields[of[k] as int].borrow_lifetime is Some by {
                if k < od.len() {
                    assert(of[k] == od[k]);
                    assert(d[od[k] as int].borrow_lifetime is Some);
                } else {
                    assert(of[k] == fields.len() - 1);
                }
            }
            if od.len() > 0 {
                assert(of[0] == od[0]);
                assert forall|j: int|
                    0 <= j < of[0] implies (#[trigger] fields[j].borrow_lifetime) is None by {
                    assert(d[j].borrow_lifetime is None);
                }
            } else {
                assert(of[0] == fields.len() - 1);
                assert forall|j: int|
                    0 <= j < of[0] implies (#[trigger] fields[j].borrow_lifetime) is None by {
                    if d[j].borrow_lifetime is Some {
                        assert(exists|i: int|
                            0 <= i < d.len() && (#[trigger] d[i].borrow_lifetime) is Some);
                    }
                    assert(d[j].borrow_lifetime is None);
                }
            }
        } else {
            assert(of == od);
            assert forall|k: int|
                0 <= k < of.len() implies (#[trigger] of[k]) < fields.len()
                && fields[of[k] as int].borrow_lifetime is Some by {
                assert(d[od[k] as int].borrow_lifetime is Some);
            }
            if exists|i: int|
                0 <= i < fields.len() && (#[trigger] fields[i].borrow_lifetime) is Some {
                let i = choose|i: int|
                    0 <= i < fields.len() && (#[trigger] fields[i].borrow_lifetime) is Some;
                assert(i < fields.len() - 1);
                assert(d[i].borrow_lifetime is Some);
                assert(od.len() > 0);
            }
            if of.len() > 0 {
                assert(exists|i: int|
                    0 <= i < d.len() && (#[trigger] d[i].borrow_lifetime) is Some);
                let i = choose|i: int|
                    0 <= i < d.len() && (#[trigger] d[i].borrow_lifetime) is Some;
                assert(fields[i].borrow_lifetime is Some);
                assert(of[0] == od[0]);
                assert forall|j: int|
                    0 <= j < of[0] implies (#[trigger] fields[j].borrow_lifetime) is None by {
                    assert(d[j].borrow_lifetime is None);
                }
            }
        }
    }
}

/// How the host compiler evaluates the generated size assertion: the length
/// expression casts the size comparison to an integer and subtracts one, so
/// it evaluates without underflow exactly when the actual size is within the
/// declared limit.
pub open spec fn size_assertion_passes(actual_size: nat, limit: nat) -> bool {
    (if actual_size <= limit {
        1int
    } else {
        0int
    }) - 1 >= 0
}

/// Mirrors the generated size assertion's length expression,
/// `(actual_size <= limit) as usize - 1`, with the underflow that fails the
/// build made explicit: the outcome is pass exactly when the actual size is
/// at most the limit.
pub fn size_assertion_outcome(actual_size: usize, limit: usize) -> (r: bool)
    ensures
        r == (actual_size <= limit),
        r == size_assertion_passes(actual_size as nat, limit as nat),
{
    let flag: usize = if actual_size <= limit {
        1
    } else {
        0
    };
    match flag.checked_sub(1) {
        Some(len) => len == 0,
        None => false,
    }
}

/// A type whose fields total zero bytes passes its size assertion under
/// every declared limit, and a type of actual size `m` under limit `n`
/// passes exactly when `m <= n`.
pub proof fn lemma_size_assertion_semantics(m: nat, n: nat)
    ensures
        size_assertion_passes(m, n) <==> m <= n,
        size_assertion_passes(0, n),
{
}

/// A sum-type or union target is rejected with the unsupported-target-kind
/// diagnostic, whatever its annotations, fields and lifetimes are.
pub proof fn lemma_non_product_target_rejected(t: TypeDefView)
    requires
        t.kind == TargetKind::Enum || t.kind == TargetKind::Union,
    ensures
        expand_result(t) == Err::<Seq<char>, Diagnostic>(
            Diagnostic::UnsupportedTargetKind { kind: t.kind },
        ),
{
}

/// When the annotations leave heap allowance off, a field whose type carries
/// a borrow marker makes validation fail with the borrow diagnostic, and the
/// diagnostic cites the first such field in declaration order.
pub proof fn lemma_borrow_without_heap_allowance_rejected(t: TypeDefView, c: ConfigView)
    requires
        t.kind == TargetKind::Struct,
        t.fields.len() <= usize::MAX,
        parse_attrs_from(empty_config(), t.attrs, 0) == Ok::<ConfigView, Diagnostic>(c),
        !c.allow_heap,
        exists|i: int| 0 <= i < t.fields.len() && (#[trigger] t.fields[i].borrow_lifetime) is Some,
    ensures
        expand_result(t) matches Err(d) && d matches Diagnostic::BorrowWithoutHeapAllowance {
            field_index,
        } && field_index < t.fields.len() && t.fields[field_index as int].borrow_lifetime is Some
            && (forall|j: int|
            0 <= j < field_index ==> (#[trigger] t.fields[j].borrow_lifetime) is None),
{
    lemma_offender_indices(t.fields);
}

/// When the annotations turn heap allowance on, validation succeeds whatever
/// the fields are — borrow markers included — and no per-field assertion is
/// generated: the output is exactly the one size assertion.
pub proof fn lemma_heap_allowance_skips_field_checks(t: TypeDefView, c: ConfigView)
    requires
        t.kind == TargetKind::Struct,
        parse_attrs_from(empty_config(), t.attrs, 0) == Ok::<ConfigView, Diagnostic>(c),
        c.allow_heap,
    ensures
        expand_result(t) == Ok::<Seq<char>, Diagnostic>(
            size_assert(t.name, t.lifetimes, limit_of(c)),
        ),
{
    assert(Seq::<char>::empty() + size_assert(t.name, t.lifetimes, limit_of(c)) =~= size_assert(
        t.name,
        t.lifetimes,
        limit_of(c),
    ));
}

/// The concatenated per-field assertions split around any one of them: the
/// assertion for field `i` (counted from zero) stands exactly after the
/// assertions of the fields before it.
proof fn lemma_field_asserts_split(name: Seq<char>, tys: Seq<Seq<char>>, i: nat, n: nat)
    requires
        i < n,
    ensures
        field_asserts_upto(name, tys, i).len() + field_assert(name, tys[i as int], i + 1).len()
            <= field_asserts_upto(name, tys, n).len(),
        field_asserts_upto(name, tys, n).subrange(
            field_asserts_upto(name, tys, i).len() as int,
            field_asserts_upto(name, tys, i).len() + field_assert(
                name,
                tys[i as int],
                i + 1,
            ).len() as int,
        ) == field_assert(name, tys[i as int], i + 1),
    decreases n,
{
    let pre = field_asserts_upto(name, tys, i);
    let fa = field_assert(name, tys[i as int], i + 1);
    if i + 1 == n {
        assert(field_asserts_upto(name, tys, n) == pre + fa);
        assert((pre + fa).subrange(pre.len() as int, pre.len() + fa.len() as int) =~= fa);
    } else {
        lemma_field_asserts_split(name, tys, i, (n - 1) as nat);
        let prev = field_asserts_upto(name, tys, (n - 1) as nat);
        let whole = field_asserts_upto(name, tys, n);
        assert(whole == prev + field_assert(name, tys[n - 1], n));
        assert(whole.subrange(pre.len() as int, pre.len() + fa.len() as int) =~= prev.subrange(
            pre.len() as int,
            pre.len() + fa.len() as int,
        ));
    }
}

/// When heap allowance is off and validation passes, every field gets
/// exactly one capability assertion, in declaration order: the generated
/// text holds the assertion for field `i` (counted from zero) right after
/// the assertions of the fields before it. Whether that assertion then
/// compiles is the host compiler's side of the check, and is decided by
/// membership of the field's type in the registry.
pub proof fn lemma_per_field_assertion_generated(t: TypeDefView, c: ConfigView, i: int)
    requires
        t.kind == TargetKind::Struct,
        parse_attrs_from(empty_config(), t.attrs, 0) == Ok::<ConfigView, Diagnostic>(c),
        !c.allow_heap,
        offender_indices(t.fields).len() == 0,
        0 <= i < t.fields.len(),
    ensures
        expand_result(t) is Ok,
        ({
            let code = expand_result(t)->Ok_0;
            let pre = field_asserts_upto(t.name, field_texts(t.fields), i as nat);
            let fa = field_assert(t.name, t.fields[i].text, (i + 1) as nat);
            &&& pre.len() + fa.len() <= code.len()
            &&& code.subrange(pre.len() as int, pre.len() + fa.len() as int) == fa
        }),
{
    let tys = field_texts(t.fields);
    let asserts = field_asserts_upto(t.name, tys, t.fields.len());
    let code = expand_result(t)->Ok_0;
    assert(code == asserts + size_assert(t.name, t.lifetimes, limit_of(c)));
    assert(tys[i] == t.fields[i].text);
    lemma_field_asserts_split(t.name, tys, i as nat, t.fields.len());
    let pre = field_asserts_upto(t.name, tys, i as nat);
    let fa = field_assert(t.name, t.fields[i].text, (i + 1) as nat);
    assert(code.subrange(pre.len() as int, pre.len() + fa.len() as int) =~= asserts.subrange(
        pre.len() as int,
        pre.len() + fa.len() as int,
    ));
}

/// The decimal rendering is a faithful, non-empty image of the number it
/// renders.
proof fn lemma_dec_digits_value(n: nat)
    ensures
        dec_digits(n).len() >= 1,
        all_dec_digits(dec_digits(n)),
        dec_value(dec_digits(n)) == n,
    decreases n,
{
    if n < 10 {
        let d = dec_digits(n);
        assert(d == seq![digit_char(n)]);
        assert(d.drop_last() =~= Seq::<char>::empty());
        assert(is_dec_digit(d[0]));
        assert(digit_char(n) as u32 == n + 48);
        assert(d.len() == 1 && d.last() == digit_char(n));
        assert(dec_value(d) == dec_value(d.drop_last()) * 10 + digit_val(d.last()));
        assert(dec_value(Seq::<char>::empty()) == 0);
        assert(dec_value(d) == digit_val(digit_char(n)));
    } else {
        lemma_dec_digits_value(n / 10);
        let p = dec_digits(n / 10);
        let d = dec_digits(n);
        assert(d == p.push(digit_char(n % 10)));
        assert(d.drop_last() =~= p);
        assert(is_dec_digit(digit_char(n % 10)));
        assert(forall|k: int| 0 <= k < d.len() ==> is_dec_digit(#[trigger] d[k]));
        assert(dec_value(d) == dec_value(p) * 10 + digit_val(digit_char(n % 10)));
    }
}

/// Distinct field counters give the generated constants distinct names:
/// within the name, what follows the fixed prefix is the counter's decimal
/// rendering followed by the case-folded type name, and that tail determines
/// the counter.
pub proof fn lemma_generated_names_unique(name: Seq<char>, a: nat, b: nat)
    requires
        a != b,
    ensures
        dec_digits(a) + upper_seq(name) != dec_digits(b) + upper_seq(name),
{
    lemma_dec_digits_value(a);
    lemma_dec_digits_value(b);
    let da = dec_digits(a);
    let db = dec_digits(b);
    if da + upper_seq(name) == db + upper_seq(name) {
        assert((da + upper_seq(name)).len() == (db + upper_seq(name)).len());
        assert(da.len() == db.len());
        assert forall|k: int| 0 <= k < da.len() implies da[k] == db[k] by {
            assert((da + upper_seq(name))[k] == da[k]);
            assert((db + upper_seq(name))[k] == db[k]);
        }
        assert(da =~= db);
        assert(dec_value(da) == dec_value(db));
        assert(false);
    }
}

/// A product type with no fields always validates, under any parsed
/// configuration: there is no field to offend the borrow rule and no
/// per-field assertion to emit, so the output is exactly the one size
/// assertion, which passes under every declared limit.
pub proof fn lemma_no_fields_always_validates(t: TypeDefView, c: ConfigView)
    requires
        t.kind == TargetKind::Struct,
        parse_attrs_from(empty_config(), t.attrs, 0) == Ok::<ConfigView, Diagnostic>(c),
        t.fields.len() == 0,
    ensures
        expand_result(t) == Ok::<Seq<char>, Diagnostic>(
            size_assert(t.name, t.lifetimes, limit_of(c)),
        ),
{
    assert(offender_indices(t.fields).len() == 0);
    assert(field_asserts_upto(t.name, field_texts(t.fields), 0) == Seq::<char>::empty());
    assert(Seq::<char>::empty() + size_assert(t.name, t.lifetimes, limit_of(c)) =~= size_assert(
        t.name,
        t.lifetimes,
        limit_of(c),
    ));
}

/// Generating code twice for the same type definition and annotation set
/// yields the same artifacts with the same pass or fail outcome.
pub proof fn lemma_generation_deterministic(a: TypeDefView, b: TypeDefView)
    requires
        a == b,
    ensures
        expand_result(a) == expand_result(b),
{
}

} // verus!
