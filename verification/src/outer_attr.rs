use vstd::prelude::*;
use crate::diag::AttrFault;
use crate::diag::Diagnostic;
use crate::model::AttrInput;
use crate::model::AttrInputView;
use crate::model::AttrValue;
use crate::model::AttrValueView;
use crate::text::all_dec_digits;
use crate::text::dec_value;
use crate::text::parse_dec_usize;
use crate::text::str_eq;

verus! {

/// The configuration parsed from the annotations on one type definition,
/// together with the field types collected for the per-field assertions.
pub struct OuterAttributes {
    max_size: Option<usize>,
    allow_heap: bool,
    field_types: Vec<String>,
}

/// Mathematical image of `OuterAttributes`.
pub struct ConfigView {
    pub max_size: Option<usize>,
    pub allow_heap: bool,
    pub field_types: Seq<Seq<char>>,
}

impl View for OuterAttributes {
    type V = ConfigView;

    closed spec fn view(&self) -> ConfigView {
        ConfigView {
            max_size: self.max_size,
            allow_heap: self.allow_heap,
            field_types: self.field_types.deep_view(),
        }
    }
}

/// The configuration before any annotation is read: no size limit, no
/// indirection allowed, no field types collected.
pub open spec fn empty_config() -> ConfigView {
    ConfigView { max_size: None, allow_heap: false, field_types: Seq::<Seq<char>>::empty() }
}

impl OuterAttributes {
    pub fn new() -> (r: Self)
        ensures
            r@ == empty_config(),
    {
        let r = OuterAttributes { max_size: None, allow_heap: false, field_types: Vec::new() };
        proof {
            assert(r@.field_types =~= empty_config().field_types);
        }
        r
    }

    pub fn set_max_size(&mut self, value: usize)
        ensures
            final(self)@ == (ConfigView { max_size: Some(value), ..old(self)@ }),
    {
        self.max_size = Some(value);
    }

    pub fn set_heap_allo(&mut self, value: bool)
        ensures
            final(self)@ == (ConfigView { allow_heap: value, ..old(self)@ }),
    {
        self.allow_heap = value;
    }

    pub fn get_max_size(&self) -> (r: Option<usize>)
        ensures
            r == self@.max_size,
    {
        self.max_size
    }

    pub fn get_heap_allo(&self) -> (r: bool)
        ensures
            r == self@.allow_heap,
    {
        self.allow_heap
    }

    pub fn push_type(&mut self, value: String)
        ensures
            final(self)@ == (ConfigView {
                field_types: old(self)@.field_types.push(value@),
                ..old(self)@
            }),
    {
        self.field_types.push(value);
        proof {
            assert(self@.field_types =~= old(self)@.field_types.push(value@));
        }
    }

    pub fn get_types(&self) -> (r: &Vec<String>)
        ensures
            r.deep_view() == self@.field_types,
    {
        &self.field_types
    }
}

/// What reading one annotation does to the configuration: the size-limit key
/// wants an integer literal whose digits fit the machine's unsigned size
/// type; the heap-allowance key wants a boolean literal; any other key is
/// left to other macros and changes nothing.
pub open spec fn attr_step(c: ConfigView, a: AttrInputView) -> Result<ConfigView, AttrFault> {
    if a.key == "size_limit"@ {
        match a.value {
            AttrValueView::IntLit(digits) => if digits.len() > 0 && all_dec_digits(digits)
                && dec_value(digits) <= usize::MAX as int {
                Ok(ConfigView { max_size: Some(dec_value(digits) as usize), ..c })
            } else {
                Err(AttrFault::SizeLimitIntParse)
            },
            AttrValueView::BoolLit(_) => Err(AttrFault::SizeLimitNotInteger),
            AttrValueView::OtherLit => Err(AttrFault::SizeLimitNotInteger),
            AttrValueView::NonLitExpr => Err(AttrFault::SizeLimitBadShape),
            AttrValueView::NotNameValue => Err(AttrFault::SizeLimitBadShape),
        }
    } else if a.key == "allow_heap"@ {
        match a.value {
            AttrValueView::BoolLit(b) => Ok(ConfigView { allow_heap: b, ..c }),
            _ => Err(AttrFault::AllowHeapBadShape),
        }
    } else {
        Ok(c)
    }
}

/// Reading the annotations from position `i` on, left to right, stopping at
/// the first fault.
pub open spec fn parse_attrs_from(c: ConfigView, attrs: Seq<AttrInputView>, i: nat) -> Result<
    ConfigView,
    Diagnostic,
>
    decreases attrs.len() - i,
{
    if i >= attrs.len() {
        Ok(c)
    } else {
        match attr_step(c, attrs[i as int]) {
            Ok(c2) => parse_attrs_from(c2, attrs, i + 1),
            Err(fault) => Err(Diagnostic::InvalidAttributeSyntax { fault }),
        }
    }
}

/// Reads one annotation into the configuration, or reports precisely how its
/// shape is wrong.
pub fn parse_struct_attrs(struct_attr: &mut OuterAttributes, attr: &AttrInput) -> (r: Result<
    (),
    Diagnostic,
>)
    ensures
        match attr_step(old(struct_attr)@, attr@) {
            Ok(c2) => r is Ok && final(struct_attr)@ == c2,
            Err(fault) => r == Err::<(), Diagnostic>(
                Diagnostic::InvalidAttributeSyntax { fault },
            ) && final(struct_attr)@ == old(struct_attr)@,
        },
{
    if str_eq(attr.key.as_str(), "size_limit") {
        match &attr.value {
            AttrValue::IntLit(digits) => {
                match parse_dec_usize(digits.as_str()) {
                    Some(size_limit) => {
                        struct_attr.set_max_size(size_limit);
                        Ok(())
                    },
                    None => Err(
                        Diagnostic::InvalidAttributeSyntax {
                            fault: AttrFault::SizeLimitIntParse,
                        },
                    ),
                }
            },
            AttrValue::BoolLit(_) => Err(
                Diagnostic::InvalidAttributeSyntax { fault: AttrFault::SizeLimitNotInteger },
            ),
            AttrValue::OtherLit => Err(
                Diagnostic::InvalidAttributeSyntax { fault: AttrFault::SizeLimitNotInteger },
            ),
            AttrValue::NonLitExpr => Err(
                Diagnostic::InvalidAttributeSyntax { fault: AttrFault::SizeLimitBadShape },
            ),
            AttrValue::NotNameValue => Err(
                Diagnostic::InvalidAttributeSyntax { fault: AttrFault::SizeLimitBadShape },
            ),
        }
    } else if str_eq(attr.key.as_str(), "allow_heap") {
        match &attr.value {
            AttrValue::BoolLit(permission) => {
                struct_attr.set_heap_allo(*permission);
                Ok(())
            },
            _ => Err(Diagnostic::InvalidAttributeSyntax { fault: AttrFault::AllowHeapBadShape }),
        }
    } else {
        Ok(())
    }
}

} // verus!
