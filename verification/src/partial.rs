//! The partial-configuration data model and its merge, finalize and
//! validate semantics.
//!
//! A partial configuration holds one optional slot per declared field,
//! in declaration order.  Merging is right-biased per field: when both
//! sides hold a value the field's declared merge policy decides the
//! result; when only one side holds a value that value wins; when
//! neither does, the slot stays absent.  Finalizing layers freshly
//! computed defaults, then the caller's partial, then the environment
//! overlay, in that fixed order.  Validating walks the tree and
//! collects every failing leaf with its path, never stopping at the
//! first failure.

use vstd::prelude::*;
use crate::error::HandlerError;
use crate::error::PathSegment;
use crate::error::ValidateError;

verus! {

/// One field value of a partial configuration.
#[derive(Debug, PartialEq, Eq)]
pub enum FieldValue {
    Bool(bool),
    Int(i64),
    Str(String),
    List(Vec<String>),
    Nested(PartialFields),
}

/// A partial configuration: one optional slot per declared field, in
/// declaration order.
#[derive(Debug, PartialEq, Eq)]
pub struct PartialFields {
    pub values: Vec<Option<FieldValue>>,
}

/// How two values of one field combine when both layers hold one.
#[derive(Clone, Copy, Debug, PartialEq, Eq, Structural)]
pub enum MergePolicy {
    /// Keep the earlier layer's value.
    Preserve,
    /// Take the later layer's value.
    Replace,
    /// Concatenate list values, later elements after earlier ones.
    Append,
    /// Deep-merge nested partial configurations slot by slot.
    Merge,
    /// Overlapping values are an error.
    Reject,
}

/// The semantic rule a field value must satisfy during validation.
#[derive(Clone, Copy, Debug, PartialEq, Eq, Structural)]
pub enum ValidateRule {
    /// Always satisfied.
    Anything,
    /// The field must hold a value.
    Required,
    /// A present string value must not be empty.
    NonEmptyStr,
    /// A present integer value must not be negative.
    NonNegativeInt,
}

/// The declared behaviour of one field: its name (for error paths),
/// its merge policy, its validation rule, and the specs of its nested
/// fields when the value is itself a partial configuration.
#[derive(Debug)]
pub struct FieldSpec {
    pub name: String,
    pub policy: MergePolicy,
    pub rule: ValidateRule,
    pub fields: Vec<FieldSpec>,
}

/// The mathematical shape of a field value.
pub enum ValueView {
    Bool(bool),
    Int(int),
    Str(Seq<char>),
    List(Seq<Seq<char>>),
    Nested(Seq<Option<ValueView>>),
}

/// The mathematical shape of a field's declared behaviour.
pub struct FieldSpecView {
    pub name: Seq<char>,
    pub policy: MergePolicy,
    pub rule: ValidateRule,
    pub fields: Seq<FieldSpecView>,
}

/// The mathematical shape of one path step.
pub enum PathSegView {
    Key(Seq<char>),
    Index(int),
}

/// The mathematical shape of one validation failure.
pub struct ErrView {
    pub path: Seq<PathSegView>,
    pub message: Seq<char>,
}

/// The views of a vector of strings.
pub open spec fn list_view(items: Seq<String>) -> Seq<Seq<char>> {
    Seq::new(items.len(), |i: int| items[i]@)
}

/// The view of a field value.
pub open spec fn value_view(v: FieldValue) -> ValueView
    decreases v, 2int,
{
    match v {
        FieldValue::Bool(b) => ValueView::Bool(b),
        FieldValue::Int(x) => ValueView::Int(x as int),
        FieldValue::Str(s) => ValueView::Str(s@),
        FieldValue::List(items) => ValueView::List(list_view(items@)),
        FieldValue::Nested(p) => ValueView::Nested(partial_view(p)),
    }
}

/// The view of one optional slot.
pub open spec fn slot_view(v: Option<FieldValue>) -> Option<ValueView>
    decreases v, 2int,
{
    match v {
        Option::Some(x) => Option::Some(value_view(x)),
        Option::None => Option::None,
    }
}

/// The view of slot `i` of a slot vector, absent outside the range.
pub open spec fn slot_view_at(vals: Seq<Option<FieldValue>>, i: int) -> Option<ValueView>
    decreases vals, 1int,
{
    if 0 <= i < vals.len() {
        slot_view(vals[i])
    } else {
        Option::None
    }
}

/// The views of a vector of slots.
pub open spec fn slots_view(vals: Seq<Option<FieldValue>>) -> Seq<Option<ValueView>>
    decreases vals, 2int,
{
    Seq::new(vals.len(), |i: int| slot_view_at(vals, i))
}

/// The view of a partial configuration.
pub open spec fn partial_view(p: PartialFields) -> Seq<Option<ValueView>>
    decreases p, 3int,
{
    slots_view(p.values@)
}

impl View for FieldValue {
    type V = ValueView;

    open spec fn view(&self) -> ValueView {
        value_view(*self)
    }
}

impl View for PartialFields {
    type V = Seq<Option<ValueView>>;

    open spec fn view(&self) -> Seq<Option<ValueView>> {
        partial_view(*self)
    }
}

/// The view of field spec `i` of a spec vector, or the out-of-range
/// default.
pub open spec fn spec_view_at(specs: Seq<FieldSpec>, i: int) -> FieldSpecView
    decreases specs, 1int,
{
    if 0 <= i < specs.len() {
        spec_view(specs[i])
    } else {
        default_spec_view()
    }
}

/// The views of a vector of field specs.
pub open spec fn specs_view(specs: Seq<FieldSpec>) -> Seq<FieldSpecView>
    decreases specs, 2int,
{
    Seq::new(specs.len(), |i: int| spec_view_at(specs, i))
}

/// The view of a field spec.
pub open spec fn spec_view(fs: FieldSpec) -> FieldSpecView
    decreases fs, 3int,
{
    FieldSpecView {
        name: fs.name@,
        policy: fs.policy,
        rule: fs.rule,
        fields: specs_view(fs.fields@),
    }
}

impl View for FieldSpec {
    type V = FieldSpecView;

    open spec fn view(&self) -> FieldSpecView {
        spec_view(*self)
    }
}

impl View for PathSegment {
    type V = PathSegView;

    open spec fn view(&self) -> PathSegView {
        match self {
            PathSegment::Key(s) => PathSegView::Key(s@),
            PathSegment::Index(i) => PathSegView::Index(*i as int),
        }
    }
}

/// The views of a path.
pub open spec fn path_view(path: Seq<PathSegment>) -> Seq<PathSegView> {
    Seq::new(path.len(), |i: int| path[i]@)
}

impl View for ValidateError {
    type V = ErrView;

    open spec fn view(&self) -> ErrView {
        ErrView { path: path_view(self.path@), message: self.message@ }
    }
}

/// The views of a vector of validation failures.
pub open spec fn errs_view(errs: Seq<ValidateError>) -> Seq<ErrView> {
    Seq::new(errs.len(), |i: int| errs[i]@)
}

/// Structural size of a field value, a termination measure for the
/// functions that walk nested partials.
pub open spec fn value_size(v: FieldValue) -> nat
    decreases v, 2int,
{
    match v {
        FieldValue::Nested(p) => 2 + slots_size(p.values@),
        _ => 1,
    }
}

/// Structural size of one optional slot.
pub open spec fn slot_size(v: Option<FieldValue>) -> nat
    decreases v, 2int,
{
    match v {
        Option::Some(x) => value_size(x),
        Option::None => 0,
    }
}

/// Structural size of a sequence of slots.
pub open spec fn slots_size(vals: Seq<Option<FieldValue>>) -> nat
    decreases vals, 3int,
{
    if vals.len() == 0 {
        0
    } else {
        slot_size(vals[0]) + slots_size(vals.drop_first())
    }
}

/// Every slot's size is bounded by the size of the whole sequence.
pub proof fn lemma_slot_size_le(vals: Seq<Option<FieldValue>>, i: int)
    requires
        0 <= i < vals.len(),
    ensures
        slot_size(vals[i]) <= slots_size(vals),
    decreases vals.len(),
{
    if i > 0 {
        lemma_slot_size_le(vals.drop_first(), i - 1);
        assert(vals.drop_first()[i - 1] == vals[i]);
    }
}

/// The spec of a field that lies outside the declared list; merging
/// such a slot takes the later layer's value and validation accepts
/// anything.
pub open spec fn default_spec_view() -> FieldSpecView {
    FieldSpecView {
        name: Seq::empty(),
        policy: MergePolicy::Replace,
        rule: ValidateRule::Anything,
        fields: Seq::empty(),
    }
}

/// The spec governing slot `i`.
pub open spec fn field_at(specs: Seq<FieldSpecView>, i: int) -> FieldSpecView {
    if 0 <= i < specs.len() {
        specs[i]
    } else {
        default_spec_view()
    }
}

/// Slot `i` of a partial, absent when the partial is shorter.
pub open spec fn slot_at(vals: Seq<Option<ValueView>>, i: int) -> Option<ValueView> {
    if 0 <= i < vals.len() {
        vals[i]
    } else {
        Option::None
    }
}

/// What merging two present values of one field yields under the
/// field's policy; `Err(())` marks a rejected overlap.
pub open spec fn merge_value_spec(fs: FieldSpecView, a: ValueView, b: ValueView) -> Result<
    ValueView,
    (),
>
    decreases a, 4int,
{
    match fs.policy {
        MergePolicy::Preserve => Ok(a),
        MergePolicy::Replace => Ok(b),
        MergePolicy::Append => match (a, b) {
            (ValueView::List(x), ValueView::List(y)) => Ok(ValueView::List(x + y)),
            (_, other) => Ok(other),
        },
        MergePolicy::Merge => match (a, b) {
            (ValueView::Nested(x), ValueView::Nested(y)) => {
                if merge_fields_ok(fs.fields, x, y) {
                    Ok(ValueView::Nested(merge_fields_val(fs.fields, x, y)))
                } else {
                    Err(())
                }
            },
            (_, other) => Ok(other),
        },
        MergePolicy::Reject => Err(()),
    }
}

/// What merging one optional slot yields: the present side wins when
/// only one side holds a value; the policy decides when both do.
pub open spec fn merge_slot_spec(
    fs: FieldSpecView,
    a: Option<ValueView>,
    b: Option<ValueView>,
) -> Result<Option<ValueView>, ()>
    decreases a, 5int,
{
    match (a, b) {
        (Option::Some(x), Option::Some(y)) => match merge_value_spec(fs, x, y) {
            Ok(v) => Ok(Option::Some(v)),
            Err(_) => Err(()),
        },
        (Option::None, Option::Some(y)) => Ok(Option::Some(y)),
        (Option::Some(x), Option::None) => Ok(Option::Some(x)),
        (Option::None, Option::None) => Ok(Option::None),
    }
}

/// Whether merging succeeds on every slot of `prev`; slots past the
/// end of `next` merge against an absent value.
pub open spec fn merge_fields_ok(
    specs: Seq<FieldSpecView>,
    prev: Seq<Option<ValueView>>,
    next: Seq<Option<ValueView>>,
) -> bool
    decreases prev, 6int,
{
    forall|i: int|
        0 <= i < prev.len() ==> merge_slot_spec(field_at(specs, i), prev[i], slot_at(next, i)) is Ok
}

/// The merged slot at position `i`, absent when merging it fails or
/// the position is out of range.
pub open spec fn merge_slot_at(
    specs: Seq<FieldSpecView>,
    prev: Seq<Option<ValueView>>,
    next: Seq<Option<ValueView>>,
    i: int,
) -> Option<ValueView>
    decreases prev, 6int,
{
    if 0 <= i < prev.len() {
        match merge_slot_spec(field_at(specs, i), prev[i], slot_at(next, i)) {
            Ok(v) => v,
            Err(_) => Option::None,
        }
    } else {
        Option::None
    }
}

/// The merged slots, one per slot of `prev`.
pub open spec fn merge_fields_val(
    specs: Seq<FieldSpecView>,
    prev: Seq<Option<ValueView>>,
    next: Seq<Option<ValueView>>,
) -> Seq<Option<ValueView>>
    decreases prev, 7int,
{
    Seq::new(prev.len(), |i: int| merge_slot_at(specs, prev, next, i))
}

/// The view of a merge result, for stating contracts: the merged
/// partial's shape on success, `Err(())` on a rejected overlap.
pub open spec fn merge_res_view(r: Result<PartialFields, HandlerError>) -> Result<
    Seq<Option<ValueView>>,
    (),
> {
    match r {
        Ok(p) => Ok(p@),
        Err(_) => Err(()),
    }
}

/// Merges two present field values under the field's policy.
#[verifier::loop_isolation(false)]
fn merge_value(fs: &FieldSpec, a: FieldValue, b: FieldValue) -> (r: Result<
    FieldValue,
    HandlerError,
>)
    ensures
        r matches Ok(v) ==> merge_value_spec(fs@, value_view(a), value_view(b)) == Ok::<
            ValueView,
            (),
        >(value_view(v)),
        r is Err ==> merge_value_spec(fs@, value_view(a), value_view(b)) == Err::<ValueView, ()>(
            (),
        ),
    decreases value_size(a), 0int,
{
    match fs.policy {
        MergePolicy::Preserve => Ok(a),
        MergePolicy::Replace => Ok(b),
        MergePolicy::Append => match (a, b) {
            (FieldValue::List(mut x), FieldValue::List(mut y)) => {
                let ghost ox = x@;
                let ghost oy = y@;
                x.append(&mut y);
                proof {
                    assert(list_view(ox + oy) =~= list_view(ox) + list_view(oy));
                }
                Ok(FieldValue::List(x))
            },
            (_, other) => Ok(other),
        },
        MergePolicy::Merge => match (a, b) {
            (FieldValue::Nested(pa), FieldValue::Nested(pb)) => {
                match merge_values(pa.values, pb.values, &fs.fields) {
                    Ok(vals) => Ok(FieldValue::Nested(PartialFields { values: vals })),
                    Err(e) => Err(e),
                }
            },
            (_, other) => Ok(other),
        },
        MergePolicy::Reject => Err(
            HandlerError("both layers set this field but its policy rejects overlap".to_owned()),
        ),
    }
}

/// Merges the slots of two partials, one slot at a time, in field
/// order; the first rejected overlap aborts the merge.
#[verifier::loop_isolation(false)]
fn merge_values(
    prev: Vec<Option<FieldValue>>,
    next: Vec<Option<FieldValue>>,
    specs: &Vec<FieldSpec>,
) -> (r: Result<Vec<Option<FieldValue>>, HandlerError>)
    ensures
        r matches Ok(vals) ==> merge_fields_ok(
            specs_view(specs@),
            slots_view(prev@),
            slots_view(next@),
        ) && slots_view(vals@) == merge_fields_val(
            specs_view(specs@),
            slots_view(prev@),
            slots_view(next@),
        ),
        r is Err ==> !merge_fields_ok(specs_view(specs@), slots_view(prev@), slots_view(next@)),
    decreases slots_size(prev@) + 1, 0int,
{
    let ghost oprev = prev@;
    let ghost onext = next@;
    let ghost svs = specs_view(specs@);
    let fallback = FieldSpec {
        name: String::new(),
        policy: MergePolicy::Replace,
        rule: ValidateRule::Anything,
        fields: Vec::new(),
    };
    proof {
        assert(specs_view(fallback.fields@) =~= Seq::<FieldSpecView>::empty());
        assert(fallback@ == default_spec_view());
    }
    let mut prev = prev;
    let mut next = next;
    let mut out: Vec<Option<FieldValue>> = Vec::new();
    let n0 = prev.len();
    let mut k: usize = 0;
    while prev.len() > 0
        invariant
            k <= n0,
            n0 == oprev.len(),
            k + prev@.len() == oprev.len(),
            forall|j: int| 0 <= j < prev@.len() ==> prev@[j] == oprev[j + k],
            next@.len() == (if onext.len() >= k { onext.len() - k } else { 0 }),
            forall|j: int| 0 <= j < next@.len() ==> next@[j] == onext[j + k],
            out@.len() == k,
            forall|j: int|
                0 <= j < k ==> merge_slot_spec(
                    field_at(svs, j),
                    slot_view(oprev[j]),
                    slot_view_at(onext, j),
                ) is Ok,
            forall|j: int|
                0 <= j < k ==> slot_view(out@[j]) == merge_slot_at(
                    svs,
                    slots_view(oprev),
                    slots_view(onext),
                    j,
                ),
        decreases prev@.len(),
    {
        let a = prev.remove(0);
        let b: Option<FieldValue> = if next.len() > 0 {
            next.remove(0)
        } else {
            None
        };
        proof {
            assert(oprev[k as int] == a);
            assert(slot_view_at(onext, k as int) == slot_view(b));
        }
        let merged: Option<FieldValue> = match (a, b) {
            (Some(x), Some(y)) => {
                let fs: &FieldSpec = if k < specs.len() {
                    &specs[k]
                } else {
                    &fallback
                };
                proof {
                    assert(fs@ == field_at(svs, k as int));
                    lemma_slot_size_le(oprev, k as int);
                }
                match merge_value(fs, x, y) {
                    Ok(v) => Some(v),
                    Err(e) => {
                        proof {
                            assert(merge_slot_spec(
                                field_at(svs, k as int),
                                slots_view(oprev)[k as int],
                                slot_at(slots_view(onext), k as int),
                            ) is Err);
                        }
                        return Err(e);
                    },
                }
            },
            (None, Some(y)) => Some(y),
            (Some(x), None) => Some(x),
            (None, None) => None,
        };
        out.push(merged);
        k = k + 1;
    }
    proof {
        assert forall|j: int| 0 <= j < oprev.len() implies merge_slot_spec(
            field_at(svs, j),
            slots_view(oprev)[j],
            slot_at(slots_view(onext), j),
        ) is Ok && slots_view(out@)[j] == merge_fields_val(
            svs,
            slots_view(oprev),
            slots_view(onext),
        )[j] by {
            assert(slots_view(oprev)[j] == slot_view(oprev[j]));
            assert(slot_at(slots_view(onext), j) == slot_view_at(onext, j));
            assert(slots_view(out@)[j] == slot_view(out@[j]));
            assert(merge_slot_at(svs, slots_view(oprev), slots_view(onext), j) == (
            match merge_slot_spec(field_at(svs, j), slot_view(oprev[j]), slot_view_at(onext, j)) {
                Ok(v) => v,
                Err(_) => Option::None,
            }));
        }
        assert(slots_view(out@) =~= merge_fields_val(svs, slots_view(oprev), slots_view(onext)));
    }
    Ok(out)
}

impl PartialFields {
    /// A partial configuration with every slot absent.
    pub fn empty(field_count: usize) -> (r: PartialFields)
        ensures
            r@.len() == field_count,
            forall|i: int| 0 <= i < field_count ==> r@[i] is None,
    {
        let mut values: Vec<Option<FieldValue>> = Vec::new();
        let mut k: usize = 0;
        while k < field_count
            invariant
                k <= field_count,
                values@.len() == k,
                forall|i: int| 0 <= i < k ==> values@[i] is None,
            decreases field_count - k,
        {
            values.push(None);
            k = k + 1;
        }
        proof {
            let p = PartialFields { values };
            assert forall|i: int| 0 <= i < field_count implies partial_view(p)[i] is None by {
                assert(slot_view_at(values@, i) == slot_view(values@[i]));
            }
        }
        PartialFields { values }
    }

    /// Merges `next` into this partial, field by field: the later
    /// layer's values take effect under each field's merge policy.
    pub fn merge(&mut self, specs: &Vec<FieldSpec>, next: PartialFields) -> (r: Result<
        (),
        HandlerError,
    >)
        ensures
            r is Ok <==> merge_fields_ok(specs_view(specs@), old(self)@, next@),
            r is Ok ==> final(self)@ == merge_fields_val(specs_view(specs@), old(self)@, next@),
    {
        let mut tmp: Vec<Option<FieldValue>> = Vec::new();
        core::mem::swap(&mut tmp, &mut self.values);
        match merge_values(tmp, next.values, specs) {
            Ok(vals) => {
                self.values = vals;
                Ok(())
            },
            Err(e) => Err(e),
        }
    }
}

/// Merges two whole partial configurations, the first taken as the
/// earlier layer.
pub fn merge_partial(prev: PartialFields, next: PartialFields, specs: &Vec<FieldSpec>) -> (r:
    Result<PartialFields, HandlerError>)
    ensures
        r matches Ok(m) ==> merge_fields_ok(specs_view(specs@), prev@, next@) && m@
            == merge_fields_val(specs_view(specs@), prev@, next@),
        r is Err ==> !merge_fields_ok(specs_view(specs@), prev@, next@),
{
    match merge_values(prev.values, next.values, specs) {
        Ok(vals) => Ok(PartialFields { values: vals }),
        Err(e) => Err(e),
    }
}

/// What finalizing yields: freshly computed defaults, the caller's
/// partial layered on top, then the environment overlay, in that
/// fixed order.
pub open spec fn finalize_spec(
    specs: Seq<FieldSpecView>,
    defaults: Seq<Option<ValueView>>,
    partial: Seq<Option<ValueView>>,
    env: Seq<Option<ValueView>>,
) -> Result<Seq<Option<ValueView>>, ()> {
    if merge_fields_ok(specs, defaults, partial) {
        let with_partial = merge_fields_val(specs, defaults, partial);
        if merge_fields_ok(specs, with_partial, env) {
            Ok(merge_fields_val(specs, with_partial, env))
        } else {
            Err(())
        }
    } else {
        Err(())
    }
}

/// Finalizes a partial configuration: layers it over the given
/// defaults, then layers the environment overlay over the result, so
/// environment values take precedence over explicit values, and
/// explicit values take precedence over defaults.
pub fn finalize(
    specs: &Vec<FieldSpec>,
    defaults: PartialFields,
    partial: PartialFields,
    env: PartialFields,
) -> (r: Result<PartialFields, HandlerError>)
    ensures
        merge_res_view(r) == finalize_spec(specs_view(specs@), defaults@, partial@, env@),
{
    let mut acc = defaults;
    match acc.merge(specs, partial) {
        Ok(()) => {},
        Err(e) => {
            return Err(e);
        },
    }
    match acc.merge(specs, env) {
        Ok(()) => {},
        Err(e) => {
            return Err(e);
        },
    }
    Ok(acc)
}

/// Merging layers that share no field is an order-independent,
/// field-wise union: both orders succeed and agree, and every slot
/// takes whichever side holds a value.
pub proof fn lemma_merge_disjoint_commutes(
    specs: Seq<FieldSpecView>,
    a: Seq<Option<ValueView>>,
    b: Seq<Option<ValueView>>,
)
    requires
        a.len() == b.len(),
        forall|i: int| 0 <= i < a.len() ==> !(a[i] is Some && b[i] is Some),
    ensures
        merge_fields_ok(specs, a, b),
        merge_fields_ok(specs, b, a),
        merge_fields_val(specs, a, b) == merge_fields_val(specs, b, a),
        forall|i: int|
            0 <= i < a.len() ==> merge_fields_val(specs, a, b)[i] == (if a[i] is Some {
                a[i]
            } else {
                b[i]
            }),
{
    assert forall|i: int| 0 <= i < a.len() implies merge_slot_spec(
        field_at(specs, i),
        a[i],
        slot_at(b, i),
    ) is Ok && merge_slot_spec(field_at(specs, i), b[i], slot_at(a, i)) is Ok && merge_slot_at(
        specs,
        a,
        b,
        i,
    ) == merge_slot_at(specs, b, a, i) && merge_slot_at(specs, a, b, i) == (if a[i] is Some {
        a[i]
    } else {
        b[i]
    }) by {
        assert(slot_at(b, i) == b[i]);
        assert(slot_at(a, i) == a[i]);
    }
    assert(merge_fields_val(specs, a, b) =~= merge_fields_val(specs, b, a));
}

/// The merged result for one field depends only on that field's
/// declared spec and the two values held for it, never on any other
/// field of either side.
pub proof fn lemma_merge_field_local(
    specs: Seq<FieldSpecView>,
    a: Seq<Option<ValueView>>,
    b: Seq<Option<ValueView>>,
    a2: Seq<Option<ValueView>>,
    b2: Seq<Option<ValueView>>,
    i: int,
)
    requires
        0 <= i < a.len(),
        0 <= i < a2.len(),
        a[i] == a2[i],
        slot_at(b, i) == slot_at(b2, i),
    ensures
        merge_slot_spec(field_at(specs, i), a[i], slot_at(b, i)) == merge_slot_spec(
            field_at(specs, i),
            a2[i],
            slot_at(b2, i),
        ),
        merge_fields_val(specs, a, b)[i] == merge_fields_val(specs, a2, b2)[i],
{
}

/// Environment values take precedence over explicit values, and
/// explicit values take precedence over defaults: under the replace
/// policy, a finalized field holds the environment overlay's value
/// when the overlay has one, else the explicit layer's, else the
/// default.
pub proof fn lemma_finalize_precedence(
    specs: Seq<FieldSpecView>,
    defaults: Seq<Option<ValueView>>,
    partial: Seq<Option<ValueView>>,
    env: Seq<Option<ValueView>>,
    i: int,
)
    requires
        0 <= i < defaults.len(),
        field_at(specs, i).policy == MergePolicy::Replace,
        finalize_spec(specs, defaults, partial, env) is Ok,
    ensures
        (match finalize_spec(specs, defaults, partial, env) {
            Ok(out) => out[i] == (if slot_at(env, i) is Some {
                slot_at(env, i)
            } else if slot_at(partial, i) is Some {
                slot_at(partial, i)
            } else {
                defaults[i]
            }),
            Err(_) => false,
        }),
{
    let with_partial = merge_fields_val(specs, defaults, partial);
    assert(with_partial[i] == merge_slot_at(specs, defaults, partial, i));
    let out = merge_fields_val(specs, with_partial, env);
    assert(out[i] == merge_slot_at(specs, with_partial, env, i));
}

/// Finalizing is deterministic: equal partials under an equal context
/// (defaults and environment overlay) finalize to equal results.
pub proof fn lemma_finalize_deterministic(
    specs: Seq<FieldSpecView>,
    defaults1: Seq<Option<ValueView>>,
    partial1: Seq<Option<ValueView>>,
    env1: Seq<Option<ValueView>>,
    defaults2: Seq<Option<ValueView>>,
    partial2: Seq<Option<ValueView>>,
    env2: Seq<Option<ValueView>>,
)
    requires
        defaults1 == defaults2,
        partial1 == partial2,
        env1 == env2,
    ensures
        finalize_spec(specs, defaults1, partial1, env1) == finalize_spec(
            specs,
            defaults2,
            partial2,
            env2,
        ),
{
}

} // verus!
