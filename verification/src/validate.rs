//! Validation of a partial configuration: walks the field tree and
//! collects every failing leaf as a path-qualified error, never
//! stopping at the first failure.

use vstd::prelude::*;
use crate::error::PathSegment;
use crate::error::ValidateError;
use crate::error::ValidatorError;
use crate::partial::errs_view;
use crate::partial::default_spec_view;
use crate::partial::field_at;
use crate::partial::lemma_slot_size_le;
use crate::partial::path_view;
use crate::partial::slot_view;
use crate::partial::slots_size;
use crate::partial::slots_view;
use crate::partial::specs_view;
use crate::partial::value_view;
use crate::partial::ErrView;
use crate::partial::FieldSpec;
use crate::partial::FieldSpecView;
use crate::partial::MergePolicy;
use crate::partial::PartialFields;
use crate::partial::PathSegView;
use crate::partial::ValidateRule;
use crate::partial::ValueView;
use crate::partial::FieldValue;

verus! {

/// Whether a rule accepts an optional field value.  A rule about the
/// shape of a value accepts an absent value and a value of another
/// shape; only `Required` speaks about presence.
pub open spec fn check_rule_spec(rule: ValidateRule, v: Option<ValueView>) -> bool {
    match rule {
        ValidateRule::Anything => true,
        ValidateRule::Required => v is Some,
        ValidateRule::NonEmptyStr => match v {
            Option::Some(ValueView::Str(s)) => s.len() > 0,
            _ => true,
        },
        ValidateRule::NonNegativeInt => match v {
            Option::Some(ValueView::Int(x)) => x >= 0,
            _ => true,
        },
    }
}

/// The message reported when a rule fails.
pub open spec fn rule_message(rule: ValidateRule) -> Seq<char> {
    match rule {
        ValidateRule::Anything => ""@,
        ValidateRule::Required => "this setting is required"@,
        ValidateRule::NonEmptyStr => "must not be empty"@,
        ValidateRule::NonNegativeInt => "must not be negative"@,
    }
}

/// The errors one slot contributes: its own rule failure, if any,
/// followed by the failures inside its nested fields.
pub open spec fn slot_errors(
    fs: FieldSpecView,
    v: Option<ValueView>,
    base: Seq<PathSegView>,
) -> Seq<ErrView>
    decreases v, 1int, 0int,
{
    let path = base.push(PathSegView::Key(fs.name));
    let own: Seq<ErrView> = if !check_rule_spec(fs.rule, v) {
        seq![ErrView { path: path, message: rule_message(fs.rule) }]
    } else {
        Seq::empty()
    };
    let nested: Seq<ErrView> = match v {
        Option::Some(ValueView::Nested(x)) => validate_errors(fs.fields, x, path),
        _ => Seq::empty(),
    };
    own + nested
}

/// The errors contributed by the slots from position `i` on.
pub open spec fn validate_errors_from(
    specs: Seq<FieldSpecView>,
    vals: Seq<Option<ValueView>>,
    base: Seq<PathSegView>,
    i: int,
) -> Seq<ErrView>
    decreases vals, 2int, vals.len() - i,
{
    if 0 <= i < vals.len() {
        slot_errors(field_at(specs, i), vals[i], base) + validate_errors_from(
            specs,
            vals,
            base,
            i + 1,
        )
    } else {
        Seq::empty()
    }
}

/// Every validation failure in a partial, in field order, each
/// qualified with its path from `base`.
pub open spec fn validate_errors(
    specs: Seq<FieldSpecView>,
    vals: Seq<Option<ValueView>>,
    base: Seq<PathSegView>,
) -> Seq<ErrView>
    decreases vals, 3int, 0int,
{
    validate_errors_from(specs, vals, base, 0)
}

/// The errors contributed by the slots before position `i`.
pub open spec fn validate_errors_upto(
    specs: Seq<FieldSpecView>,
    vals: Seq<Option<ValueView>>,
    base: Seq<PathSegView>,
    i: int,
) -> Seq<ErrView>
    decreases vals, 2int, i,
{
    if 0 < i <= vals.len() {
        validate_errors_upto(specs, vals, base, i - 1) + slot_errors(
            field_at(specs, i - 1),
            vals[i - 1],
            base,
        )
    } else {
        Seq::empty()
    }
}

/// The errors before `j` and the errors from `j` on together make up
/// all the errors.
proof fn lemma_upto_from(
    specs: Seq<FieldSpecView>,
    vals: Seq<Option<ValueView>>,
    base: Seq<PathSegView>,
    j: int,
)
    requires
        0 <= j <= vals.len(),
    ensures
        validate_errors_upto(specs, vals, base, j) + validate_errors_from(specs, vals, base, j)
            =~= validate_errors(specs, vals, base),
    decreases j,
{
    if j == 0 {
        assert(validate_errors_upto(specs, vals, base, 0) + validate_errors_from(
            specs,
            vals,
            base,
            0,
        ) =~= validate_errors_from(specs, vals, base, 0));
    } else {
        lemma_upto_from(specs, vals, base, j - 1);
        assert(validate_errors_upto(specs, vals, base, j) + validate_errors_from(
            specs,
            vals,
            base,
            j,
        ) =~= validate_errors_upto(specs, vals, base, j - 1) + (slot_errors(
            field_at(specs, j - 1),
            vals[j - 1],
            base,
        ) + validate_errors_from(specs, vals, base, j)));
        assert(slot_errors(field_at(specs, j - 1), vals[j - 1], base) + validate_errors_from(
            specs,
            vals,
            base,
            j,
        ) =~= validate_errors_from(specs, vals, base, j - 1));
    }
}

/// Every failing leaf is reported: when the rule of field `i` rejects
/// that field's value, the collected errors contain an error whose
/// path names that field.
pub proof fn lemma_validate_reports_leaf(
    specs: Seq<FieldSpecView>,
    vals: Seq<Option<ValueView>>,
    base: Seq<PathSegView>,
    i: int,
)
    requires
        0 <= i < vals.len(),
        !check_rule_spec(field_at(specs, i).rule, vals[i]),
    ensures
        validate_errors(specs, vals, base).contains(
            ErrView {
                path: base.push(PathSegView::Key(field_at(specs, i).name)),
                message: rule_message(field_at(specs, i).rule),
            },
        ),
{
    let e = ErrView {
        path: base.push(PathSegView::Key(field_at(specs, i).name)),
        message: rule_message(field_at(specs, i).rule),
    };
    lemma_from_contains_leaf(specs, vals, base, 0, i);
    let tail = validate_errors_from(specs, vals, base, 0);
    assert(validate_errors(specs, vals, base) == tail);
}

/// Helper: the errors from position `j` on contain the error of the
/// failing field `i` when `j <= i`.
proof fn lemma_from_contains_leaf(
    specs: Seq<FieldSpecView>,
    vals: Seq<Option<ValueView>>,
    base: Seq<PathSegView>,
    j: int,
    i: int,
)
    requires
        0 <= j <= i < vals.len(),
        !check_rule_spec(field_at(specs, i).rule, vals[i]),
    ensures
        validate_errors_from(specs, vals, base, j).contains(
            ErrView {
                path: base.push(PathSegView::Key(field_at(specs, i).name)),
                message: rule_message(field_at(specs, i).rule),
            },
        ),
    decreases i - j,
{
    let e = ErrView {
        path: base.push(PathSegView::Key(field_at(specs, i).name)),
        message: rule_message(field_at(specs, i).rule),
    };
    let own = slot_errors(field_at(specs, j), vals[j], base);
    let rest = validate_errors_from(specs, vals, base, j + 1);
    if j == i {
        assert(own[0] == e);
        assert((own + rest)[0] == e);
        assert(validate_errors_from(specs, vals, base, j).contains(e));
    } else {
        lemma_from_contains_leaf(specs, vals, base, j + 1, i);
        let k = choose|k: int| 0 <= k < rest.len() && rest[k] == e;
        assert((own + rest)[own.len() + k] == e);
        assert(validate_errors_from(specs, vals, base, j).contains(e));
    }
}

/// Whether a rule accepts an optional field value.
pub fn check_rule(rule: ValidateRule, v: &Option<FieldValue>) -> (r: bool)
    ensures
        r == check_rule_spec(rule, slot_view(*v)),
{
    match rule {
        ValidateRule::Anything => true,
        ValidateRule::Required => v.is_some(),
        ValidateRule::NonEmptyStr => match v {
            Option::Some(FieldValue::Str(s)) => !s.as_str().is_empty(),
            _ => true,
        },
        ValidateRule::NonNegativeInt => match v {
            Option::Some(FieldValue::Int(x)) => *x >= 0,
            _ => true,
        },
    }
}

/// The message reported when a rule fails.
pub fn rule_message_text(rule: ValidateRule) -> (r: String)
    ensures
        r@ == rule_message(rule),
{
    match rule {
        ValidateRule::Anything => "".to_owned(),
        ValidateRule::Required => "this setting is required".to_owned(),
        ValidateRule::NonEmptyStr => "must not be empty".to_owned(),
        ValidateRule::NonNegativeInt => "must not be negative".to_owned(),
    }
}

/// Duplicates one path step.
fn clone_segment(seg: &PathSegment) -> (r: PathSegment)
    ensures
        r@ == seg@,
{
    match seg {
        PathSegment::Key(s) => PathSegment::Key(s.clone()),
        PathSegment::Index(i) => PathSegment::Index(*i),
    }
}

/// Duplicates a path.
fn clone_path(path: &Vec<PathSegment>) -> (r: Vec<PathSegment>)
    ensures
        path_view(r@) == path_view(path@),
{
    let mut out: Vec<PathSegment> = Vec::new();
    let mut k: usize = 0;
    let n = path.len();
    while k < n
        invariant
            k <= n,
            n == path@.len(),
            out@.len() == k,
            forall|j: int| 0 <= j < k ==> out@[j]@ == path@[j]@,
        decreases n - k,
    {
        let seg = clone_segment(&path[k]);
        out.push(seg);
        k = k + 1;
    }
    proof {
        assert(path_view(out@) =~= path_view(path@));
    }
    out
}

/// The path of a field under `base`.
fn child_path(base: &Vec<PathSegment>, name: &String) -> (r: Vec<PathSegment>)
    ensures
        path_view(r@) == path_view(base@).push(PathSegView::Key(name@)),
{
    let mut out = clone_path(base);
    out.push(PathSegment::Key(name.clone()));
    proof {
        assert(path_view(out@) =~= path_view(base@).push(PathSegView::Key(name@)));
    }
    out
}

/// Appends to `out` every validation failure of the given slots, in
/// field order, each qualified with its path from `base`.
#[verifier::loop_isolation(false)]
fn collect_errors(
    specs: &Vec<FieldSpec>,
    values: &Vec<Option<FieldValue>>,
    base: &Vec<PathSegment>,
    out: &mut Vec<ValidateError>,
)
    ensures
        errs_view(final(out)@) == errs_view(old(out)@) + validate_errors(
            specs_view(specs@),
            slots_view(values@),
            path_view(base@),
        ),
    decreases slots_size(values@) + 1, 0int,
{
    let ghost svs = specs_view(specs@);
    let ghost svals = slots_view(values@);
    let ghost bpath = path_view(base@);
    let ghost out0 = errs_view(out@);
    let fallback = FieldSpec {
        name: String::new(),
        policy: MergePolicy::Replace,
        rule: ValidateRule::Anything,
        fields: Vec::new(),
    };
    proof {
        assert(specs_view(fallback.fields@) =~= Seq::<FieldSpecView>::empty());
        assert(fallback@ == default_spec_view());
    }
    let n = values.len();
    let mut i: usize = 0;
    while i < n
        invariant
            i <= n,
            n == values@.len(),
            errs_view(out@) =~= out0 + validate_errors_upto(svs, svals, bpath, i as int),
        decreases n - i,
    {
        let fs: &FieldSpec = if i < specs.len() {
            &specs[i]
        } else {
            &fallback
        };
        proof {
            assert(fs@ == field_at(svs, i as int));
            assert(svals[i as int] == slot_view(values@[i as int]));
        }
        let v: &Option<FieldValue> = &values[i];
        let path = child_path(base, &fs.name);
        let ghost before = errs_view(out@);
        let ghost own: Seq<ErrView> = if !check_rule_spec(fs@.rule, slot_view(*v)) {
            seq![
                ErrView {
                    path: bpath.push(PathSegView::Key(fs@.name)),
                    message: rule_message(fs@.rule),
                },
            ]
        } else {
            Seq::<ErrView>::empty()
        };
        if !check_rule(fs.rule, v) {
            let err = ValidateError { path: clone_path(&path), message: rule_message_text(fs.rule) };
            let ghost prev_out = out@;
            out.push(err);
            proof {
                assert(errs_view(out@) =~= errs_view(prev_out) + own);
            }
        }
        match v {
            Option::Some(FieldValue::Nested(p)) => {
                proof {
                    lemma_slot_size_le(values@, i as int);
                }
                collect_errors(&fs.fields, &p.values, &path, out);
                proof {
                    assert(value_view(values@[i as int]->0) == ValueView::Nested(
                        slots_view(p.values@),
                    ));
                }
            },
            _ => {},
        }
        proof {
            assert(errs_view(out@) =~= before + slot_errors(
                field_at(svs, i as int),
                svals[i as int],
                bpath,
            ));
            assert(errs_view(out@) =~= out0 + validate_errors_upto(svs, svals, bpath, i as int + 1));
        }
        i = i + 1;
    }
    proof {
        lemma_upto_from(svs, svals, bpath, n as int);
        assert(validate_errors_from(svs, svals, bpath, n as int) =~= Seq::<ErrView>::empty());
        assert(errs_view(out@) =~= out0 + validate_errors(svs, svals, bpath));
    }
}

impl PartialFields {
    /// Validates this partial against the declared field rules,
    /// collecting every failing leaf with its path from `path`; the
    /// result is `Ok` exactly when no leaf fails.
    pub fn validate_with_path(&self, specs: &Vec<FieldSpec>, path: Vec<PathSegment>) -> (r: Result<
        (),
        ValidatorError,
    >)
        ensures
            r is Ok <==> validate_errors(specs_view(specs@), self@, path_view(path@)).len() == 0,
            r matches Err(e) ==> errs_view(e.errors@) == validate_errors(
                specs_view(specs@),
                self@,
                path_view(path@),
            ) && path_view(e.path@) == path_view(path@),
    {
        let mut errors: Vec<ValidateError> = Vec::new();
        collect_errors(specs, &self.values, &path, &mut errors);
        if errors.len() == 0 {
            proof {
                assert(errs_view(errors@) =~= Seq::<ErrView>::empty());
            }
            Ok(())
        } else {
            Err(ValidatorError { errors, path })
        }
    }
}

} // verus!
