//! The schema descriptor tree and its partialization transform.
//!
//! A configuration type's partial counterpart is structurally
//! isomorphic but has every field optional.  Partializing rewrites a
//! type-description tree accordingly: struct and union nodes flagged
//! partial (or forced partial by an ancestor struct) are renamed with
//! a marker prefix, struct fields become optional and nullable, and
//! the flag propagates through struct fields only — arrays, maps,
//! tuples and union variants keep their own shape.

use vstd::prelude::*;
use vstd::string::StringExecFns;
use crate::strutil::starts_with_spec;
use crate::strutil::str_starts_with;

verus! {

/// A type-description node: an optional type name, the optionality
/// flags of the value it describes, and its shape.
#[derive(Debug, PartialEq, Eq)]
pub struct Schema {
    pub name: Option<String>,
    pub optional: bool,
    pub nullable: bool,
    pub ty: SchemaType,
}

/// The shape of a described type.
#[derive(Debug, PartialEq, Eq)]
pub enum SchemaType {
    /// A list; the single child is the item type.
    Array(Box<Schema>),
    /// A map; the children are the key type and the value type.
    Object(Box<Schema>, Box<Schema>),
    /// A named-field structure.
    Struct(StructType),
    /// An ordered list of differently typed items.
    Tuple(Vec<Schema>),
    /// A tagged choice between variants.
    Union(UnionType),
    /// A scalar leaf; partialization leaves it untouched.
    Scalar,
}

/// A structure's shape: whether it is a configuration type (and so
/// has a partial counterpart), and its field schemas in declaration
/// order.
#[derive(Debug, PartialEq, Eq)]
pub struct StructType {
    pub partial: bool,
    pub fields: Vec<Schema>,
}

/// A union's shape: whether it is a configuration type, and its
/// variant schemas.
#[derive(Debug, PartialEq, Eq)]
pub struct UnionType {
    pub partial: bool,
    pub variants: Vec<Schema>,
}

/// The mathematical shape of a schema node.
pub struct SchemaView {
    pub name: Option<Seq<char>>,
    pub optional: bool,
    pub nullable: bool,
    pub ty: TypeView,
}

/// The mathematical shape of a schema node's type: children are held
/// as a sequence (one for an array's item type; key then value for an
/// object).
pub enum TypeView {
    Array(Seq<SchemaView>),
    Object(Seq<SchemaView>),
    Struct { partial: bool, fields: Seq<SchemaView> },
    Tuple(Seq<SchemaView>),
    Union { partial: bool, variants: Seq<SchemaView> },
    Scalar,
}

/// The view of schema `i` of a schema vector.
pub open spec fn schema_view_at(schemas: Seq<Schema>, i: int) -> SchemaView
    decreases schemas, 1int,
{
    if 0 <= i < schemas.len() {
        schema_view(schemas[i])
    } else {
        SchemaView { name: Option::None, optional: false, nullable: false, ty: TypeView::Scalar }
    }
}

/// The views of a vector of schemas.
pub open spec fn schemas_view(schemas: Seq<Schema>) -> Seq<SchemaView>
    decreases schemas, 2int,
{
    Seq::new(schemas.len(), |i: int| schema_view_at(schemas, i))
}

/// The view of a schema node's type.
pub open spec fn type_view(t: SchemaType) -> TypeView
    decreases t, 4int,
{
    match t {
        SchemaType::Array(item) => TypeView::Array(seq![schema_view(*item)]),
        SchemaType::Object(key, value) => TypeView::Object(
            seq![schema_view(*key), schema_view(*value)],
        ),
        SchemaType::Struct(inner) => TypeView::Struct {
            partial: inner.partial,
            fields: schemas_view(inner.fields@),
        },
        SchemaType::Tuple(items) => TypeView::Tuple(schemas_view(items@)),
        SchemaType::Union(inner) => TypeView::Union {
            partial: inner.partial,
            variants: schemas_view(inner.variants@),
        },
        SchemaType::Scalar => TypeView::Scalar,
    }
}

/// The view of an optional name.
pub open spec fn name_view(name: Option<String>) -> Option<Seq<char>> {
    match name {
        Option::Some(n) => Option::Some(n@),
        Option::None => Option::None,
    }
}

/// The view of a schema node.
pub open spec fn schema_view(s: Schema) -> SchemaView
    decreases s, 5int,
{
    SchemaView {
        name: name_view(s.name),
        optional: s.optional,
        nullable: s.nullable,
        ty: type_view(s.ty),
    }
}

impl View for Schema {
    type V = SchemaView;

    open spec fn view(&self) -> SchemaView {
        schema_view(*self)
    }
}

/// Structural size of a schema, a termination measure.
pub open spec fn schema_size(s: Schema) -> nat
    decreases s, 5int,
{
    2 + type_size(s.ty)
}

/// Structural size of a schema's type.
pub open spec fn type_size(t: SchemaType) -> nat
    decreases t, 4int,
{
    match t {
        SchemaType::Array(item) => 1 + schema_size(*item),
        SchemaType::Object(key, value) => 1 + schema_size(*key) + schema_size(*value),
        SchemaType::Struct(inner) => 1 + schemas_size(inner.fields@),
        SchemaType::Tuple(items) => 1 + schemas_size(items@),
        SchemaType::Union(inner) => 1 + schemas_size(inner.variants@),
        SchemaType::Scalar => 1,
    }
}

/// Structural size of a sequence of schemas.
pub open spec fn schemas_size(schemas: Seq<Schema>) -> nat
    decreases schemas, 6int,
{
    if schemas.len() == 0 {
        0
    } else {
        schema_size(schemas[0]) + schemas_size(schemas.drop_first())
    }
}

/// Every schema's size is bounded by the size of the whole sequence.
proof fn lemma_schema_size_le(schemas: Seq<Schema>, i: int)
    requires
        0 <= i < schemas.len(),
    ensures
        schema_size(schemas[i]) <= schemas_size(schemas),
    decreases schemas.len(),
{
    if i > 0 {
        lemma_schema_size_le(schemas.drop_first(), i - 1);
        assert(schemas.drop_first()[i - 1] == schemas[i]);
    }
}

/// A name with the partial marker applied: prefixed once, and left
/// alone when it already carries the prefix.
pub open spec fn prefixed_name(name: Option<Seq<char>>) -> Option<Seq<char>> {
    match name {
        Option::Some(n) => if starts_with_spec(n, "Partial"@) {
            Option::Some(n)
        } else {
            Option::Some("Partial"@ + n)
        },
        Option::None => Option::None,
    }
}

/// A schema with its value marked optional and nullable, its name and
/// shape untouched.
pub open spec fn set_optional(v: SchemaView) -> SchemaView {
    SchemaView { name: v.name, optional: true, nullable: true, ty: v.ty }
}

/// What partializing a node yields: a renamed struct or union when it
/// is flagged partial or forced by an ancestor, and the transformed
/// children per [`partialize_ty`].
pub open spec fn partialize_node(v: SchemaView, force: bool) -> SchemaView
    decreases v, 7int,
{
    let renamed = match v.ty {
        TypeView::Struct { partial, .. } => partial || force,
        TypeView::Union { partial, .. } => partial || force,
        _ => false,
    };
    SchemaView {
        name: if renamed {
            prefixed_name(v.name)
        } else {
            v.name
        },
        optional: v.optional,
        nullable: v.nullable,
        ty: partialize_ty(v.ty, force),
    }
}

/// What partializing a node's shape yields: a partial (or forced)
/// struct has every field made optional, nullable and recursively
/// forced partial; arrays, maps, tuples and union variants recurse
/// without forcing; scalars are untouched.
pub open spec fn partialize_ty(t: TypeView, force: bool) -> TypeView
    decreases t, 6int,
{
    match t {
        TypeView::Array(items) => TypeView::Array(partialize_children(items, false)),
        TypeView::Object(children) => TypeView::Object(partialize_children(children, false)),
        TypeView::Struct { partial, fields } => {
            if partial || force {
                TypeView::Struct { partial, fields: partialize_children(fields, true) }
            } else {
                TypeView::Struct { partial, fields: partialize_children(fields, false) }
            }
        },
        TypeView::Tuple(items) => TypeView::Tuple(partialize_children(items, false)),
        TypeView::Union { partial, variants } => TypeView::Union {
            partial,
            variants: partialize_children(variants, false),
        },
        TypeView::Scalar => TypeView::Scalar,
    }
}

/// One transformed child: recursively partialized, and additionally
/// made optional and nullable when its parent forces partiality.
pub open spec fn partialize_child_at(children: Seq<SchemaView>, forced: bool, i: int) -> SchemaView
    decreases children, 4int,
{
    if 0 <= i < children.len() {
        if forced {
            set_optional(partialize_node(children[i], true))
        } else {
            partialize_node(children[i], false)
        }
    } else {
        children[i]
    }
}

/// The transformed children of a node.
pub open spec fn partialize_children(children: Seq<SchemaView>, forced: bool) -> Seq<SchemaView>
    decreases children, 5int,
{
    Seq::new(children.len(), |i: int| partialize_child_at(children, forced, i))
}

/// Applies the partial marker to a name, once.
fn prefix_name(name: Option<String>) -> (r: Option<String>)
    ensures
        name_view(r) == prefixed_name(name_view(name)),
{
    match name {
        Option::Some(n) => {
            if str_starts_with(n.as_str(), "Partial") {
                Some(n)
            } else {
                let p = "Partial".to_owned();
                Some(p.concat(n.as_str()))
            }
        },
        Option::None => None,
    }
}

/// Partializes a whole vector of child schemas.
#[verifier::loop_isolation(false)]
fn partialize_vec(schemas: Vec<Schema>, forced: bool) -> (r: Vec<Schema>)
    ensures
        schemas_view(r@) == partialize_children(schemas_view(schemas@), forced),
    decreases schemas_size(schemas@) + 1, 0int,
{
    let ghost oss = schemas@;
    let mut rest = schemas;
    let mut out: Vec<Schema> = Vec::new();
    let n0 = rest.len();
    let mut k: usize = 0;
    while rest.len() > 0
        invariant
            k <= n0,
            n0 == oss.len(),
            k + rest@.len() == oss.len(),
            forall|j: int| 0 <= j < rest@.len() ==> rest@[j] == oss[j + k],
            out@.len() == k,
            forall|j: int|
                0 <= j < k ==> schema_view(out@[j]) == partialize_child_at(
                    schemas_view(oss),
                    forced,
                    j,
                ),
        decreases rest@.len(),
    {
        let s = rest.remove(0);
        proof {
            assert(oss[k as int] == s);
            lemma_schema_size_le(oss, k as int);
            assert(schemas_view(oss)[k as int] == schema_view(s));
        }
        let mut t = partialize_schema(s, forced);
        if forced {
            t = Schema { name: t.name, optional: true, nullable: true, ty: t.ty };
        }
        out.push(t);
        k = k + 1;
    }
    proof {
        assert forall|j: int| 0 <= j < oss.len() implies schemas_view(out@)[j]
            == partialize_children(schemas_view(oss), forced)[j] by {
            assert(schemas_view(out@)[j] == schema_view_at(out@, j));
            assert(partialize_children(schemas_view(oss), forced)[j] == partialize_child_at(
                schemas_view(oss),
                forced,
                j,
            ));
        }
        assert(schemas_view(out@) =~= partialize_children(schemas_view(oss), forced));
    }
    out
}

/// Partializes a schema: returns the descriptor of the all-optional
/// counterpart of the described type, per [`partialize_node`].
#[verifier::loop_isolation(false)]
pub fn partialize_schema(schema: Schema, force_partial: bool) -> (r: Schema)
    ensures
        r@ == partialize_node(schema@, force_partial),
    decreases schema_size(schema), 1int,
{
    let Schema { name, optional, nullable, ty } = schema;
    match ty {
        SchemaType::Array(item) => {
            let ghost oi = schema_view(*item);
            let new_item = partialize_schema(*item, false);
            proof {
                assert(seq![schema_view(new_item)] =~= partialize_children(seq![oi], false));
            }
            Schema { name, optional, nullable, ty: SchemaType::Array(Box::new(new_item)) }
        },
        SchemaType::Object(key, value) => {
            let ghost ok = schema_view(*key);
            let ghost ov = schema_view(*value);
            let new_key = partialize_schema(*key, false);
            let new_value = partialize_schema(*value, false);
            proof {
                assert(seq![schema_view(new_key), schema_view(new_value)] =~= partialize_children(
                    seq![ok, ov],
                    false,
                ));
            }
            Schema {
                name,
                optional,
                nullable,
                ty: SchemaType::Object(Box::new(new_key), Box::new(new_value)),
            }
        },
        SchemaType::Struct(inner) => {
            let forced = inner.partial || force_partial;
            let new_name = if forced {
                prefix_name(name)
            } else {
                name
            };
            let new_fields = partialize_vec(inner.fields, forced);
            Schema {
                name: new_name,
                optional,
                nullable,
                ty: SchemaType::Struct(StructType { partial: inner.partial, fields: new_fields }),
            }
        },
        SchemaType::Tuple(items) => {
            let new_items = partialize_vec(items, false);
            Schema { name, optional, nullable, ty: SchemaType::Tuple(new_items) }
        },
        SchemaType::Union(inner) => {
            let renamed = inner.partial || force_partial;
            let new_name = if renamed {
                prefix_name(name)
            } else {
                name
            };
            let new_variants = partialize_vec(inner.variants, false);
            Schema {
                name: new_name,
                optional,
                nullable,
                ty: SchemaType::Union(UnionType { partial: inner.partial, variants: new_variants }),
            }
        },
        SchemaType::Scalar => Schema { name, optional, nullable, ty: SchemaType::Scalar },
    }
}

/// Applying the partial marker twice is the same as applying it once:
/// a name already prefixed is not prefixed again.
pub proof fn lemma_prefix_stable(name: Option<Seq<char>>)
    ensures
        prefixed_name(prefixed_name(name)) == prefixed_name(name),
{
    reveal_strlit("Partial");
    match name {
        Option::Some(n) => {
            if !starts_with_spec(n, "Partial"@) {
                let p = "Partial"@ + n;
                assert(p.subrange(0, 7) =~= "Partial"@);
                assert(starts_with_spec(p, "Partial"@));
            }
        },
        Option::None => {},
    }
}

/// After partializing a struct that is flagged partial (or forced by
/// an ancestor), every field is optional and nullable, and the name,
/// when present, carries the partial marker.
pub proof fn lemma_partialized_struct_all_optional(v: SchemaView, force: bool)
    requires
        v.ty matches TypeView::Struct { partial, .. } && (partial || force),
    ensures
        (match partialize_node(v, force).ty {
            TypeView::Struct { fields, .. } => forall|i: int|
                0 <= i < fields.len() ==> (#[trigger] fields[i]).optional && fields[i].nullable,
            _ => false,
        }),
        v.name is Some ==> starts_with_spec(partialize_node(v, force).name->0, "Partial"@),
{
    reveal_strlit("Partial");
    let r = partialize_node(v, force);
    match v.ty {
        TypeView::Struct { partial, fields } => {
            assert(r.ty == partialize_ty(v.ty, force));
            assert forall|i: int|
                0 <= i < fields.len() implies (#[trigger] partialize_children(fields, true)[
                i]).optional && partialize_children(fields, true)[i].nullable by {
                assert(partialize_children(fields, true)[i] == partialize_child_at(
                    fields,
                    true,
                    i,
                ));
            }
        },
        _ => {},
    }
    if v.name is Some {
        let n = v.name->0;
        if !starts_with_spec(n, "Partial"@) {
            let p = "Partial"@ + n;
            assert(p.subrange(0, 7) =~= "Partial"@);
        }
    }
}

} // verus!
