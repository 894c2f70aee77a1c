//! The resolution engine's pure core: turning a layer's extends value
//! into the sources it pulls in, and merging parsed layers in
//! precedence order.
//!
//! Sources are resolved and merged strictly in declaration order: a
//! layer's extends chain is resolved first and merged before the
//! layer itself, so a layer wins over what it extends but loses to
//! any later layer.  The blocking reads that load file and URL
//! content stay outside this crate's verified core; the engine works
//! on the loaded text and the parsed partials.

use vstd::prelude::*;
use crate::error::ConfigError;
use crate::error::HandlerError;
use crate::partial::merge_fields_ok;
use crate::partial::merge_fields_val;
use crate::partial::specs_view;
use crate::partial::FieldSpec;
use crate::partial::PartialFields;
use crate::partial::ValueView;
use crate::source::classify_spec;
use crate::source::parent_view;
use crate::source::Source;
use crate::source::SourceView;

verus! {

/// An extends value: one source reference, or an ordered list of
/// them.
#[derive(Debug, PartialEq, Eq)]
pub enum ExtendsFrom {
    String(String),
    List(Vec<String>),
}

/// The views of a vector of strings.
pub open spec fn strings_view(values: Seq<String>) -> Seq<Seq<char>> {
    Seq::new(values.len(), |i: int| values[i]@)
}

/// What resolving an ordered list of extends references yields: each
/// reference classified under the same parent, in order, stopping at
/// the first rejected reference.
pub open spec fn resolve_list_spec(values: Seq<Seq<char>>, parent: Option<SourceView>) -> Result<
    Seq<SourceView>,
    ConfigError,
>
    decreases values.len(),
{
    if values.len() == 0 {
        Ok(Seq::empty())
    } else {
        match classify_spec(values[0], parent) {
            Ok(s) => match resolve_list_spec(values.drop_first(), parent) {
                Ok(rest) => Ok(seq![s] + rest),
                Err(e) => Err(e),
            },
            Err(e) => Err(e),
        }
    }
}

/// What resolving an extends value yields: a single reference gives
/// one source, a list gives one source per reference in order.
pub open spec fn resolve_extends_spec(
    extends: ExtendsFrom,
    parent: Option<SourceView>,
) -> Result<Seq<SourceView>, ConfigError> {
    match extends {
        ExtendsFrom::String(value) => match classify_spec(value@, parent) {
            Ok(s) => Ok(seq![s]),
            Err(e) => Err(e),
        },
        ExtendsFrom::List(values) => resolve_list_spec(strings_view(values@), parent),
    }
}

/// The view of a source-list result.
pub open spec fn sources_res_view(r: Result<Vec<Source>, ConfigError>) -> Result<
    Seq<SourceView>,
    ConfigError,
> {
    match r {
        Ok(v) => Ok(Seq::new(v@.len(), |i: int| v@[i]@)),
        Err(e) => Err(e),
    }
}

/// Resolves an extends value into the sources it pulls in, each
/// classified under the declaring layer's source: it succeeds exactly
/// when every reference classifies, and fails with the first
/// reference's rejection otherwise.
#[verifier::loop_isolation(false)]
pub fn resolve_extends(extends: &ExtendsFrom, parent: Option<&Source>) -> (r: Result<
    Vec<Source>,
    ConfigError,
>)
    ensures
        sources_res_view(r) == resolve_extends_spec(*extends, parent_view(parent)),
{
    match extends {
        ExtendsFrom::String(value) => {
            match Source::new(value.as_str(), parent) {
                Ok(source) => {
                    let mut out: Vec<Source> = Vec::new();
                    out.push(source);
                    proof {
                        let ghost pv = parent_view(parent);
                        assert(Seq::new(out@.len(), |i: int| out@[i]@) =~= seq![
                            classify_spec(value@, pv)->Ok_0,
                        ]);
                    }
                    Ok(out)
                },
                Err(e) => Err(e),
            }
        },
        ExtendsFrom::List(values) => {
            let ghost pv = parent_view(parent);
            let ghost sv = strings_view(values@);
            let n = values.len();
            let mut out: Vec<Source> = Vec::new();
            let mut i: usize = 0;
            proof {
                assert(sv.skip(0) =~= sv);
            }
            while i < n
                invariant
                    i <= n,
                    n == values@.len(),
                    out@.len() == i,
                    resolve_list_spec(sv, pv) == (match resolve_list_spec(
                        sv.skip(i as int),
                        pv,
                    ) {
                        Ok(rest) => Ok::<Seq<SourceView>, ConfigError>(
                            Seq::new(out@.len(), |j: int| out@[j]@) + rest,
                        ),
                        Err(e) => Err(e),
                    }),
                decreases n - i,
            {
                proof {
                    let tail = sv.skip(i as int);
                    assert(tail[0] == values@[i as int]@);
                    assert(tail.drop_first() =~= sv.skip(i as int + 1));
                }
                let ghost out_before = out@;
                match Source::new(values[i].as_str(), parent) {
                    Ok(source) => {
                        out.push(source);
                        proof {
                            let s = classify_spec(values@[i as int]@, pv)->Ok_0;
                            assert(Seq::new(out@.len(), |j: int| out@[j]@) =~= Seq::new(
                                out_before.len(),
                                |j: int| out_before[j]@,
                            ) + seq![s]);
                            assert forall|rest: Seq<SourceView>|
                                true implies (Seq::new(out_before.len(), |j: int| out_before[j]@)
                                + (seq![s] + rest)) =~= (Seq::new(
                                out@.len(),
                                |j: int| out@[j]@,
                            ) + rest) by {}
                        }
                    },
                    Err(e) => {
                        return Err(e);
                    },
                }
                i = i + 1;
            }
            proof {
                assert(sv.skip(n as int) =~= Seq::<Seq<char>>::empty());
                assert(Seq::new(out@.len(), |j: int| out@[j]@) + Seq::<SourceView>::empty()
                    =~= Seq::new(out@.len(), |j: int| out@[j]@));
            }
            Ok(out)
        },
    }
}

/// What merging a run of layers into an accumulator yields, in
/// order; the first rejected overlap stops the chain.
pub open spec fn merge_chain_spec(
    specs: Seq<crate::partial::FieldSpecView>,
    acc: Seq<Option<ValueView>>,
    layers: Seq<Seq<Option<ValueView>>>,
) -> Result<Seq<Option<ValueView>>, ()>
    decreases layers.len(),
{
    if layers.len() == 0 {
        Ok(acc)
    } else if merge_fields_ok(specs, acc, layers[0]) {
        merge_chain_spec(specs, merge_fields_val(specs, acc, layers[0]), layers.drop_first())
    } else {
        Err(())
    }
}

/// The views of a vector of partials.
pub open spec fn layers_view(layers: Seq<PartialFields>) -> Seq<Seq<Option<ValueView>>> {
    Seq::new(layers.len(), |i: int| layers[i]@)
}

/// Merges parsed layers into the accumulator strictly in order, each
/// layer's values taking effect over what came before it.
#[verifier::loop_isolation(false)]
pub fn merge_layers(
    specs: &Vec<FieldSpec>,
    acc: PartialFields,
    layers: Vec<PartialFields>,
) -> (r: Result<PartialFields, HandlerError>)
    ensures
        r matches Ok(m) ==> merge_chain_spec(specs_view(specs@), acc@, layers_view(layers@))
            == Ok::<Seq<Option<ValueView>>, ()>(m@),
        r is Err ==> merge_chain_spec(specs_view(specs@), acc@, layers_view(layers@)) is Err,
{
    let ghost lv = layers_view(layers@);
    let ghost svs = specs_view(specs@);
    let ghost acc0 = acc@;
    let mut acc = acc;
    let mut rest = layers;
    let ghost mut k: int = 0;
    proof {
        assert(lv.skip(0) =~= lv);
    }
    while rest.len() > 0
        invariant
            0 <= k,
            k + rest@.len() == lv.len(),
            forall|j: int| 0 <= j < rest@.len() ==> rest@[j] == layers@[j + k],
            merge_chain_spec(svs, acc@, lv.skip(k)) == merge_chain_spec(svs, acc0, lv),
        decreases rest@.len(),
    {
        proof {
            let tail = lv.skip(k);
            assert(tail[0] == layers@[k]@);
            assert(tail.drop_first() =~= lv.skip(k + 1));
        }
        let layer = rest.remove(0);
        proof {
            assert(layer@ == lv.skip(k)[0]);
        }
        match acc.merge(specs, layer) {
            Ok(()) => {},
            Err(e) => {
                return Err(e);
            },
        }
        proof {
            k = k + 1;
        }
    }
    proof {
        assert(lv.skip(k) =~= Seq::<Seq<Option<ValueView>>>::empty());
    }
    Ok(acc)
}

} // verus!
