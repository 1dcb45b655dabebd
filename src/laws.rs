use crate::codec::Quantization;
use crate::collect::collected;
use crate::merge::{defines, latest, latest_in_files, lemma_latest_some};
use crate::policy::{fits_codec, is_suffix, spec_baseline_codec, QuantizationMode, Treatment};
use crate::route::{spec_plan, UsageError};
use vstd::prelude::*;

verus! {

pub open spec fn names_of<T>(s: Seq<(String, T)>) -> Seq<Seq<char>> {
    s.map_values(|p: (String, T)| p.0@)
}

/// The tensors gathered from per-tensor results carry exactly the names of
/// those results, in the same order: none is dropped, added or renamed.
pub proof fn law_completeness<T, E>(s: Seq<(String, Result<T, E>)>, out: Seq<(String, T)>)
    requires
        collected(s, out),
    ensures
        names_of(out) == names_of(s),
{
    assert(names_of(out) =~= names_of(s)) by {
        assert forall|i: int| 0 <= i < out.len() implies names_of(out)[i] == names_of(s)[i] by {
            assert(out[i].0 == s[i].0);
        }
    }
}

/// A tensor whose rank is not 2, or whose last dimension is not a whole
/// number of the requested codec's blocks, is stored as 32-bit floats,
/// whatever codec was requested.
pub proof fn law_fallback(dims: Seq<usize>, requested: Quantization)
    requires
        dims.len() != 2 || dims[1] % requested.spec_block_size() != 0,
    ensures
        spec_baseline_codec(dims, requested) == Quantization::F32,
        !fits_codec(dims, requested),
{
}

/// Llama mode has the same fallback: a rank-2 `.weight` tensor whose last
/// dimension is not a whole number of its codec's blocks is stored as
/// 32-bit floats.
pub proof fn law_llama_fallback(name: Seq<char>, dims: Seq<usize>, requested: Quantization)
    requires
        is_suffix(".weight"@, name),
        dims.len() == 2,
        name == "output.weight"@ ==> dims[1] % Quantization::Q6k.spec_block_size() != 0,
        name != "output.weight"@ ==> dims[1] % requested.spec_block_size() != 0,
    ensures
        QuantizationMode::Llama.spec_decide(name, dims, requested) == Treatment::Encoded(
            Quantization::F32,
        ),
{
}

/// In Llama mode the output tensor of rank 2 takes the 6-bit k-family codec
/// whatever codec was requested, other rank-2 `.weight` tensors take the
/// requested codec, each where the codec fits the last dimension; and a
/// tensor whose name does not end in `.weight` is always kept as it was
/// read, whatever its shape and the requested codec.
pub proof fn law_llama_override(name: Seq<char>, dims: Seq<usize>, requested: Quantization)
    ensures
        dims.len() == 2 && dims[1] % Quantization::Q6k.spec_block_size() == 0
            ==> QuantizationMode::Llama.spec_decide("output.weight"@, dims, requested)
            == Treatment::Encoded(Quantization::Q6k),
        is_suffix(".weight"@, name) && name != "output.weight"@ && fits_codec(dims, requested)
            ==> QuantizationMode::Llama.spec_decide(name, dims, requested) == Treatment::Encoded(
            requested,
        ),
        !is_suffix(".weight"@, name) ==> QuantizationMode::Llama.spec_decide(name, dims, requested)
            == Treatment::Kept,
{
    reveal_strlit("output.weight");
    reveal_strlit(".weight");
    let out = "output.weight"@;
    assert(out.subrange(out.len() - 7, out.len() as int) =~= ".weight"@);
}

/// Where two flat tensor files both define `k`, the merged set holds the
/// later file's version of it.
pub proof fn law_merge_precedence<T>(first: Seq<(String, T)>, second: Seq<(String, T)>, k: Seq<char>)
    requires
        latest(first, k) is Some,
        latest(second, k) is Some,
    ensures
        latest_in_files(seq![first, second], k) == latest(second, k),
{
    let files = seq![first, second];
    assert(files.last() == second);
}

/// Two files that share no name merge to the same set in either order.
pub proof fn law_merge_order_free<T>(a: Seq<(String, T)>, b: Seq<(String, T)>, k: Seq<char>)
    requires
        forall|i: int, j: int| 0 <= i < a.len() && 0 <= j < b.len() ==> a[i].0@ != b[j].0@,
    ensures
        latest_in_files(seq![a, b], k) == latest_in_files(seq![b, a], k),
{
    let ab = seq![a, b];
    let ba = seq![b, a];
    assert(ab.last() == b && ab.drop_last() =~= seq![a]);
    assert(ba.last() == a && ba.drop_last() =~= seq![b]);
    assert(seq![a].last() == a && seq![a].drop_last() =~= Seq::<Seq<(String, T)>>::empty());
    assert(seq![b].last() == b && seq![b].drop_last() =~= Seq::<Seq<(String, T)>>::empty());
    let none = Seq::<Seq<(String, T)>>::empty();
    assert(latest_in_files(none, k) is None);
    assert(latest_in_files(seq![a], k) == latest(a, k));
    assert(latest_in_files(seq![b], k) == latest(b, k));
    lemma_latest_some(a, k);
    lemma_latest_some(b, k);
    if defines(a, k) && defines(b, k) {
        let i = choose|i: int| 0 <= i < a.len() && (#[trigger] a[i]).0@ == k;
        let j = choose|j: int| 0 <= j < b.len() && (#[trigger] b[j]).0@ == k;
    }
}

/// A name has a value in the merge of several files exactly when one of
/// the files defines it: merging drops no name and adds none.
pub proof fn law_merged_names<T>(files: Seq<Seq<(String, T)>>, k: Seq<char>)
    ensures
        latest_in_files(files, k) is Some <==> exists|f: int|
            0 <= f < files.len() && defines(#[trigger] files[f], k),
    decreases files.len(),
{
    if files.len() > 0 {
        let rest = files.drop_last();
        law_merged_names(rest, k);
        lemma_latest_some(files.last(), k);
        if exists|f: int| 0 <= f < rest.len() && defines(#[trigger] rest[f], k) {
            let f = choose|f: int| 0 <= f < rest.len() && defines(#[trigger] rest[f], k);
            assert(files[f] == rest[f]);
        }
        if exists|f: int| 0 <= f < files.len() && defines(#[trigger] files[f], k) {
            let f = choose|f: int| 0 <= f < files.len() && defines(#[trigger] files[f], k);
            if f < files.len() - 1 {
                assert(rest[f] == files[f]);
            }
        }
    }
}

/// A request with no input, one that writes a safetensors file, and one that
/// gives several inputs of which the first is no safetensors file are all
/// refused.
pub proof fn law_usage_validation(n_inputs: nat, first: Option<Seq<char>>, output: Option<Seq<char>>)
    ensures
        n_inputs == 0 ==> spec_plan(n_inputs, first, output) == Err::<crate::route::Route, UsageError>(
            UsageError::NoInputs,
        ),
        n_inputs > 0 && output == Some("safetensors"@) ==> spec_plan(n_inputs, first, output) == Err::<
            crate::route::Route,
            UsageError,
        >(UsageError::FlatTensorOutput),
        n_inputs > 1 && output != Some("safetensors"@) && first != Some("safetensors"@) ==> spec_plan(
            n_inputs,
            first,
            output,
        ) is Err,
{
}

} // verus!
