//! The library's general laws, stated and proved over the same spec
//! functions that the executable functions' contracts use.

use vstd::prelude::*;
use crate::abi::{dec_str, map_type_spec, map_types_joined, ParamType, ParamTypeList};
use crate::errors::ErrView;
use crate::jsonval::JsonNode;
use crate::model::{
    build_functions_view, make_function_view, qualifies, FunctionView,
};
use crate::selector::{join_comma, selector_hash_spec, signature_spec};

verus! {

/// The type mapping composes structurally: mapping a container type is the
/// container's spelling wrapped around the mapping of its element types,
/// at every nesting depth.
pub proof fn lemma_map_type_composes(t: ParamType, n: usize, ts: ParamTypeList)
    ensures
        map_type_spec(ParamType::Array(Box::new(t))) == "Vec<"@ + map_type_spec(t) + ">"@,
        map_type_spec(ParamType::FixedArray(Box::new(t), n)) == "["@ + map_type_spec(t) + "; "@
            + dec_str(n as nat) + "]"@,
        map_type_spec(ParamType::Tuple(Box::new(ts))) == "("@ + map_types_joined(ts) + ")"@,
{
}

/// Selector derivation is deterministic: equal names and equal raw type
/// sequences give the same signature text and the same selector.
pub proof fn lemma_selector_deterministic(
    n1: Seq<char>,
    t1: Seq<Seq<char>>,
    n2: Seq<char>,
    t2: Seq<Seq<char>>,
)
    requires
        n1 == n2,
        t1 == t2,
    ensures
        signature_spec(n1, t1) == signature_spec(n2, t2),
        selector_hash_spec(signature_spec(n1, t1)) == selector_hash_spec(
            signature_spec(n2, t2),
        ),
{
}

/// Changing the function name changes the signature text.
pub proof fn lemma_signature_name_injective(n1: Seq<char>, n2: Seq<char>, ts: Seq<Seq<char>>)
    requires
        n1 != n2,
    ensures
        signature_spec(n1, ts) != signature_spec(n2, ts),
{
    let s1 = signature_spec(n1, ts);
    let s2 = signature_spec(n2, ts);
    if n1.len() == n2.len() {
        assert(exists|i: int| 0 <= i < n1.len() && n1[i] != n2[i]) by {
            if forall|i: int| 0 <= i < n1.len() ==> n1[i] == n2[i] {
                assert(n1 =~= n2);
            }
        }
        let i = choose|i: int| 0 <= i < n1.len() && n1[i] != n2[i];
        assert(s1[i] == n1[i]);
        assert(s2[i] == n2[i]);
        assert(s1[i] != s2[i]);
    } else {
        assert(s1.len() != s2.len());
    }
}

/// Changing the joined raw-type text changes the signature text. (Two
/// different type sequences whose comma-joined texts coincide are not
/// covered: the join is all the signature keeps of them.)
pub proof fn lemma_signature_types_injective(
    n: Seq<char>,
    t1: Seq<Seq<char>>,
    t2: Seq<Seq<char>>,
)
    requires
        join_comma(t1) != join_comma(t2),
    ensures
        signature_spec(n, t1) != signature_spec(n, t2),
{
    let j1 = join_comma(t1);
    let j2 = join_comma(t2);
    let s1 = signature_spec(n, t1);
    let s2 = signature_spec(n, t2);
    if j1.len() == j2.len() {
        assert(exists|i: int| 0 <= i < j1.len() && j1[i] != j2[i]) by {
            if forall|i: int| 0 <= i < j1.len() ==> j1[i] == j2[i] {
                assert(j1 =~= j2);
            }
        }
        let i = choose|i: int| 0 <= i < j1.len() && j1[i] != j2[i];
        reveal_strlit("(");
        assert(("("@).len() == 1);
        let pre = n + "("@;
        assert(pre.len() == n.len() + 1);
        assert(s1 == (pre + j1) + ")"@);
        assert((pre + j1)[n.len() + 1 + i] == j1[i]);
        assert(s1[n.len() + 1 + i] == (pre + j1)[n.len() + 1 + i]);
        assert((pre + j2)[n.len() + 1 + i] == j2[i]);
        assert(s2[n.len() + 1 + i] == (pre + j2)[n.len() + 1 + i]);
        assert(s1[n.len() + 1 + i] != s2[n.len() + 1 + i]);
    } else {
        assert(s1.len() != s2.len());
    }
}

/// The qualifying entries of an interface description, in first-pass order.
pub open spec fn qualifying_entries(entries: Seq<JsonNode>) -> Seq<JsonNode>
    decreases entries.len(),
{
    if entries.len() == 0 {
        Seq::<JsonNode>::empty()
    } else if qualifies(entries[0]) {
        seq![entries[0]] + qualifying_entries(entries.drop_first())
    } else {
        qualifying_entries(entries.drop_first())
    }
}

/// Filtering correctness and order preservation: a successful build yields
/// exactly one function per qualifying entry — no entry failing the filter
/// contributes — and the functions stand in the order the qualifying
/// entries stand in the input, not sorted in any way.
pub proof fn lemma_build_keeps_order(entries: Seq<JsonNode>, fs: Seq<FunctionView>)
    requires
        build_functions_view(entries) == Ok::<Seq<FunctionView>, ErrView>(fs),
    ensures
        fs.len() == qualifying_entries(entries).len(),
        forall|k: int|
            0 <= k < fs.len() ==> make_function_view(qualifying_entries(entries)[k]) == Ok::<
                FunctionView,
                ErrView,
            >(fs[k]),
    decreases entries.len(),
{
    if entries.len() == 0 {
    } else {
        let rest = entries.drop_first();
        let q = qualifying_entries(entries);
        let q1 = qualifying_entries(rest);
        if qualifies(entries[0]) {
            let f0 = make_function_view(entries[0])->Ok_0;
            let fs1 = build_functions_view(rest)->Ok_0;
            assert(fs == seq![f0] + fs1);
            lemma_build_keeps_order(rest, fs1);
            assert(q == seq![entries[0]] + q1);
            assert forall|k: int|
                0 <= k < fs.len() implies make_function_view(q[k]) == Ok::<
                FunctionView,
                ErrView,
            >(fs[k]) by {
                if k == 0 {
                    assert(q[0] == entries[0]);
                    assert(fs[0] == f0);
                } else {
                    assert(q[k] == q1[k - 1]);
                    assert(fs[k] == fs1[k - 1]);
                }
            }
        } else {
            lemma_build_keeps_order(rest, fs);
        }
    }
}

} // verus!
