use vstd::prelude::*;
use crate::table::{ArgSpec, CallTable, MethodSpec, strings_view, table_wf};

verus! {

/// One field of a real variant: its encoding hint and element type.
pub struct FieldDef {
    pub compact: bool,
    pub ty: String,
}

/// A variant of the synthesized call type.
pub enum VariantDef {
    /// The reserved variant that only anchors the module's generic
    /// parameters; it holds an uninhabited field and is never built.
    Sentinel,
    /// One variant per declared method, with its fields in declared order.
    Real { tag: String, fields: Vec<FieldDef>, docs: Vec<String> },
}

/// Description of the synthesized call type.
pub struct CallTypeDef {
    pub docs: Vec<String>,
    pub variants: Vec<VariantDef>,
}

pub open spec fn field_matches(f: FieldDef, a: ArgSpec) -> bool {
    f.compact == a.compact && f.ty@ == a.ty@
}

/// `v` is the real variant generated for method `m`.
pub open spec fn variant_for(v: VariantDef, m: MethodSpec) -> bool {
    match v {
        VariantDef::Sentinel => false,
        VariantDef::Real { tag, fields, docs } => {
            &&& tag@ == m.name@
            &&& fields@.len() == m.args@.len()
            &&& forall|j: int| 0 <= j < fields@.len() ==> #[trigger] field_matches(fields@[j], m.args@[j])
            &&& strings_view(docs@) == strings_view(m.docs@)
        },
    }
}

pub(crate) fn copy_strings(v: &Vec<String>) -> (r: Vec<String>)
    ensures
        strings_view(r@) == strings_view(v@),
{
    let mut r: Vec<String> = Vec::new();
    let mut i: usize = 0;
    while i < v.len()
        invariant
            i <= v@.len(),
            r@.len() == i,
            forall|k: int| 0 <= k < i ==> #[trigger] r@[k]@ == v@[k]@,
        decreases v@.len() - i,
    {
        r.push(v[i].clone());
        i = i + 1;
    }
    assert(strings_view(r@) =~= strings_view(v@));
    r
}

fn fields_of(m: &MethodSpec) -> (r: Vec<FieldDef>)
    ensures
        r@.len() == m.args@.len(),
        forall|j: int| 0 <= j < r@.len() ==> #[trigger] field_matches(r@[j], m.args@[j]),
{
    let mut r: Vec<FieldDef> = Vec::new();
    let mut j: usize = 0;
    while j < m.args.len()
        invariant
            j <= m.args@.len(),
            r@.len() == j,
            forall|k: int| 0 <= k < j ==> #[trigger] field_matches(r@[k], m.args@[k]),
        decreases m.args@.len() - j,
    {
        let a = &m.args[j];
        r.push(FieldDef { compact: a.compact, ty: a.ty.clone() });
        j = j + 1;
    }
    r
}

/// Synthesizes the call type: the sentinel first, then one real variant
/// per method in declaration order, so `N` methods give `N + 1` variants
/// of which exactly one is the sentinel.
pub fn synthesize_call_type(table: &CallTable) -> (r: CallTypeDef)
    requires
        table_wf(*table),
    ensures
        r.variants@.len() == table.methods@.len() + 1,
        r.variants@[0] is Sentinel,
        forall|i: int| 0 <= i < table.methods@.len()
            ==> #[trigger] variant_for(r.variants@[i + 1], table.methods@[i]),
        strings_view(r.docs@) == strings_view(table.docs@),
{
    let mut variants: Vec<VariantDef> = Vec::new();
    variants.push(VariantDef::Sentinel);
    let mut i: usize = 0;
    while i < table.methods.len()
        invariant
            i <= table.methods@.len(),
            variants@.len() == i + 1,
            variants@[0] is Sentinel,
            forall|k: int| 0 <= k < i ==> #[trigger] variant_for(variants@[k + 1], table.methods@[k]),
        decreases table.methods@.len() - i,
    {
        let m = &table.methods[i];
        let v = VariantDef::Real { tag: m.name.clone(), fields: fields_of(m), docs: copy_strings(&m.docs) };
        variants.push(v);
        assert(variant_for(variants@[i as int + 1], table.methods@[i as int]));
        i = i + 1;
    }
    CallTypeDef { docs: copy_strings(&table.docs), variants }
}

/// The number of sentinel variants in a list of variants.
pub open spec fn sentinel_count(vs: Seq<VariantDef>) -> nat
    decreases vs.len(),
{
    if vs.len() == 0 {
        0
    } else {
        sentinel_count(vs.drop_last()) + if vs.last() is Sentinel { 1nat } else { 0nat }
    }
}

proof fn lemma_sentinel_count(vs: Seq<VariantDef>, n: nat)
    requires
        n <= vs.len(),
        vs.len() >= 1,
        vs[0] is Sentinel,
        forall|k: int| 1 <= k < n ==> !(#[trigger] vs[k] is Sentinel),
    ensures
        n >= 1 ==> sentinel_count(vs.subrange(0, n as int)) == 1,
    decreases n,
{
    if n > 1 {
        lemma_sentinel_count(vs, (n - 1) as nat);
        let s = vs.subrange(0, n as int);
        assert(s.drop_last() =~= vs.subrange(0, n - 1));
        assert(s.last() == vs[n - 1]);
        assert(!(vs[n - 1] is Sentinel));
    } else if n == 1 {
        let s = vs.subrange(0, 1);
        assert(s.drop_last() =~= Seq::<VariantDef>::empty());
        assert(s.last() == vs[0]);
        assert(sentinel_count(Seq::<VariantDef>::empty()) == 0);
    }
}

/// A table with `N` methods yields a call type with `N + 1` variants:
/// `N` real ones, each tied to its method in order, and one sentinel.
pub proof fn lemma_variant_count(table: CallTable, def: CallTypeDef)
    requires
        def.variants@.len() == table.methods@.len() + 1,
        def.variants@[0] is Sentinel,
        forall|i: int| 0 <= i < table.methods@.len()
            ==> #[trigger] variant_for(def.variants@[i + 1], table.methods@[i]),
    ensures
        sentinel_count(def.variants@) == 1,
        def.variants@.len() - sentinel_count(def.variants@) == table.methods@.len(),
{
    let vs = def.variants@;
    assert forall|k: int| 1 <= k < vs.len() implies !(#[trigger] vs[k] is Sentinel) by {
        assert(variant_for(vs[(k - 1) + 1], table.methods@[k - 1]));
    }
    lemma_sentinel_count(vs, vs.len());
    assert(vs.subrange(0, vs.len() as int) =~= vs);
}

} // verus!
