use vstd::prelude::*;
use crate::call_type::{CallTypeDef, synthesize_call_type, variant_for};
use crate::counter::{Counter, DefinednessGuard, definedness_guard, helper_name, missing_call_message};
use crate::metadata::{FunctionMetadata, call_functions, describes};
use crate::table::{
    CallBlock, CallTable, default_call_doc, normalize, normalized_docs, strings_view, table_wf,
};

verus! {

/// Everything generated for one module's call part. Dispatch, cost
/// classification and encoding all work against `table`.
pub struct CallExpansion {
    pub table: CallTable,
    pub call_type: CallTypeDef,
    pub metadata: Vec<FunctionMetadata>,
    pub guard: DefinednessGuard,
}

/// What upstream guarantees of a declared block (see `table_wf`).
pub open spec fn block_wf(block: Option<CallBlock>) -> bool {
    match block {
        Some(b) => table_wf(CallTable { declared: true, methods: b.methods, docs: b.docs }),
        None => true,
    }
}

/// Generates a module's call part from its declared block, if any, taking
/// the next helper number from the shared counter.
pub fn expand_call(counter: &mut Counter, block: Option<CallBlock>) -> (r: CallExpansion)
    requires
        old(counter).0 < u64::MAX,
        block_wf(block),
    ensures
        final(counter).0 == old(counter).0 + 1,
        r.table.declared == block.is_some(),
        block matches Some(b) ==> r.table.methods@ == b.methods@,
        block is None ==> r.table.methods@.len() == 0,
        block matches Some(b) ==> strings_view(r.table.docs@) == normalized_docs(strings_view(b.docs@)),
        block is None ==> strings_view(r.table.docs@) == seq![default_call_doc()],
        strings_view(r.call_type.docs@) == strings_view(r.table.docs@),
        table_wf(r.table),
        r.call_type.variants@.len() == r.table.methods@.len() + 1,
        r.call_type.variants@[0] is Sentinel,
        forall|i: int| 0 <= i < r.table.methods@.len()
            ==> #[trigger] variant_for(r.call_type.variants@[i + 1], r.table.methods@[i]),
        r.metadata@.len() == r.table.methods@.len(),
        forall|i: int| 0 <= i < r.metadata@.len()
            ==> #[trigger] describes(r.metadata@[i], r.table.methods@[i]),
        r.guard.helper@ == helper_name(old(counter).0 as nat),
        block is Some ==> r.guard.missing_error.is_none(),
        block is None ==> (r.guard.missing_error matches Some(m) && m@ == missing_call_message()),
{
    let declared = block.is_some();
    let ghost b = block;
    let table = normalize(block);
    proof {
        if let Some(bb) = b {
            assert(table.methods@ == bb.methods@);
        }
    }
    let call_type = synthesize_call_type(&table);
    let metadata = call_functions(&table);
    let guard = definedness_guard(counter, declared);
    CallExpansion { table, call_type, metadata, guard }
}

} // verus!
