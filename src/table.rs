use vstd::prelude::*;
use vstd::string::StringExecFns;

verus! {

/// Scheduling class of an invocation.
#[derive(Clone, Copy, Debug, PartialEq, Eq, Structural)]
pub enum DispatchClass {
    Normal,
    Operational,
    Mandatory,
}

/// A method's declared cost policy. Each form answers the three queries
/// weigh, classify and pays-fee over the variant's bound arguments.
#[derive(Clone, Copy, Debug, PartialEq, Eq, Structural)]
pub enum WeightExpr {
    /// The same weight whatever the arguments.
    Fixed { weight: u64, class: DispatchClass, pays_fee: bool },
    /// `base + per_unit * args[arg]`, saturating at the top of `u64`.
    PerArgument { base: u64, per_unit: u64, arg: usize, class: DispatchClass, pays_fee: bool },
}

/// One declared argument: its encoding hint, name and type expression.
pub struct ArgSpec {
    pub compact: bool,
    pub name: String,
    pub ty: String,
}

/// One declared method.
pub struct MethodSpec {
    pub name: String,
    pub args: Vec<ArgSpec>,
    pub weight: WeightExpr,
    pub docs: Vec<String>,
}

/// A call block as the module declares it.
pub struct CallBlock {
    pub methods: Vec<MethodSpec>,
    pub docs: Vec<String>,
}

/// The normalized table every artifact is generated from.
pub struct CallTable {
    /// Whether the module declared a call block at all.
    pub declared: bool,
    pub methods: Vec<MethodSpec>,
    pub docs: Vec<String>,
}

pub open spec fn strings_view(v: Seq<String>) -> Seq<Seq<char>> {
    v.map_values(|s: String| s@)
}

/// A weight expression that only refers to arguments that exist.
pub open spec fn weight_fits(w: WeightExpr, n_args: nat) -> bool {
    match w {
        WeightExpr::Fixed { .. } => true,
        WeightExpr::PerArgument { arg, .. } => arg < n_args,
    }
}

/// What upstream parsing guarantees of a table: at most 256 real variants
/// (one index byte each) and weight expressions over existing arguments.
pub open spec fn table_wf(t: CallTable) -> bool {
    &&& t.methods@.len() <= 256
    &&& forall|i: int| 0 <= i < t.methods@.len()
        ==> #[trigger] weight_fits(t.methods@[i].weight, t.methods@[i].args@.len())
}

/// The documentation given to a call type whose block has none.
pub open spec fn default_call_doc() -> Seq<char> {
    "Contains one variant per dispatchable that can be called by an extrinsic."@
}

/// The docs of a normalized table: the block's own, or the default line.
pub open spec fn normalized_docs(block_docs: Seq<Seq<char>>) -> Seq<Seq<char>> {
    if block_docs.len() == 0 {
        seq![default_call_doc()]
    } else {
        block_docs
    }
}

/// Builds the normalized table. A missing block gives an empty table that
/// remembers it was never declared; methods and arguments keep their order.
pub fn normalize(block: Option<CallBlock>) -> (r: CallTable)
    ensures
        r.declared == block.is_some(),
        match block {
            Some(b) => {
                &&& r.methods@ == b.methods@
                &&& strings_view(r.docs@) == normalized_docs(strings_view(b.docs@))
            },
            None => {
                &&& r.methods@.len() == 0
                &&& strings_view(r.docs@) == seq![default_call_doc()]
            },
        },
{
    match block {
        Some(b) => {
            let CallBlock { methods, docs } = b;
            let ghost old_docs = docs@;
            let docs = if docs.len() == 0 {
                default_docs()
            } else {
                docs
            };
            proof {
                if old_docs.len() != 0 {
                    assert(strings_view(docs@) == normalized_docs(strings_view(old_docs)));
                } else {
                    assert(strings_view(old_docs).len() == 0);
                }
            }
            CallTable { declared: true, methods, docs }
        },
        None => CallTable { declared: false, methods: Vec::new(), docs: default_docs() },
    }
}

fn default_docs() -> (r: Vec<String>)
    ensures
        strings_view(r@) == seq![default_call_doc()],
{
    let mut v: Vec<String> = Vec::new();
    v.push(
        String::from_str("Contains one variant per dispatchable that can be called by an extrinsic."),
    );
    assert(strings_view(v@) =~= seq![default_call_doc()]);
    v
}

} // verus!
