use vstd::prelude::*;
use crate::table::{CallTable, DispatchClass, WeightExpr, table_wf, weight_fits};

verus! {

/// A value of the call type: one method index with its bound arguments,
/// or the sentinel, which no legitimate path constructs.
pub enum CallValue {
    Ignore,
    Invoke { index: usize, args: Vec<u64> },
}

/// `c` is a real variant of `t`'s call type with one value per argument.
pub open spec fn valid_call(t: CallTable, c: CallValue) -> bool {
    match c {
        CallValue::Ignore => false,
        CallValue::Invoke { index, args } => {
            &&& index < t.methods@.len()
            &&& args@.len() == t.methods@[index as int].args@.len()
        },
    }
}

pub open spec fn call_index(c: CallValue) -> int {
    match c {
        CallValue::Ignore => -1,
        CallValue::Invoke { index, .. } => index as int,
    }
}

pub open spec fn call_args(c: CallValue) -> Seq<u64> {
    match c {
        CallValue::Ignore => Seq::empty(),
        CallValue::Invoke { args, .. } => args@,
    }
}

/// The method call a dispatch routes to: the method of the variant's name,
/// the caller's origin, then the bound arguments in declared order.
pub struct Invocation<O> {
    pub method: String,
    pub origin: O,
    pub args: Vec<u64>,
}

/// Routes a call to its method, bypassing any call filter. The sentinel
/// is excluded: reaching it would be a broken invariant, not an error.
pub fn dispatch_bypass_filter<O>(table: &CallTable, call: CallValue, origin: O) -> (r: Invocation<O>)
    requires
        valid_call(*table, call),
    ensures
        r.method@ == table.methods@[call_index(call)].name@,
        r.origin == origin,
        r.args@ == call_args(call),
{
    match call {
        CallValue::Invoke { index, args } => {
            Invocation { method: table.methods[index].name.clone(), origin, args }
        },
        CallValue::Ignore => {
            proof {
                assert(false);
            }
            Invocation { method: String::new(), origin, args: Vec::new() }
        },
    }
}

/// The name of the method a call value invokes.
pub fn get_call_name(table: &CallTable, call: &CallValue) -> (r: String)
    requires
        valid_call(*table, *call),
    ensures
        r@ == table.methods@[call_index(*call)].name@,
{
    match call {
        CallValue::Invoke { index, .. } => table.methods[*index].name.clone(),
        CallValue::Ignore => {
            proof {
                assert(false);
            }
            String::new()
        },
    }
}

/// The names of all methods, in declaration order.
pub fn get_call_names(table: &CallTable) -> (r: Vec<String>)
    ensures
        r@.len() == table.methods@.len(),
        forall|i: int| 0 <= i < r@.len() ==> #[trigger] r@[i]@ == table.methods@[i].name@,
{
    let mut r: Vec<String> = Vec::new();
    let mut i: usize = 0;
    while i < table.methods.len()
        invariant
            i <= table.methods@.len(),
            r@.len() == i,
            forall|k: int| 0 <= k < i ==> #[trigger] r@[k]@ == table.methods@[k].name@,
        decreases table.methods@.len() - i,
    {
        r.push(table.methods[i].name.clone());
        i = i + 1;
    }
    r
}

/// What a dispatch reports back when the method succeeded.
#[derive(Clone, Copy, Debug, PartialEq, Eq, Structural)]
pub struct PostDispatchInfo {
    /// The weight the method actually used, when it reported one.
    pub actual_weight: Option<u64>,
}

/// A failed dispatch, carrying the method's error.
pub struct DispatchError {
    pub message: String,
}

/// Maps a method's outcome into the uniform dispatch result shape.
pub fn dispatch_outcome(outcome: Result<Option<u64>, String>) -> (r: Result<PostDispatchInfo, DispatchError>)
    ensures
        match outcome {
            Ok(w) => r matches Ok(p) && p.actual_weight == w,
            Err(m) => r matches Err(e) && e.message == m,
        },
{
    match outcome {
        Ok(w) => Ok(PostDispatchInfo { actual_weight: w }),
        Err(m) => Err(DispatchError { message: m }),
    }
}

/// Weight, class and fee flag of one invocation, computed before it runs.
#[derive(Clone, Copy, Debug, PartialEq, Eq, Structural)]
pub struct DispatchInfo {
    pub weight: u64,
    pub class: DispatchClass,
    pub pays_fee: bool,
}

/// The weigh query of a cost policy over bound arguments.
pub open spec fn weigh(w: WeightExpr, args: Seq<u64>) -> u64 {
    match w {
        WeightExpr::Fixed { weight, .. } => weight,
        WeightExpr::PerArgument { base, per_unit, arg, .. } => {
            let full = base as int + per_unit as int * args[arg as int] as int;
            if full > u64::MAX as int { u64::MAX } else { full as u64 }
        },
    }
}

/// The classify query of a cost policy.
pub open spec fn classify(w: WeightExpr) -> DispatchClass {
    match w {
        WeightExpr::Fixed { class, .. } => class,
        WeightExpr::PerArgument { class, .. } => class,
    }
}

/// The pays-fee query of a cost policy.
pub open spec fn pays_fee(w: WeightExpr) -> bool {
    match w {
        WeightExpr::Fixed { pays_fee, .. } => pays_fee,
        WeightExpr::PerArgument { pays_fee, .. } => pays_fee,
    }
}

fn weigh_exec(w: WeightExpr, args: &Vec<u64>) -> (r: u64)
    requires
        weight_fits(w, args@.len()),
    ensures
        r == weigh(w, args@),
{
    match w {
        WeightExpr::Fixed { weight, .. } => weight,
        WeightExpr::PerArgument { base, per_unit, arg, .. } => {
            let v = args[arg];
            assert(per_unit as int * v as int <= (u64::MAX as int) * (u64::MAX as int))
                by (nonlinear_arith)
                requires
                    0 <= per_unit <= u64::MAX,
                    0 <= v <= u64::MAX,
            ;
            let prod: u128 = (per_unit as u128) * (v as u128);
            assert((u64::MAX as int) * (u64::MAX as int) + u64::MAX as int <= u128::MAX as int)
                by (nonlinear_arith);
            let full: u128 = base as u128 + prod;
            if full > u64::MAX as u128 {
                u64::MAX
            } else {
                full as u64
            }
        },
    }
}

/// Weighs, classifies and prices a call without consuming it.
pub fn get_dispatch_info(table: &CallTable, call: &CallValue) -> (r: DispatchInfo)
    requires
        table_wf(*table),
        valid_call(*table, *call),
    ensures
        r.weight == weigh(table.methods@[call_index(*call)].weight, call_args(*call)),
        r.class == classify(table.methods@[call_index(*call)].weight),
        r.pays_fee == pays_fee(table.methods@[call_index(*call)].weight),
{
    match call {
        CallValue::Invoke { index, args } => {
            let w = table.methods[*index].weight;
            assert(weight_fits(table.methods@[*index as int].weight, table.methods@[*index as int].args@.len()));
            let weight = weigh_exec(w, args);
            let (class, fee) = match w {
                WeightExpr::Fixed { class, pays_fee, .. } => (class, pays_fee),
                WeightExpr::PerArgument { class, pays_fee, .. } => (class, pays_fee),
            };
            DispatchInfo { weight, class, pays_fee: fee }
        },
        CallValue::Ignore => {
            proof {
                assert(false);
            }
            DispatchInfo { weight: 0, class: DispatchClass::Normal, pays_fee: true }
        },
    }
}

} // verus!
