use vstd::prelude::*;
use vstd::string::StringExecFns;
use crate::call_type::copy_strings;
use crate::table::{ArgSpec, CallTable, MethodSpec, strings_view};

verus! {

/// The canonical spelling that `clean_type_string` gives a type string.
pub uninterp spec fn cleaned_type(s: Seq<char>) -> Seq<char>;

/// Relies on `frame_support_procedural_tools::clean_type_string`, which
/// removes the spaces token printing puts around `::`, `,`, `;` and
/// brackets; its result depends on the input text alone.
#[verifier::external_body]
fn clean_type_string(s: &str) -> (r: String)
    ensures
        r@ == cleaned_type(s@),
{
    frame_support_procedural_tools::clean_type_string(s)
}

/// The type an argument has on the wire: compact arguments are wrapped.
pub open spec fn wire_type(compact: bool, ty: Seq<char>) -> Seq<char> {
    if compact {
        "Compact<"@ + ty + ">"@
    } else {
        ty
    }
}

/// The metadata type string of an argument: its wire type, canonicalized.
pub fn metadata_type_string(compact: bool, ty: &String) -> (r: String)
    ensures
        r@ == cleaned_type(wire_type(compact, ty@)),
{
    if compact {
        let wrapped = String::from_str("Compact<").concat(ty.as_str()).concat(">");
        clean_type_string(wrapped.as_str())
    } else {
        clean_type_string(ty.as_str())
    }
}

/// Metadata of one argument.
pub struct FunctionArgumentMetadata {
    pub name: String,
    pub ty: String,
}

/// Metadata of one method.
pub struct FunctionMetadata {
    pub name: String,
    pub arguments: Vec<FunctionArgumentMetadata>,
    pub documentation: Vec<String>,
}

pub open spec fn arg_described(md: FunctionArgumentMetadata, a: ArgSpec) -> bool {
    md.name@ == a.name@ && md.ty@ == cleaned_type(wire_type(a.compact, a.ty@))
}

/// `md` is the metadata entry of method `m`.
pub open spec fn describes(md: FunctionMetadata, m: MethodSpec) -> bool {
    &&& md.name@ == m.name@
    &&& md.arguments@.len() == m.args@.len()
    &&& forall|j: int| 0 <= j < md.arguments@.len()
        ==> #[trigger] arg_described(md.arguments@[j], m.args@[j])
    &&& strings_view(md.documentation@) == strings_view(m.docs@)
}

fn method_metadata(m: &MethodSpec) -> (r: FunctionMetadata)
    ensures
        describes(r, *m),
{
    let mut arguments: Vec<FunctionArgumentMetadata> = Vec::new();
    let mut j: usize = 0;
    while j < m.args.len()
        invariant
            j <= m.args@.len(),
            arguments@.len() == j,
            forall|k: int| 0 <= k < j ==> #[trigger] arg_described(arguments@[k], m.args@[k]),
        decreases m.args@.len() - j,
    {
        let a = &m.args[j];
        let ty = metadata_type_string(a.compact, &a.ty);
        arguments.push(FunctionArgumentMetadata { name: a.name.clone(), ty });
        j = j + 1;
    }
    FunctionMetadata { name: m.name.clone(), arguments, documentation: copy_strings(&m.docs) }
}

/// The metadata table: entry `i` describes the `i`-th declared method, for
/// every `i`, and there is one entry per method.
pub fn call_functions(table: &CallTable) -> (r: Vec<FunctionMetadata>)
    ensures
        r@.len() == table.methods@.len(),
        forall|i: int| 0 <= i < r@.len() ==> #[trigger] describes(r@[i], table.methods@[i]),
{
    let mut r: Vec<FunctionMetadata> = Vec::new();
    let mut i: usize = 0;
    while i < table.methods.len()
        invariant
            i <= table.methods@.len(),
            r@.len() == i,
            forall|k: int| 0 <= k < i ==> #[trigger] describes(r@[k], table.methods@[k]),
        decreases table.methods@.len() - i,
    {
        r.push(method_metadata(&table.methods[i]));
        i = i + 1;
    }
    r
}

} // verus!
