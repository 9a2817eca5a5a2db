use pallet_call::call_type::VariantDef;
use pallet_call::codec::{decode_call, encode_call};
use pallet_call::counter::{definedness_guard, helper_ident, Counter};
use pallet_call::dispatch::{
    dispatch_bypass_filter, dispatch_outcome, get_dispatch_info, CallValue, DispatchInfo,
    PostDispatchInfo,
};
use pallet_call::expand::expand_call;
use pallet_call::metadata::{call_functions, metadata_type_string};
use pallet_call::table::{
    normalize, ArgSpec, CallBlock, CallTable, DispatchClass, MethodSpec, WeightExpr,
};

fn arg(compact: bool, name: &str, ty: &str) -> ArgSpec {
    ArgSpec { compact, name: name.to_string(), ty: ty.to_string() }
}

fn fixed(weight: u64, class: DispatchClass, pays_fee: bool) -> WeightExpr {
    WeightExpr::Fixed { weight, class, pays_fee }
}

fn method(name: &str, args: Vec<ArgSpec>, weight: WeightExpr, docs: &[&str]) -> MethodSpec {
    MethodSpec {
        name: name.to_string(),
        args,
        weight,
        docs: docs.iter().map(|d| d.to_string()).collect(),
    }
}

fn set_value_block() -> CallBlock {
    CallBlock {
        methods: vec![method(
            "set_value",
            vec![arg(false, "new", "u32")],
            fixed(10, DispatchClass::Normal, true),
            &[" Sets the value."],
        )],
        docs: vec![],
    }
}

fn table_of(methods: Vec<MethodSpec>) -> CallTable {
    normalize(Some(CallBlock { methods, docs: vec![] }))
}

fn invoke(index: usize, args: Vec<u64>) -> CallValue {
    CallValue::Invoke { index, args }
}

fn args_of(c: &CallValue) -> (usize, Vec<u64>) {
    match c {
        CallValue::Invoke { index, args } => (*index, args.clone()),
        CallValue::Ignore => panic!("sentinel decoded"),
    }
}

#[test]
fn counter_inc_returns_previous_value() {
    let mut c = Counter::new();
    assert_eq!(c.inc(), 0);
    assert_eq!(c.inc(), 1);
    assert_eq!(c.0, 2);
    let mut big = Counter(u64::MAX - 1);
    assert_eq!(big.inc(), u64::MAX - 1);
    assert_eq!(big.0, u64::MAX);
}

#[test]
fn helper_ident_spells_number_in_decimal() {
    assert_eq!(helper_ident(0), "__is_call_part_defined_0");
    assert_eq!(helper_ident(42), "__is_call_part_defined_42");
    assert_eq!(helper_ident(u64::MAX), "__is_call_part_defined_18446744073709551615");
}

#[test]
fn two_modules_get_distinct_helpers_even_when_empty() {
    let mut counter = Counter::new();
    let first = expand_call(&mut counter, Some(CallBlock { methods: vec![], docs: vec![] }));
    let second = expand_call(&mut counter, Some(CallBlock { methods: vec![], docs: vec![] }));
    assert_eq!(first.guard.helper, "__is_call_part_defined_0");
    assert_eq!(second.guard.helper, "__is_call_part_defined_1");
    assert_ne!(first.guard.helper, second.guard.helper);
    assert_eq!(counter.0, 2);
}

#[test]
fn scenario_set_value_dispatch_and_classify() {
    let mut counter = Counter::new();
    let exp = expand_call(&mut counter, Some(set_value_block()));
    let inv = dispatch_bypass_filter(&exp.table, invoke(0, vec![7]), "root");
    assert_eq!(inv.method, "set_value");
    assert_eq!(inv.origin, "root");
    assert_eq!(inv.args, vec![7]);
    let info = get_dispatch_info(&exp.table, &invoke(0, vec![7]));
    assert_eq!(info, DispatchInfo { weight: 10, class: DispatchClass::Normal, pays_fee: true });
}

#[test]
fn dispatch_outcome_keeps_shape() {
    assert_eq!(dispatch_outcome(Ok(None)).ok(), Some(PostDispatchInfo { actual_weight: None }));
    assert_eq!(dispatch_outcome(Ok(Some(3))).ok(), Some(PostDispatchInfo { actual_weight: Some(3) }));
    match dispatch_outcome(Err("BadOrigin".to_string())) {
        Err(e) => assert_eq!(e.message, "BadOrigin"),
        Ok(_) => panic!("error lost"),
    }
}

#[test]
fn scenario_empty_block_has_only_sentinel() {
    let mut counter = Counter::new();
    let exp = expand_call(&mut counter, Some(CallBlock { methods: vec![], docs: vec![] }));
    assert_eq!(exp.call_type.variants.len(), 1);
    assert!(matches!(exp.call_type.variants[0], VariantDef::Sentinel));
    assert!(exp.metadata.is_empty());
    assert!(exp.guard.missing_error.is_none());
}

#[test]
fn scenario_missing_block_is_reported_by_guard() {
    let mut counter = Counter::new();
    let exp = expand_call(&mut counter, None);
    assert!(!exp.table.declared);
    assert_eq!(exp.call_type.variants.len(), 1);
    assert_eq!(
        exp.guard.missing_error.as_deref(),
        Some("Pallet does not have #[pallet::call] defined. Did you forget to include it?")
    );
    let mut c2 = Counter(5);
    let g = definedness_guard(&mut c2, true);
    assert!(g.missing_error.is_none());
    assert_eq!(g.helper, "__is_call_part_defined_5");
}

#[test]
fn call_type_has_one_variant_per_method_plus_sentinel() {
    let t = table_of(vec![
        method("a", vec![], fixed(1, DispatchClass::Normal, true), &[]),
        method("b", vec![arg(true, "x", "u64"), arg(false, "y", "u8")], fixed(2, DispatchClass::Operational, false), &["doc b"]),
        method("c", vec![], fixed(3, DispatchClass::Mandatory, true), &[]),
    ]);
    let def = pallet_call::call_type::synthesize_call_type(&t);
    assert_eq!(def.variants.len(), 4);
    assert!(matches!(def.variants[0], VariantDef::Sentinel));
    match &def.variants[2] {
        VariantDef::Real { tag, fields, docs } => {
            assert_eq!(tag, "b");
            assert_eq!(fields.len(), 2);
            assert!(fields[0].compact);
            assert_eq!(fields[0].ty, "u64");
            assert!(!fields[1].compact);
            assert_eq!(docs, &vec!["doc b".to_string()]);
        }
        VariantDef::Sentinel => panic!("expected a real variant"),
    }
}

#[test]
fn normalize_supplies_default_docs() {
    let t = normalize(Some(set_value_block()));
    assert!(t.declared);
    assert_eq!(t.docs, vec!["Contains one variant per dispatchable that can be called by an extrinsic.".to_string()]);
    let t2 = normalize(Some(CallBlock { methods: vec![], docs: vec!["Mine.".to_string()] }));
    assert_eq!(t2.docs, vec!["Mine.".to_string()]);
    let t3 = normalize(None);
    assert!(!t3.declared);
    assert!(t3.methods.is_empty());
}

#[test]
fn scenario_compact_argument_metadata() {
    let t = table_of(vec![method("transfer", vec![arg(true, "amount", "u64")], fixed(1, DispatchClass::Normal, true), &[])]);
    let md = call_functions(&t);
    assert_eq!(md.len(), 1);
    assert_eq!(md[0].arguments[0].name, "amount");
    assert_eq!(md[0].arguments[0].ty, "Compact<u64>");
    assert_ne!(md[0].arguments[0].ty, "u64");
}

#[test]
fn metadata_type_string_canonicalizes_spacing() {
    assert_eq!(metadata_type_string(false, &"Vec < u8 >".to_string()), "Vec<u8>");
    assert_eq!(metadata_type_string(false, &"T :: Balance".to_string()), "T::Balance");
    assert_eq!(metadata_type_string(true, &"T :: Balance".to_string()), "Compact<T::Balance>");
    assert_eq!(metadata_type_string(false, &"(u8 , bool)".to_string()), "(u8, bool)");
}

#[test]
fn canonical_type_strings_are_left_alone() {
    for s in ["Compact<u64>", "Vec<u8>", "T::AccountId", "(u8, bool)"] {
        let once = metadata_type_string(false, &s.to_string());
        assert_eq!(once, s);
        assert_eq!(metadata_type_string(false, &once), once);
    }
}

#[test]
fn metadata_follows_declaration_order() {
    let t = table_of(vec![
        method("first", vec![arg(false, "a", "u8")], fixed(1, DispatchClass::Normal, true), &["one"]),
        method("second", vec![], fixed(1, DispatchClass::Normal, true), &[]),
        method("third", vec![arg(false, "b", "bool"), arg(true, "c", "u32")], fixed(1, DispatchClass::Normal, true), &["three", "lines"]),
    ]);
    let md = call_functions(&t);
    let names: Vec<&str> = md.iter().map(|m| m.name.as_str()).collect();
    assert_eq!(names, vec!["first", "second", "third"]);
    assert_eq!(md[2].arguments[1].ty, "Compact<u32>");
    assert_eq!(md[2].documentation, vec!["three".to_string(), "lines".to_string()]);
    assert!(md[1].arguments.is_empty());
}

#[test]
fn per_argument_weight_is_evaluated_and_saturates() {
    let w = WeightExpr::PerArgument { base: 5, per_unit: 2, arg: 1, class: DispatchClass::Operational, pays_fee: false };
    let t = table_of(vec![method("m", vec![arg(false, "a", "u64"), arg(true, "n", "u64")], w, &[])]);
    let info = get_dispatch_info(&t, &invoke(0, vec![99, 10]));
    assert_eq!(info, DispatchInfo { weight: 25, class: DispatchClass::Operational, pays_fee: false });
    let info = get_dispatch_info(&t, &invoke(0, vec![0, u64::MAX]));
    assert_eq!(info.weight, u64::MAX);
}

#[test]
fn encoding_has_index_byte_and_scale_fields() {
    let t = table_of(vec![
        method("a", vec![arg(false, "x", "u64")], fixed(1, DispatchClass::Normal, true), &[]),
        method("b", vec![arg(true, "x", "u64")], fixed(1, DispatchClass::Normal, true), &[]),
    ]);
    assert_eq!(encode_call(&t, &invoke(0, vec![7])), vec![0, 7, 0, 0, 0, 0, 0, 0, 0]);
    assert_eq!(encode_call(&t, &invoke(1, vec![7])), vec![1, 28]);
    assert_eq!(encode_call(&t, &invoke(1, vec![1 << 30])), vec![1, 3, 0, 0, 0, 64]);
}

#[test]
fn encoding_round_trips() {
    let t = table_of(vec![
        method("none", vec![], fixed(1, DispatchClass::Normal, true), &[]),
        method("mixed", vec![arg(true, "a", "u64"), arg(false, "b", "u64"), arg(true, "c", "u64")], fixed(1, DispatchClass::Normal, true), &[]),
    ]);
    let values = [0u64, 1, 63, 64, 16383, 16384, (1 << 30) - 1, 1 << 30, u64::MAX];
    for &a in values.iter() {
        for &c in values.iter() {
            let call = invoke(1, vec![a, 12345, c]);
            let bytes = encode_call(&t, &call);
            let back = decode_call(&t, &bytes).expect("decodes");
            assert_eq!(args_of(&back), (1, vec![a, 12345, c]));
        }
    }
    let bytes = encode_call(&t, &invoke(0, vec![]));
    assert_eq!(bytes, vec![0]);
    assert_eq!(args_of(&decode_call(&t, &bytes).unwrap()), (0, vec![]));
}

#[test]
fn decoding_rejects_bad_input() {
    let t = table_of(vec![method("a", vec![arg(false, "x", "u64")], fixed(1, DispatchClass::Normal, true), &[])]);
    assert!(decode_call(&t, &vec![]).is_none());
    assert!(decode_call(&t, &vec![1, 0, 0, 0, 0, 0, 0, 0, 0]).is_none());
    assert!(decode_call(&t, &vec![0, 1, 2, 3]).is_none());
}

#[test]
fn call_names_follow_declaration_order() {
    let t = table_of(vec![
        method("alpha", vec![], fixed(1, DispatchClass::Normal, true), &[]),
        method("beta", vec![arg(false, "x", "u64")], fixed(1, DispatchClass::Normal, true), &[]),
    ]);
    assert_eq!(
        pallet_call::dispatch::get_call_names(&t),
        vec!["alpha".to_string(), "beta".to_string()]
    );
    assert_eq!(pallet_call::dispatch::get_call_name(&t, &invoke(1, vec![3])), "beta");
}
