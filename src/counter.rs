use vstd::prelude::*;
use vstd::string::StringExecFns;

verus! {

/// Monotonic counter that hands out one fresh number per compiled module,
/// so that helper names hoisted into a flat namespace never collide.
pub struct Counter(pub u64);

impl Counter {
    /// A counter at its starting value.
    pub fn new() -> (r: Counter)
        ensures
            r.0 == 0,
    {
        Counter(0)
    }

    /// Returns the current value and advances the counter by one.
    pub fn inc(&mut self) -> (r: u64)
        requires
            old(self).0 < u64::MAX,
        ensures
            r == old(self).0,
            final(self).0 == old(self).0 + 1,
    {
        let ret = self.0;
        self.0 = self.0 + 1;
        ret
    }
}

/// The decimal digit `d` (below ten) as a character.
pub open spec fn digit_char(d: nat) -> char {
    if d == 0 { '0' }
    else if d == 1 { '1' }
    else if d == 2 { '2' }
    else if d == 3 { '3' }
    else if d == 4 { '4' }
    else if d == 5 { '5' }
    else if d == 6 { '6' }
    else if d == 7 { '7' }
    else if d == 8 { '8' }
    else { '9' }
}

/// Decimal rendering of `n`, most significant digit first, no leading zeros.
pub open spec fn decimal(n: nat) -> Seq<char>
    decreases n,
{
    if n < 10 {
        seq![digit_char(n)]
    } else {
        decimal(n / 10).push(digit_char(n % 10))
    }
}

/// Name under which the guard of the module numbered `n` is emitted.
pub open spec fn helper_name(n: nat) -> Seq<char> {
    "__is_call_part_defined_"@ + decimal(n)
}

/// Relies on `u64`'s `Display` (through `ToString`): plain decimal digits.
#[verifier::external_body]
fn decimal_string(n: u64) -> (r: String)
    ensures
        r@ == decimal(n as nat),
{
    n.to_string()
}

/// The helper name for module number `n`.
pub fn helper_ident(n: u64) -> (r: String)
    ensures
        r@ == helper_name(n as nat),
{
    let digits = decimal_string(n);
    String::from_str("__is_call_part_defined_").concat(digits.as_str())
}

proof fn lemma_decimal_len(n: nat)
    ensures
        decimal(n).len() >= 1,
        n >= 10 ==> decimal(n).len() >= 2,
    decreases n,
{
    if n >= 10 {
        lemma_decimal_len(n / 10);
    }
}

proof fn lemma_decimal_injective(a: nat, b: nat)
    requires
        decimal(a) == decimal(b),
    ensures
        a == b,
    decreases a,
{
    lemma_decimal_len(a);
    lemma_decimal_len(b);
    if a >= 10 && b >= 10 {
        let da = decimal(a);
        let db = decimal(b);
        assert(da.last() == digit_char(a % 10));
        assert(db.last() == digit_char(b % 10));
        assert(da.drop_last() == decimal(a / 10));
        assert(db.drop_last() == decimal(b / 10));
        lemma_decimal_injective(a / 10, b / 10);
    } else if a < 10 && b < 10 {
        assert(decimal(a)[0] == digit_char(a));
        assert(decimal(b)[0] == digit_char(b));
    }
}

/// Distinct module numbers give distinct helper names: since the counter
/// only grows, no two modules of one compilation unit share a helper name,
/// whether or not they declare any call.
pub proof fn lemma_helper_names_distinct(first: nat, second: nat)
    requires
        first != second,
    ensures
        helper_name(first) != helper_name(second),
{
    let p = "__is_call_part_defined_"@;
    if helper_name(first) == helper_name(second) {
        assert(helper_name(first).subrange(p.len() as int, helper_name(first).len() as int)
            =~= decimal(first));
        assert(helper_name(second).subrange(p.len() as int, helper_name(second).len() as int)
            =~= decimal(second));
        lemma_decimal_injective(first, second);
    }
}

/// What a module's definedness probe expands to.
pub struct DefinednessGuard {
    /// The unique name the probe is emitted under.
    pub helper: String,
    /// The compile error the probe raises, present exactly when the module
    /// never declared a call block (an empty block is still a declaration).
    pub missing_error: Option<String>,
}

/// The diagnostic raised for a module without a call block.
pub open spec fn missing_call_message() -> Seq<char> {
    "Pallet does not have #[pallet::call] defined. Did you forget to include it?"@
}

/// Allocates the next helper number and builds the module's guard.
pub fn definedness_guard(counter: &mut Counter, declared: bool) -> (r: DefinednessGuard)
    requires
        old(counter).0 < u64::MAX,
    ensures
        final(counter).0 == old(counter).0 + 1,
        r.helper@ == helper_name(old(counter).0 as nat),
        declared ==> r.missing_error.is_none(),
        !declared ==> (r.missing_error matches Some(m) && m@ == missing_call_message()),
{
    let count = counter.inc();
    let helper = helper_ident(count);
    let missing_error = if declared {
        None
    } else {
        Some(String::from_str(
            "Pallet does not have #[pallet::call] defined. Did you forget to include it?",
        ))
    };
    DefinednessGuard { helper, missing_error }
}

} // verus!
