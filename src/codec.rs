use vstd::prelude::*;
use vstd::arithmetic::power::pow;
use crate::dispatch::{CallValue, call_args, call_index, valid_call};
use crate::table::{CallTable, MethodSpec};

verus! {

/// The SCALE compact encoding of a `u64`.
pub uninterp spec fn compact_bytes(v: u64) -> Seq<u8>;

/// The fixed-width SCALE encoding of a `u64`: eight bytes, little endian.
pub open spec fn le_bytes(v: u64) -> Seq<u8> {
    Seq::new(8, |i: int| ((v as int / pow(256, i as nat)) % 256) as u8)
}

/// Relies on `Encode` for `parity_scale_codec::Compact<u64>`: the compact
/// form takes one to nine bytes.
#[verifier::external_body]
fn encode_compact(v: u64) -> (r: Vec<u8>)
    ensures
        r@ == compact_bytes(v),
        1 <= r@.len() <= 9,
{
    parity_scale_codec::Encode::encode(&parity_scale_codec::Compact(v))
}

/// Relies on `Decode` for `parity_scale_codec::Compact<u64>`: reading from
/// `pos`, it reads back exactly what `Encode` wrote and leaves what follows.
/// Returns the value and the number of bytes left after it.
#[verifier::external_body]
fn decode_compact(b: &[u8], pos: usize) -> (r: Option<(u64, usize)>)
    requires
        pos <= b@.len(),
    ensures
        forall|v: u64, tail: Seq<u8>|
            b@.subrange(pos as int, b@.len() as int) == #[trigger] (compact_bytes(v) + tail)
            ==> r == Some((v, tail.len() as usize)),
        r matches Some((_, rest)) ==> rest <= b@.len() - pos,
{
    let mut input = &b[pos..];
    let decoded = <parity_scale_codec::Compact<u64> as parity_scale_codec::Decode>::decode(&mut input);
    decoded.ok().map(|c| (c.0, input.len()))
}

/// Relies on `Encode` for `u64` in `parity_scale_codec`: little endian.
#[verifier::external_body]
fn encode_fixed(v: u64) -> (r: Vec<u8>)
    ensures
        r@ == le_bytes(v),
{
    parity_scale_codec::Encode::encode(&v)
}

/// Relies on `Decode` for `u64` in `parity_scale_codec`: reads eight bytes
/// little endian from `pos`. Returns the value and the bytes left after it.
#[verifier::external_body]
fn decode_fixed(b: &[u8], pos: usize) -> (r: Option<(u64, usize)>)
    requires
        pos <= b@.len(),
    ensures
        forall|v: u64, tail: Seq<u8>|
            b@.subrange(pos as int, b@.len() as int) == #[trigger] (le_bytes(v) + tail)
            ==> r == Some((v, tail.len() as usize)),
        r matches Some((_, rest)) ==> rest <= b@.len() - pos,
{
    let mut input = &b[pos..];
    let decoded = <u64 as parity_scale_codec::Decode>::decode(&mut input);
    decoded.ok().map(|v| (v, input.len()))
}

/// Encoding of one field under its compact hint.
pub open spec fn field_bytes(compact: bool, v: u64) -> Seq<u8> {
    if compact { compact_bytes(v) } else { le_bytes(v) }
}

/// Encoding of the first `k` fields of a variant, in declared order.
pub open spec fn fields_bytes(m: MethodSpec, args: Seq<u64>, k: nat) -> Seq<u8>
    decreases k,
{
    if k == 0 {
        Seq::empty()
    } else {
        fields_bytes(m, args, (k - 1) as nat) + field_bytes(m.args@[k - 1].compact, args[k - 1])
    }
}

/// Wire form of a real call value: the variant index byte, then each field.
pub open spec fn call_bytes(t: CallTable, c: CallValue) -> Seq<u8> {
    let m = t.methods@[call_index(c)];
    seq![call_index(c) as u8] + fields_bytes(m, call_args(c), m.args@.len())
}

/// Encodes a call value.
pub fn encode_call(table: &CallTable, call: &CallValue) -> (r: Vec<u8>)
    requires
        valid_call(*table, *call),
        table.methods@.len() <= 256,
    ensures
        r@ == call_bytes(*table, *call),
{
    match call {
        CallValue::Invoke { index, args } => {
            let m = &table.methods[*index];
            let mut out: Vec<u8> = Vec::new();
            out.push(*index as u8);
            let mut k: usize = 0;
            while k < m.args.len()
                invariant
                    k <= m.args@.len(),
                    args@.len() == m.args@.len(),
                    out@ == seq![*index as u8] + fields_bytes(*m, args@, k as nat),
                decreases m.args@.len() - k,
            {
                let mut field = if m.args[k].compact {
                    encode_compact(args[k])
                } else {
                    encode_fixed(args[k])
                };
                out.append(&mut field);
                proof {
                    assert(fields_bytes(*m, args@, (k + 1) as nat)
                        == fields_bytes(*m, args@, k as nat) + field_bytes(m.args@[k as int].compact, args@[k as int]));
                }
                k = k + 1;
                assert(out@ =~= seq![*index as u8] + fields_bytes(*m, args@, k as nat));
            }
            out
        },
        CallValue::Ignore => {
            proof {
                assert(false);
            }
            Vec::new()
        },
    }
}

proof fn lemma_fields_prefix(m: MethodSpec, args: Seq<u64>, k: nat, n: nat)
    requires
        k <= n,
    ensures
        fields_bytes(m, args, n).len() >= fields_bytes(m, args, k).len(),
        fields_bytes(m, args, n).subrange(0, fields_bytes(m, args, k).len() as int)
            == fields_bytes(m, args, k),
    decreases n,
{
    if k < n {
        lemma_fields_prefix(m, args, k, (n - 1) as nat);
        let a = fields_bytes(m, args, (n - 1) as nat);
        let b = fields_bytes(m, args, n);
        let p = fields_bytes(m, args, k);
        assert(b == a + field_bytes(m.args@[n - 1].compact, args[n - 1]));
        assert(b.subrange(0, p.len() as int) =~= a.subrange(0, p.len() as int));
    } else {
        assert(fields_bytes(m, args, n).subrange(0, fields_bytes(m, args, k).len() as int)
            =~= fields_bytes(m, args, k));
    }
}

/// `b` is the wire form of the real variant `idx` of `t` with arguments `full`.
pub open spec fn encodes(t: CallTable, idx: int, full: Seq<u64>, b: Seq<u8>) -> bool {
    &&& 0 <= idx < t.methods@.len()
    &&& full.len() == t.methods@[idx].args@.len()
    &&& b == seq![idx as u8] + fields_bytes(t.methods@[idx], full, full.len())
}

proof fn lemma_call_encodes(t: CallTable, c: CallValue, b: Seq<u8>)
    requires
        t.methods@.len() <= 256,
        valid_call(t, c),
        b == call_bytes(t, c),
    ensures
        encodes(t, call_index(c), call_args(c), b),
        b.len() >= 1,
        b[0] as int == call_index(c),
{
}

proof fn lemma_field_at(t: CallTable, idx: int, full: Seq<u64>, b: Seq<u8>, k: nat, pos: int)
    requires
        encodes(t, idx, full, b),
        k < full.len(),
        pos == 1 + fields_bytes(t.methods@[idx], full, k).len(),
    ensures
        ({
            let fb = field_bytes(t.methods@[idx].args@[k as int].compact, full[k as int]);
            &&& pos + fb.len() <= b.len()
            &&& b.subrange(pos, b.len() as int) == fb + b.subrange(pos + fb.len(), b.len() as int)
            &&& 1 + fields_bytes(t.methods@[idx], full, k + 1).len() == pos + fb.len()
        }),
{
    let m = t.methods@[idx];
    let n = full.len();
    let fb = field_bytes(m.args@[k as int].compact, full[k as int]);
    lemma_fields_prefix(m, full, k + 1, n);
    let f1 = fields_bytes(m, full, k + 1);
    let fall = fields_bytes(m, full, n);
    assert(f1 == fields_bytes(m, full, k) + fb);
    assert(fall.subrange(0, f1.len() as int) == f1);
    assert forall|j: int| 0 <= j < fb.len() implies b[pos + j] == fb[j] by {
        assert(b[pos + j] == fall[pos - 1 + j]);
        assert(fall[pos - 1 + j] == f1[pos - 1 + j]);
    }
    assert(b.subrange(pos, b.len() as int) =~= fb + b.subrange(pos + fb.len(), b.len() as int));
}

/// Decodes a call value. Decoding the encoding of any real call value
/// gives back that value, compact fields included.
pub fn decode_call(table: &CallTable, bytes: &Vec<u8>) -> (r: Option<CallValue>)
    requires
        table.methods@.len() <= 256,
    ensures
        forall|c: CallValue| #[trigger] valid_call(*table, c) && bytes@ == call_bytes(*table, c)
            ==> (r matches Some(d) && call_index(d) == call_index(c) && call_args(d) == call_args(c)),
        r matches Some(d) ==> valid_call(*table, d),
{
    if bytes.len() == 0 {
        proof {
            assert forall|c: CallValue| #[trigger] valid_call(*table, c) && bytes@ == call_bytes(*table, c)
                implies false by {
                lemma_call_encodes(*table, c, bytes@);
            }
        }
        return None;
    }
    let idx = bytes[0] as usize;
    if idx >= table.methods.len() {
        proof {
            assert forall|c: CallValue| #[trigger] valid_call(*table, c) && bytes@ == call_bytes(*table, c)
                implies false by {
                lemma_call_encodes(*table, c, bytes@);
            }
        }
        return None;
    }
    let m = &table.methods[idx];
    let n = m.args.len();
    let mut out: Vec<u64> = Vec::new();
    let mut pos: usize = 1;
    let mut k: usize = 0;
    while k < n
        invariant
            k <= n,
            n == m.args@.len(),
            idx < table.methods@.len(),
            table.methods@.len() <= 256,
            bytes@.len() >= 1,
            bytes@[0] as usize == idx,
            *m == table.methods@[idx as int],
            1 <= pos <= bytes@.len(),
            out@.len() == k,
            forall|full: Seq<u64>| #[trigger] encodes(*table, idx as int, full, bytes@)
                ==> out@ == full.subrange(0, k as int)
                    && pos == 1 + fields_bytes(*m, full, k as nat).len(),
        decreases n - k,
    {
        let compact = m.args[k].compact;
        let step = if compact {
            decode_compact(bytes.as_slice(), pos)
        } else {
            decode_fixed(bytes.as_slice(), pos)
        };
        let ghost b = bytes@;
        proof {
            assert forall|full: Seq<u64>| #[trigger] encodes(*table, idx as int, full, b) implies ({
                let fb = field_bytes(compact, full[k as int]);
                step == Some((full[k as int], (b.len() - pos - fb.len()) as usize))
                    && 1 + fields_bytes(*m, full, (k + 1) as nat).len() == pos + fb.len()
            }) by {
                lemma_field_at(*table, idx as int, full, b, k as nat, pos as int);
                let fb = field_bytes(compact, full[k as int]);
                let rest = b.subrange(pos + fb.len(), b.len() as int);
                if compact {
                    assert(b.subrange(pos as int, b.len() as int) == compact_bytes(full[k as int]) + rest);
                } else {
                    assert(b.subrange(pos as int, b.len() as int) == le_bytes(full[k as int]) + rest);
                }
            }
        }
        match step {
            None => {
                proof {
                    assert forall|c: CallValue| #[trigger] valid_call(*table, c) && bytes@ == call_bytes(*table, c)
                        implies false by {
                        lemma_call_encodes(*table, c, bytes@);
                        assert(encodes(*table, idx as int, call_args(c), b));
                    }
                }
                return None;
            },
            Some((v, rest)) => {
                let ghost old_out = out@;
                let ghost old_pos = pos;
                out.push(v);
                pos = bytes.len() - rest;
                proof {
                    assert forall|full: Seq<u64>| #[trigger] encodes(*table, idx as int, full, bytes@) implies
                        out@ == full.subrange(0, k + 1) && pos == 1 + fields_bytes(*m, full, (k + 1) as nat).len() by {
                        assert(encodes(*table, idx as int, full, b));
                        lemma_field_at(*table, idx as int, full, b, k as nat, old_pos as int);
                        let fb = field_bytes(compact, full[k as int]);
                        assert(step == Some((full[k as int], (b.len() - old_pos - fb.len()) as usize)));
                        assert(1 + fields_bytes(*m, full, (k + 1) as nat).len() == old_pos + fb.len());
                        assert(v == full[k as int]);
                        assert(rest == b.len() - old_pos - fb.len());
                        assert(old_out == full.subrange(0, k as int));
                        assert(out@ =~= full.subrange(0, k + 1));
                    }
                }
                k = k + 1;
            },
        }
    }
    proof {
        assert forall|c: CallValue| #[trigger] valid_call(*table, c) && bytes@ == call_bytes(*table, c)
            implies out@ == call_args(c) && idx as int == call_index(c) by {
            lemma_call_encodes(*table, c, bytes@);
            assert(encodes(*table, idx as int, call_args(c), bytes@));
            assert(out@ =~= call_args(c).subrange(0, n as int));
        }
    }
    Some(CallValue::Invoke { index: idx, args: out })
}

} // verus!
