use vstd::prelude::*;
use vstd::multiset::Multiset;
use vstd::utf8::encode_utf8;

use crate::entry::{DirEntryInfo, ReadResult};

verus! {

/// Byte-wise lexicographic order: `a` is not greater than `b`.
pub open spec fn bytes_le(a: Seq<u8>, b: Seq<u8>) -> bool
    decreases a.len(),
{
    if a.len() == 0 {
        true
    } else if b.len() == 0 {
        false
    } else if a[0] != b[0] {
        a[0] < b[0]
    } else {
        bytes_le(a.drop_first(), b.drop_first())
    }
}

/// The class of a read result in the listing order: errors first, then
/// entries with a UTF-8 name, then entries whose name is not UTF-8.
pub open spec fn entry_rank(r: ReadResult) -> int {
    match r {
        Err(_) => 0,
        Ok(e) => match e.name {
            Some(_) => 1,
            None => 2,
        },
    }
}

/// The listing order: by rank, and among named entries by the bytes of
/// their names.
pub open spec fn entry_le(a: ReadResult, b: ReadResult) -> bool {
    if entry_rank(a) != entry_rank(b) {
        entry_rank(a) < entry_rank(b)
    } else {
        match (a, b) {
            (Ok(x), Ok(y)) => match (x.name, y.name) {
                (Some(n), Some(m)) => bytes_le(encode_utf8(n@), encode_utf8(m@)),
                _ => true,
            },
            _ => true,
        }
    }
}

/// Every element is in listing order with every later one.
pub open spec fn sorted_by_entry_le(s: Seq<ReadResult>) -> bool {
    forall|i: int, j: int| 0 <= i < j < s.len() ==> entry_le(#[trigger] s[i], #[trigger] s[j])
}

/// How many leading elements of `s` are not after `x` in the listing order.
pub open spec fn prefix_le(s: Seq<ReadResult>, x: ReadResult) -> nat
    decreases s.len(),
{
    if s.len() == 0 {
        0
    } else if entry_le(s[0], x) {
        1 + prefix_le(s.drop_first(), x)
    } else {
        0
    }
}

/// The listing order applied to `s`, keeping equal elements in their order.
pub open spec fn sorted_seq(s: Seq<ReadResult>) -> Seq<ReadResult>
    decreases s.len(),
{
    if s.len() == 0 {
        s
    } else {
        let t = sorted_seq(s.drop_last());
        t.insert(prefix_le(t, s.last()) as int, s.last())
    }
}

proof fn lemma_bytes_le_total(a: Seq<u8>, b: Seq<u8>)
    ensures
        bytes_le(a, b) || bytes_le(b, a),
    decreases a.len(),
{
    if a.len() > 0 && b.len() > 0 && a[0] == b[0] {
        lemma_bytes_le_total(a.drop_first(), b.drop_first());
    }
}

proof fn lemma_bytes_le_transitive(a: Seq<u8>, b: Seq<u8>, c: Seq<u8>)
    requires
        bytes_le(a, b),
        bytes_le(b, c),
    ensures
        bytes_le(a, c),
    decreases a.len(),
{
    if a.len() > 0 && b.len() > 0 && c.len() > 0 && a[0] == b[0] && b[0] == c[0] {
        lemma_bytes_le_transitive(a.drop_first(), b.drop_first(), c.drop_first());
    }
}

/// Any two read results are comparable in the listing order.
pub proof fn lemma_entry_le_total(a: ReadResult, b: ReadResult)
    ensures
        entry_le(a, b) || entry_le(b, a),
{
    if let (Ok(x), Ok(y)) = (a, b) {
        if let (Some(n), Some(m)) = (x.name, y.name) {
            lemma_bytes_le_total(encode_utf8(n@), encode_utf8(m@));
        }
    }
}

/// The listing order is transitive.
pub proof fn lemma_entry_le_transitive(a: ReadResult, b: ReadResult, c: ReadResult)
    requires
        entry_le(a, b),
        entry_le(b, c),
    ensures
        entry_le(a, c),
{
    if let (Ok(x), Ok(y), Ok(z)) = (a, b, c) {
        if let (Some(n), Some(m), Some(k)) = (x.name, y.name, z.name) {
            lemma_bytes_le_transitive(encode_utf8(n@), encode_utf8(m@), encode_utf8(k@));
        }
    }
}

fn name_le(n: &String, m: &String) -> (r: bool)
    ensures
        r == bytes_le(encode_utf8(n@), encode_utf8(m@)),
{
    let a = n.as_str().as_bytes();
    let b = m.as_str().as_bytes();
    let mut i: usize = 0;
    assert(a@.skip(0) =~= a@);
    assert(b@.skip(0) =~= b@);
    while i < a.len() && i < b.len()
        invariant
            a@ == encode_utf8(n@),
            b@ == encode_utf8(m@),
            i <= a@.len(),
            i <= b@.len(),
            bytes_le(a@, b@) == bytes_le(a@.skip(i as int), b@.skip(i as int)),
        decreases a@.len() - i,
    {
        if a[i] != b[i] {
            return a[i] < b[i];
        }
        assert(a@.skip(i as int).drop_first() =~= a@.skip(i + 1));
        assert(b@.skip(i as int).drop_first() =~= b@.skip(i + 1));
        i = i + 1;
    }
    assert(a@.skip(0) =~= a@);
    assert(b@.skip(0) =~= b@);
    i == a.len()
}

/// Decides the listing order between two read results.
pub fn entry_le_exec(a: &ReadResult, b: &ReadResult) -> (r: bool)
    ensures
        r == entry_le(*a, *b),
{
    match (a, b) {
        (Err(_), _) => true,
        (Ok(_), Err(_)) => false,
        (Ok(x), Ok(y)) => match (&x.name, &y.name) {
            (Some(n), Some(m)) => name_le(n, m),
            (Some(_), None) => true,
            (None, Some(_)) => false,
            (None, None) => true,
        },
    }
}

/// Sorts the results of listing a directory so that the generated code does
/// not depend on the order in which the file system hands entries out: all
/// read errors first, then entries by the bytes of their UTF-8 names, then
/// entries whose names are not UTF-8.
pub fn sort_dir(items: Vec<ReadResult>) -> (r: Vec<ReadResult>)
    ensures
        r@ == sorted_seq(items@),
        r@.to_multiset() == items@.to_multiset(),
        sorted_by_entry_le(r@),
{
    let mut rest = items;
    let mut out: Vec<ReadResult> = Vec::new();
    assert(out@.to_multiset() =~= Multiset::empty()) by {
        vstd::seq_lib::to_multiset_len(out@);
    }
    let ghost n = items@.len();
    assert(items@.take(0) =~= Seq::<ReadResult>::empty());
    assert(items@.skip(0) =~= items@);
    while rest.len() > 0
        invariant
            rest@.len() <= n,
            n == items@.len(),
            rest@ == items@.skip(n - rest@.len()),
            out@ == sorted_seq(items@.take(n - rest@.len())),
            out@.to_multiset().add(rest@.to_multiset()) == items@.to_multiset(),
            sorted_by_entry_le(out@),
        decreases rest@.len(),
    {
        let ghost before = rest@;
        let x = rest.remove(0);
        assert(before.to_multiset() == rest@.to_multiset().insert(x)) by {
            assert(rest@.insert(0, x) =~= before);
            vstd::seq_lib::to_multiset_insert(rest@, 0, x);
        }
        let ghost k = n - rest@.len() - 1;
        assert(before[0] == items@[k]);
        assert(items@.take(k + 1).drop_last() =~= items@.take(k));
        assert(rest@ =~= items@.skip(k + 1));
        let mut p: usize = 0;
        assert(out@.skip(0) =~= out@);
        while p < out.len() && entry_le_exec(&out[p], &x)
            invariant
                p <= out@.len(),
                prefix_le(out@, x) == p + prefix_le(out@.skip(p as int), x),
                forall|k: int| 0 <= k < p ==> entry_le(#[trigger] out@[k], x),
            decreases out@.len() - p,
        {
            assert(out@.skip(p as int).drop_first() =~= out@.skip(p + 1));
            p = p + 1;
        }
        proof {
            if p < out@.len() {
                lemma_entry_le_total(out@[p as int], x);
                assert forall|k: int| p <= k < out@.len() implies entry_le(x, #[trigger] out@[k]) by {
                    if k > p {
                        lemma_entry_le_transitive(x, out@[p as int], out@[k]);
                    }
                }
            }
        }
        let ghost old_out = out@;
        assert(prefix_le(out@, x) == p);
        assert(items@.take(k + 1).last() == x);
        out.insert(p, x);
        proof {
            vstd::seq_lib::to_multiset_insert(old_out, p as int, x);
            broadcast use vstd::multiset::group_multiset_axioms;
            assert(out@.to_multiset().add(rest@.to_multiset()) =~= items@.to_multiset());
        }
        assert(sorted_by_entry_le(out@)) by {
            assert forall|i: int, j: int| 0 <= i < j < out@.len() implies entry_le(#[trigger] out@[i], #[trigger] out@[j]) by {
                if j < p {
                    assert(out@[i] == old_out[i] && out@[j] == old_out[j]);
                } else if j == p {
                    assert(out@[i] == old_out[i]);
                } else if i < p {
                    assert(out@[i] == old_out[i] && out@[j] == old_out[j - 1]);
                    if j - 1 >= p as int {
                        lemma_entry_le_transitive(old_out[i], x, old_out[j - 1]);
                    }
                } else if i == p {
                    assert(out@[j] == old_out[j - 1]);
                } else {
                    assert(out@[i] == old_out[i - 1] && out@[j] == old_out[j - 1]);
                }
            }
        }
    }
    assert(rest@.to_multiset() =~= Multiset::empty()) by {
        vstd::seq_lib::to_multiset_len(rest@);
    }
    out
}

} // verus!
