//! Text ordering and a stable sort by text key, as `slice::sort_by` with
//! `String::cmp` on a key orders elements.
use vstd::prelude::*;

verus! {

/// Lexicographic order of texts by character code point. `String`'s `Ord`
/// compares UTF-8 bytes, and UTF-8 preserves code point order, so this is
/// the order `String::cmp` gives.
pub open spec fn text_lt(a: Seq<char>, b: Seq<char>) -> bool
    decreases a.len(),
{
    if a.len() == 0 {
        b.len() > 0
    } else if b.len() == 0 {
        false
    } else if (a[0] as u32) < (b[0] as u32) {
        true
    } else if a[0] == b[0] {
        text_lt(a.drop_first(), b.drop_first())
    } else {
        false
    }
}

/// Elements that carry a text key to be sorted by.
pub trait Keyed: Sized {
    spec fn key(&self) -> Seq<char>;

    /// The key, as characters.
    fn key_chars(&self) -> (r: Vec<char>)
        ensures
            r@ == self.key(),
    ;

    /// An equal copy of the element.
    fn duplicate(&self) -> (r: Self)
        ensures
            r == *self,
    ;
}

/// Where a stable sort puts `e`, added after the elements of the sorted
/// `t`: after every element whose key is not greater than its own.
pub open spec fn insert_sorted<T: Keyed>(e: T, t: Seq<T>) -> Seq<T>
    decreases t.len(),
{
    if t.len() == 0 || !text_lt(e.key(), t.last().key()) {
        t.push(e)
    } else {
        insert_sorted(e, t.drop_last()).push(t.last())
    }
}

/// The stable sort of `s` by key (what `sort_by(|a, b| a.key.cmp(&b.key))`
/// returns).
pub open spec fn key_sorted<T: Keyed>(s: Seq<T>) -> Seq<T>
    decreases s.len(),
{
    if s.len() == 0 {
        seq![]
    } else {
        insert_sorted(s.last(), key_sorted(s.drop_last()))
    }
}

/// `a < b` in text order.
pub fn text_less(a: &Vec<char>, b: &Vec<char>) -> (r: bool)
    ensures
        r == text_lt(a@, b@),
{
    let mut i: usize = 0;
    assert(a@.skip(0) =~= a@);
    assert(b@.skip(0) =~= b@);
    while i < a.len() && i < b.len() && a[i] == b[i]
        invariant
            i <= a@.len(),
            i <= b@.len(),
            text_lt(a@, b@) == text_lt(a@.skip(i as int), b@.skip(i as int)),
        decreases a@.len() - i,
    {
        proof {
            let sa = a@.skip(i as int);
            let sb = b@.skip(i as int);
            assert(sa.drop_first() =~= a@.skip(i + 1));
            assert(sb.drop_first() =~= b@.skip(i + 1));
            assert(sa[0] == a@[i as int]);
            assert(sb[0] == b@[i as int]);
        }
        i = i + 1;
    }
    proof {
        let sa = a@.skip(i as int);
        let sb = b@.skip(i as int);
        if i < a@.len() {
            assert(sa[0] == a@[i as int]);
        }
        if i < b@.len() {
            assert(sb[0] == b@[i as int]);
        }
    }
    if i == a.len() {
        i < b.len()
    } else if i == b.len() {
        false
    } else {
        (a[i] as u32) < (b[i] as u32)
    }
}

proof fn lemma_insert_at<T: Keyed>(e: T, t: Seq<T>, j: int)
    requires
        0 <= j <= t.len(),
        forall|k: int| j <= k < t.len() ==> text_lt(e.key(), #[trigger] t[k].key()),
        j == 0 || !text_lt(e.key(), t[j - 1].key()),
    ensures
        insert_sorted(e, t) == t.take(j).push(e) + t.skip(j),
    decreases t.len() - j,
{
    if t.len() == j {
        assert(t.take(j) =~= t);
        assert(t.push(e) =~= t.take(j).push(e) + t.skip(j));
    } else {
        assert(text_lt(e.key(), t[t.len() - 1].key()));
        assert forall|k: int| j <= k < t.drop_last().len() implies text_lt(
            e.key(),
            #[trigger] t.drop_last()[k].key(),
        ) by {
            assert(t.drop_last()[k] == t[k]);
        }
        if j > 0 {
            assert(t.drop_last()[j - 1] == t[j - 1]);
        }
        lemma_insert_at(e, t.drop_last(), j);
        assert(t.drop_last().take(j) =~= t.take(j));
        assert((t.take(j).push(e) + t.drop_last().skip(j)).push(t.last()) =~= t.take(j).push(e)
            + t.skip(j));
    }
}

/// Stable sort by key.
pub fn sort_by_key<T: Keyed>(v: &Vec<T>) -> (r: Vec<T>)
    ensures
        r@ == key_sorted(v@),
{
    let mut out: Vec<T> = Vec::new();
    let mut i: usize = 0;
    assert(v@.take(0) =~= Seq::<T>::empty());
    while i < v.len()
        invariant
            i <= v@.len(),
            out@ == key_sorted(v@.take(i as int)),
        decreases v@.len() - i,
    {
        let e = v[i].duplicate();
        let ek = e.key_chars();
        let mut j: usize = out.len();
        while j > 0 && text_less(&ek, &out[j - 1].key_chars())
            invariant
                ek@ == e.key(),
                j <= out@.len(),
                forall|k: int| j <= k < out@.len() ==> text_lt(e.key(), #[trigger] out@[k].key()),
            decreases j,
        {
            j = j - 1;
        }
        proof {
            lemma_insert_at(e, out@, j as int);
            let t = v@.take(i + 1);
            assert(t.drop_last() =~= v@.take(i as int));
            assert(t.last() == e);
        }
        let ghost before = out@;
        out.insert(j, e);
        assert(out@ =~= before.take(j as int).push(e) + before.skip(j as int));
        i = i + 1;
    }
    assert(v@.take(v@.len() as int) =~= v@);
    out
}

} // verus!
