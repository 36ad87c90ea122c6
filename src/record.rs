use vstd::prelude::*;

verus! {

/// The byte that ends a record.
pub const TERMINATOR: u8 = 10;

/// Index of the first terminator in `s`, or `s.len()` when there is none.
pub open spec fn first_terminator(s: Seq<u8>) -> nat
    decreases s.len(),
{
    if s.len() == 0 {
        0
    } else if s[0] == TERMINATOR {
        0
    } else {
        1 + first_terminator(s.drop_first())
    }
}

/// The complete records of `s`, in order, each without its terminator.
/// Bytes after the last terminator form no record yet.
pub open spec fn records(s: Seq<u8>) -> Seq<Seq<u8>>
    decreases s.len(),
{
    let i = first_terminator(s) as int;
    if i >= s.len() {
        seq![]
    } else {
        seq![s.subrange(0, i)] + records(s.subrange(i + 1, s.len() as int))
    }
}

/// `p` is the start of a record of `s`: the very start, or just past a terminator.
pub open spec fn is_boundary(s: Seq<u8>, p: int) -> bool {
    p == 0 || (0 < p <= s.len() && s[p - 1] == TERMINATOR)
}

/// `s` holds a terminator.
pub open spec fn has_terminator(s: Seq<u8>) -> bool {
    exists|j: int| 0 <= j < s.len() && s[j] == TERMINATOR
}

/// `first_terminator` is the one index before which no terminator stands and
/// at which one stands, or the end.
pub proof fn lemma_first_terminator(s: Seq<u8>, k: int)
    requires
        0 <= k <= s.len(),
        forall|j: int| 0 <= j < k ==> s[j] != TERMINATOR,
        k == s.len() || s[k] == TERMINATOR,
    ensures
        first_terminator(s) == k,
    decreases s.len(),
{
    if s.len() > 0 && s[0] != TERMINATOR {
        let t = s.drop_first();
        assert forall|j: int| 0 <= j < k - 1 implies t[j] != TERMINATOR by {
            assert(s[j + 1] != TERMINATOR);
        }
        lemma_first_terminator(t, k - 1);
    }
}

/// The first terminator, when there is one, stands at `first_terminator`.
pub proof fn lemma_first_terminator_props(s: Seq<u8>)
    ensures
        first_terminator(s) <= s.len(),
        forall|j: int| 0 <= j < first_terminator(s) ==> s[j] != TERMINATOR,
        first_terminator(s) < s.len() ==> s[first_terminator(s) as int] == TERMINATOR,
        has_terminator(s) <==> first_terminator(s) < s.len(),
    decreases s.len(),
{
    if s.len() > 0 && s[0] != TERMINATOR {
        let t = s.drop_first();
        lemma_first_terminator_props(t);
        assert forall|j: int| 0 <= j < first_terminator(s) implies s[j] != TERMINATOR by {
            if j > 0 {
                assert(s[j] == t[j - 1]);
            }
        }
        if has_terminator(s) {
            let j = choose|j: int| 0 <= j < s.len() && s[j] == TERMINATOR;
            assert(t[j - 1] == TERMINATOR);
        }
        if has_terminator(t) {
            let j = choose|j: int| 0 <= j < t.len() && t[j] == TERMINATOR;
            assert(s[j + 1] == TERMINATOR);
        }
    } else if s.len() > 0 {
        assert(s[0] == TERMINATOR);
    }
}

/// Reading resumed at a record boundary `p` yields exactly the records that
/// a full read yields after those that end before `p`: no record is lost,
/// repeated or split.
pub proof fn lemma_resume_complement(s: Seq<u8>, p: int)
    requires
        is_boundary(s, p),
    ensures
        records(s) == records(s.subrange(0, p)) + records(s.subrange(p, s.len() as int)),
    decreases s.len(),
{
    if p == 0 {
        assert(records(s.subrange(0, 0)) == Seq::<Seq<u8>>::empty()) by {
            reveal_with_fuel(records, 1);
        }
        assert(s.subrange(0, s.len() as int) == s);
        assert(records(s.subrange(0, p)) + records(s) == records(s));
    } else {
        lemma_first_terminator_props(s);
        let i = first_terminator(s) as int;
        assert(i <= p - 1) by {
            if i > p - 1 {
                assert(s[p - 1] != TERMINATOR);
            }
        }
        let pre = s.subrange(0, p);
        lemma_first_terminator(pre, i);
        let rest = s.subrange(i + 1, s.len() as int);
        let q = p - (i + 1);
        assert(is_boundary(rest, q)) by {
            if q > 0 {
                assert(rest[q - 1] == s[p - 1]);
            }
        }
        lemma_resume_complement(rest, q);
        assert(pre.subrange(0, i) == s.subrange(0, i));
        assert(pre.subrange(i + 1, pre.len() as int) == rest.subrange(0, q));
        assert(rest.subrange(q, rest.len() as int) == s.subrange(p, s.len() as int));
        assert(records(s) == seq![s.subrange(0, i)] + records(rest));
        assert(records(pre) == seq![s.subrange(0, i)] + records(rest.subrange(0, q)));
        assert(records(s) == records(pre) + records(s.subrange(p, s.len() as int)));
    }
}

/// The lines `rs`, each followed by a terminator, one after another.
pub open spec fn joined(rs: Seq<Seq<u8>>) -> Seq<u8>
    decreases rs.len(),
{
    if rs.len() == 0 {
        seq![]
    } else {
        rs[0] + seq![TERMINATOR] + joined(rs.drop_first())
    }
}

/// Reading terminated lines gives back exactly those lines, in their order:
/// none is reordered, repeated or left out.
pub proof fn lemma_records_of_joined(rs: Seq<Seq<u8>>)
    requires
        forall|k: int| 0 <= k < rs.len() ==> !has_terminator(#[trigger] rs[k]),
    ensures
        records(joined(rs)) == rs,
    decreases rs.len(),
{
    if rs.len() == 0 {
        assert(records(joined(rs)) =~= rs) by {
            reveal_with_fuel(records, 1);
        }
    } else {
        let s = joined(rs);
        let r0 = rs[0];
        let tail = rs.drop_first();
        assert(!has_terminator(r0));
        assert forall|k: int| 0 <= k < tail.len() implies !has_terminator(#[trigger] tail[k]) by {
            assert(tail[k] == rs[k + 1]);
        }
        lemma_records_of_joined(tail);
        assert forall|j: int| 0 <= j < r0.len() implies s[j] != TERMINATOR by {
            assert(s[j] == r0[j]);
        }
        assert(s[r0.len() as int] == TERMINATOR);
        lemma_first_terminator(s, r0.len() as int);
        assert(s.subrange(0, r0.len() as int) =~= r0);
        assert(s.subrange(r0.len() + 1 as int, s.len() as int) =~= joined(tail));
        assert(records(s) == seq![r0] + records(joined(tail)));
        assert(records(s) =~= rs);
    }
}

/// The index of the first terminator in `data` at or after `from`, or
/// `data.len()` when there is none.
pub fn find_terminator(data: &[u8], from: usize) -> (r: usize)
    requires
        from <= data@.len(),
    ensures
        r == from + first_terminator(data@.subrange(from as int, data@.len() as int)),
{
    let mut i: usize = from;
    while i < data.len()
        invariant
            from <= i <= data@.len(),
            forall|j: int| from <= j < i ==> data@[j] != TERMINATOR,
        ensures
            from <= i <= data@.len(),
            forall|j: int| from <= j < i ==> data@[j] != TERMINATOR,
            i == data@.len() || data@[i as int] == TERMINATOR,
        decreases data@.len() - i,
    {
        if data[i] == TERMINATOR {
            break;
        }
        i = i + 1;
    }
    proof {
        let t = data@.subrange(from as int, data@.len() as int);
        assert forall|j: int| 0 <= j < i - from implies t[j] != TERMINATOR by {
            assert(t[j] == data@[from + j]);
        }
        if i < data@.len() {
            assert(t[i - from] == data@[i as int]);
        }
        lemma_first_terminator(t, i - from);
    }
    i
}

} // verus!
