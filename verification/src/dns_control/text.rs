use vstd::prelude::*;

verus! {

/// The texts held by a sequence of strings.
pub open spec fn texts(strings: Seq<String>) -> Seq<Seq<char>> {
    strings.map_values(|s: String| s@)
}

/// `parts` written one after another with `sep` between each two of them.
pub open spec fn join(parts: Seq<Seq<char>>, sep: Seq<char>) -> Seq<char>
    decreases parts.len(),
{
    if parts.len() == 0 {
        Seq::empty()
    } else if parts.len() == 1 {
        parts[0]
    } else {
        join(parts.drop_last(), sep) + sep + parts.last()
    }
}

/// The position of the last `sep` in `s`, or `-1` when there is none.
pub open spec fn last_index_of(s: Seq<char>, sep: char) -> int
    decreases s.len(),
{
    if s.len() == 0 {
        -1
    } else if s.last() == sep {
        s.len() - 1
    } else {
        last_index_of(s.drop_last(), sep)
    }
}

/// The pieces of `s` between the occurrences of `sep`.
pub open spec fn split(s: Seq<char>, sep: char) -> Seq<Seq<char>>
    decreases s.len(),
{
    let k = last_index_of(s, sep);
    if 0 <= k < s.len() {
        split(s.take(k), sep).push(s.skip(k + 1))
    } else {
        seq![s]
    }
}

proof fn lemma_last_index_of_bounds(s: Seq<char>, sep: char)
    ensures
        -1 <= last_index_of(s, sep) < s.len(),
        last_index_of(s, sep) == -1 <==> !s.contains(sep),
        0 <= last_index_of(s, sep) ==> s[last_index_of(s, sep)] == sep,
    decreases s.len(),
{
    if s.len() > 0 {
        lemma_last_index_of_bounds(s.drop_last(), sep);
        if s.last() != sep {
            if s.contains(sep) {
                let i = choose|i: int| 0 <= i < s.len() && s[i] == sep;
                assert(s.drop_last()[i] == sep);
            }
            if s.drop_last().contains(sep) {
                let i = choose|i: int| 0 <= i < s.drop_last().len() && s.drop_last()[i] == sep;
                assert(s[i] == sep);
            }
        }
    }
}

/// A sequence that does not hold `sep`, appended after one that ends in
/// `sep`, leaves the last `sep` where it was.
proof fn lemma_last_index_of_suffix(a: Seq<char>, b: Seq<char>, sep: char)
    requires
        !b.contains(sep),
    ensures
        last_index_of(a.push(sep) + b, sep) == a.len(),
    decreases b.len(),
{
    let s = a.push(sep) + b;
    if b.len() == 0 {
        assert(s =~= a.push(sep));
    } else {
        assert(s.drop_last() =~= a.push(sep) + b.drop_last());
        assert(s.last() == b.last());
        assert(!b.drop_last().contains(sep)) by {
            if b.drop_last().contains(sep) {
                let i = choose|i: int| 0 <= i < b.drop_last().len() && b.drop_last()[i] == sep;
                assert(b[i] == sep);
            }
        }
        assert(b.last() != sep) by {
            assert(b[b.len() - 1] == b.last());
        }
        lemma_last_index_of_suffix(a, b.drop_last(), sep);
    }
}

/// Parts that do not hold the separator come back unchanged when their join
/// is split again.
pub proof fn lemma_split_join(parts: Seq<Seq<char>>, sep: char)
    requires
        parts.len() > 0,
        forall|i: int| 0 <= i < parts.len() ==> !(#[trigger] parts[i]).contains(sep),
    ensures
        split(join(parts, seq![sep]), sep) == parts,
    decreases parts.len(),
{
    let j = join(parts, seq![sep]);
    if parts.len() == 1 {
        lemma_last_index_of_bounds(parts[0], sep);
        assert(split(j, sep) =~= seq![parts[0]]);
        assert(split(j, sep) =~= parts);
    } else {
        let prefix = parts.drop_last();
        let front = join(prefix, seq![sep]);
        assert forall|i: int| 0 <= i < prefix.len() implies !(#[trigger] prefix[i]).contains(sep) by {
            assert(prefix[i] == parts[i]);
        }
        lemma_split_join(prefix, sep);
        assert(j =~= front.push(sep) + parts.last());
        assert(!parts.last().contains(sep)) by {
            assert(parts[parts.len() - 1] == parts.last());
        }
        lemma_last_index_of_suffix(front, parts.last(), sep);
        assert(j.take(front.len() as int) =~= front);
        assert(j.skip(front.len() as int + 1) =~= parts.last());
        assert(split(j, sep) =~= split(front, sep).push(parts.last()));
        assert(prefix.push(parts.last()) =~= parts);
    }
}

/// Appends a copy of `s` to `strings`.
pub fn push_text(strings: &mut Vec<String>, s: &str)
    ensures
        texts(final(strings)@) == texts(old(strings)@).push(s@),
{
    strings.push(String::from_str(s));
    proof {
        assert(texts(strings@) =~= texts(old(strings)@).push(s@));
    }
}

/// Joins `parts` with `sep` between each two of them.
pub fn join_texts(parts: &Vec<String>, sep: &str) -> (joined: String)
    ensures
        joined@ == join(texts(parts@), sep@),
{
    let ghost all = texts(parts@);
    let mut joined = String::new();
    let n = parts.len();
    let mut i: usize = 0;
    while i < n
        invariant
            n == parts@.len(),
            all == texts(parts@),
            i <= n,
            joined@ == join(all.take(i as int), sep@),
        decreases n - i,
    {
        proof {
            assert(all.take(i + 1).drop_last() =~= all.take(i as int));
            assert(all.take(i + 1).last() == parts@[i as int]@);
        }
        if i != 0 {
            joined.append(sep);
        } else {
            assert(all.take(1) =~= seq![parts@[0]@]);
        }
        joined.append(parts[i].as_str());
        i = i + 1;
    }
    proof {
        assert(all.take(n as int) =~= all);
    }
    joined
}

} // verus!
