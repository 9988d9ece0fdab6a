use vstd::prelude::*;

verus! {

/// The pieces of `s` between NUL characters, in order: `s` split at every
/// NUL, so there is always one piece more than there are NULs.
pub open spec fn segments(s: Seq<char>) -> Seq<Seq<char>>
    decreases s.len(),
{
    if s.len() == 0 {
        seq![Seq::empty()]
    } else {
        let prev = segments(s.drop_last());
        if s.last() == '\0' {
            prev.push(Seq::empty())
        } else {
            prev.update(prev.len() - 1, prev.last().push(s.last()))
        }
    }
}

/// `i` is the position of the first `c` in `s`.
pub open spec fn is_first_index(s: Seq<char>, c: char, i: int) -> bool {
    &&& 0 <= i < s.len()
    &&& s[i] == c
    &&& forall|j: int| 0 <= j < i ==> s[j] != c
}

/// The key and value of one `KEY=VALUE` piece: what stands before its first
/// `=`, and what stands after it. A piece without `=` holds no entry.
pub open spec fn entry_of(seg: Seq<char>) -> Option<(Seq<char>, Seq<char>)> {
    if exists|i: int| is_first_index(seg, '=', i) {
        let i = choose|i: int| is_first_index(seg, '=', i);
        Some((seg.take(i), seg.skip(i + 1)))
    } else {
        None
    }
}

/// The entries of the pieces that hold one, in order.
pub open spec fn entries_of(segs: Seq<Seq<char>>) -> Seq<(Seq<char>, Seq<char>)>
    decreases segs.len(),
{
    if segs.len() == 0 {
        Seq::empty()
    } else {
        let rest = entries_of(segs.drop_last());
        match entry_of(segs.last()) {
            Some(e) => rest.push(e),
            None => rest,
        }
    }
}

/// The entries of a NUL-delimited environment block.
pub open spec fn environ_entries(s: Seq<char>) -> Seq<(Seq<char>, Seq<char>)> {
    entries_of(segments(s))
}

/// The value of the last entry whose key is `key`, if any: later entries
/// override earlier ones.
pub open spec fn lookup_last(entries: Seq<(Seq<char>, Seq<char>)>, key: Seq<char>) -> Option<
    Seq<char>,
>
    decreases entries.len(),
{
    if entries.len() == 0 {
        None
    } else if entries.last().0 == key {
        Some(entries.last().1)
    } else {
        lookup_last(entries.drop_last(), key)
    }
}

/// The entries held in a vector of pairs of strings.
pub open spec fn pairs_view(v: Seq<(String, String)>) -> Seq<(Seq<char>, Seq<char>)> {
    v.map_values(|e: (String, String)| (e.0@, e.1@))
}

proof fn lemma_segments_nonempty(s: Seq<char>)
    ensures
        segments(s).len() >= 1,
    decreases s.len(),
{
    if s.len() > 0 {
        lemma_segments_nonempty(s.drop_last());
    }
}

/// The entry, if any, of the piece `s[start..end]`.
fn entry_in(s: &str, start: usize, end: usize) -> (r: Option<(String, String)>)
    requires
        start <= end <= s@.len(),
    ensures
        match r {
            Some(e) => entry_of(s@.subrange(start as int, end as int)) == Some((e.0@, e.1@)),
            None => entry_of(s@.subrange(start as int, end as int)) is None,
        },
{
    let ghost seg = s@.subrange(start as int, end as int);
    let mut j: usize = start;
    while j < end
        invariant
            start <= j <= end <= s@.len(),
            seg == s@.subrange(start as int, end as int),
            forall|k: int| 0 <= k < j - start ==> seg[k] != '=',
        decreases end - j,
    {
        if s.get_char(j) == '=' {
            let key = s.substring_char(start, j).to_owned();
            let value = s.substring_char(j + 1, end).to_owned();
            proof {
                let i = (j - start) as int;
                assert(is_first_index(seg, '=', i));
                let c = choose|c: int| is_first_index(seg, '=', c);
                assert(c == i) by {
                    if c < i {
                        assert(seg[c] != '=');
                    }
                    if i < c {
                        assert(seg[i] != '=');
                    }
                }
                assert(key@ =~= seg.take(i));
                assert(value@ =~= seg.skip(i + 1));
            }
            return Some((key, value));
        }
        j = j + 1;
    }
    None
}

/// Splits a NUL-delimited environment block into its `KEY=VALUE` entries, in
/// order; pieces without `=` are left out.
pub fn parse_environ(blob: &str) -> (r: Vec<(String, String)>)
    ensures
        pairs_view(r@) == environ_entries(blob@),
{
    let n = blob.unicode_len();
    let mut out: Vec<(String, String)> = Vec::new();
    let mut start: usize = 0;
    let mut i: usize = 0;
    proof {
        assert(blob@.take(0) =~= Seq::<char>::empty());
    }
    while i < n
        invariant
            n == blob@.len(),
            start <= i <= n,
            segments(blob@.take(i as int)).len() >= 1,
            segments(blob@.take(i as int)).last() == blob@.subrange(start as int, i as int),
            pairs_view(out@) == entries_of(segments(blob@.take(i as int)).drop_last()),
        decreases n - i,
    {
        let ghost prev = segments(blob@.take(i as int));
        let c = blob.get_char(i);
        proof {
            assert(blob@.take(i + 1).drop_last() =~= blob@.take(i as int));
            lemma_segments_nonempty(blob@.take(i + 1));
        }
        if c == '\0' {
            let e = entry_in(blob, start, i);
            let ghost cur = segments(blob@.take(i + 1));
            proof {
                assert(cur == prev.push(Seq::empty()));
                assert(cur.drop_last() =~= prev);
                assert(prev.drop_last().push(prev.last()) =~= prev);
            }
            match e {
                Some(kv) => {
                    let ghost before = out@;
                    out.push(kv);
                    proof {
                        assert(pairs_view(out@) =~= pairs_view(before).push((kv.0@, kv.1@)));
                    }
                },
                None => {},
            }
            start = i + 1;
            proof {
                assert(blob@.subrange(start as int, start as int) =~= Seq::<char>::empty());
            }
        } else {
            proof {
                let cur = segments(blob@.take(i + 1));
                assert(cur.drop_last() =~= prev.drop_last());
                assert(blob@.subrange(start as int, i + 1) =~= blob@.subrange(
                    start as int,
                    i as int,
                ).push(c));
            }
        }
        i = i + 1;
    }
    proof {
        assert(blob@.take(n as int) =~= blob@);
    }
    let ghost all = segments(blob@);
    let e = entry_in(blob, start, n);
    proof {
        assert(all.drop_last().push(all.last()) =~= all);
    }
    match e {
        Some(kv) => {
            let ghost before = out@;
            out.push(kv);
            proof {
                assert(pairs_view(out@) =~= pairs_view(before).push((kv.0@, kv.1@)));
            }
        },
        None => {},
    }
    out
}

/// The value of the last entry of `entries` whose key is `key`.
pub fn lookup_entry(entries: &Vec<(String, String)>, key: &str) -> (r: Option<String>)
    ensures
        match r {
            Some(v) => lookup_last(pairs_view(entries@), key@) == Some(v@),
            None => lookup_last(pairs_view(entries@), key@) is None,
        },
{
    let wanted = key.to_owned();
    let mut found: Option<String> = None;
    let mut i: usize = 0;
    while i < entries.len()
        invariant
            i <= entries@.len(),
            wanted@ == key@,
            match found {
                Some(v) => lookup_last(pairs_view(entries@.take(i as int)), key@) == Some(v@),
                None => lookup_last(pairs_view(entries@.take(i as int)), key@) is None,
            },
        decreases entries@.len() - i,
    {
        proof {
            assert(pairs_view(entries@.take(i + 1)).drop_last() =~= pairs_view(
                entries@.take(i as int),
            ));
        }
        if entries[i].0 == wanted {
            found = Some(entries[i].1.clone());
        }
        i = i + 1;
    }
    proof {
        assert(entries@.take(entries@.len() as int) =~= entries@);
    }
    found
}

} // verus!
