//! Text operations on `str` that the command-line assembly relies on:
//! whitespace trimming, splitting at a terminator character and joining.

use vstd::prelude::*;

verus! {

/// Unicode `White_Space`: the characters for which `char::is_whitespace` holds.
pub open spec fn is_whitespace(c: char) -> bool {
    let n = c as u32;
    ||| 0x09 <= n <= 0x0d
    ||| n == 0x20
    ||| n == 0x85
    ||| n == 0xa0
    ||| n == 0x1680
    ||| 0x2000 <= n <= 0x200a
    ||| n == 0x2028
    ||| n == 0x2029
    ||| n == 0x202f
    ||| n == 0x205f
    ||| n == 0x3000
}

/// Decides `is_whitespace`.
pub fn char_is_whitespace(c: char) -> (b: bool)
    ensures
        b == is_whitespace(c),
{
    let n = c as u32;
    (0x09 <= n && n <= 0x0d) || n == 0x20 || n == 0x85 || n == 0xa0 || n == 0x1680 || (0x2000
        <= n && n <= 0x200a) || n == 0x2028 || n == 0x2029 || n == 0x202f || n == 0x205f || n
        == 0x3000
}


/// `s` with leading whitespace removed.
pub open spec fn trim_start(s: Seq<char>) -> Seq<char>
    decreases s.len(),
{
    if s.len() > 0 && is_whitespace(s[0]) {
        trim_start(s.drop_first())
    } else {
        s
    }
}

/// `s` with trailing whitespace removed.
pub open spec fn trim_end(s: Seq<char>) -> Seq<char>
    decreases s.len(),
{
    if s.len() > 0 && is_whitespace(s.last()) {
        trim_end(s.drop_last())
    } else {
        s
    }
}

/// `s` with leading and trailing whitespace removed, as `str::trim` gives it.
pub open spec fn trim(s: Seq<char>) -> Seq<char> {
    trim_end(trim_start(s))
}

proof fn lemma_trim_start_at(s: Seq<char>, a: int)
    requires
        0 <= a <= s.len(),
        forall|i: int| 0 <= i < a ==> is_whitespace(#[trigger] s[i]),
        a == s.len() || !is_whitespace(s[a]),
    ensures
        trim_start(s) == s.subrange(a, s.len() as int),
    decreases a,
{
    if a == 0 {
        assert(s.subrange(0, s.len() as int) =~= s);
    } else {
        let t = s.drop_first();
        assert forall|i: int| 0 <= i < a - 1 implies is_whitespace(#[trigger] t[i]) by {
            assert(t[i] == s[i + 1]);
        }
        lemma_trim_start_at(t, a - 1);
        assert(t.subrange(a - 1, t.len() as int) =~= s.subrange(a, s.len() as int));
    }
}

proof fn lemma_trim_end_at(s: Seq<char>, b: int)
    requires
        0 <= b <= s.len(),
        forall|i: int| b <= i < s.len() ==> is_whitespace(#[trigger] s[i]),
        b == 0 || !is_whitespace(s[b - 1]),
    ensures
        trim_end(s) == s.subrange(0, b),
    decreases s.len() - b,
{
    if b == s.len() {
        assert(s.subrange(0, b) =~= s);
    } else {
        let t = s.drop_last();
        assert forall|i: int| b <= i < t.len() implies is_whitespace(#[trigger] t[i]) by {
            assert(t[i] == s[i]);
        }
        if b > 0 {
            assert(t[b - 1] == s[b - 1]);
        }
        lemma_trim_end_at(t, b);
        assert(t.subrange(0, b) =~= s.subrange(0, b));
    }
}

/// The characters of `s`, in order.
pub fn chars_of(s: &str) -> (v: Vec<char>)
    ensures
        v@ == s@,
{
    broadcast use vstd::string::group_string_axioms;

    let mut v: Vec<char> = Vec::new();
    for c in it: s.chars()
        invariant
            v@ == it.seq().take(it.index() as int),
            it.seq() == s@,
    {
        v.push(c);
    }
    v
}


/// `s` with leading and trailing whitespace removed (`str::trim`).
pub fn trim_str(s: &str) -> (r: &str)
    ensures
        r@ == trim(s@),
{
    let cs = chars_of(s);
    let n = cs.len();
    let mut a: usize = 0;
    while a < n && char_is_whitespace(cs[a])
        invariant
            cs@ == s@,
            n == cs@.len(),
            a <= n,
            forall|i: int| 0 <= i < a ==> is_whitespace(#[trigger] s@[i]),
        decreases n - a,
    {
        a = a + 1;
    }
    proof {
        lemma_trim_start_at(s@, a as int);
    }
    let mut b: usize = n;
    while b > a && char_is_whitespace(cs[b - 1])
        invariant
            cs@ == s@,
            n == cs@.len(),
            a <= b <= n,
            forall|i: int| b <= i < n ==> is_whitespace(#[trigger] s@[i]),
        decreases b,
    {
        b = b - 1;
    }
    proof {
        let t = s@.subrange(a as int, n as int);
        assert forall|i: int| b - a <= i < t.len() implies is_whitespace(#[trigger] t[i]) by {
            assert(t[i] == s@[i + a]);
        }
        if b > a {
            assert(t[b - a - 1] == s@[b - 1]);
        }
        lemma_trim_end_at(t, b - a);
        assert(t.subrange(0, b - a) =~= s@.subrange(a as int, b as int));
    }
    s.substring_char(a, b)
}


/// The pieces of `s` between the occurrences of `sep`, as `str::split` gives them:
/// one more piece than `s` holds occurrences of `sep`.
pub open spec fn split_on(s: Seq<char>, sep: char) -> Seq<Seq<char>>
    decreases s.len(),
{
    if s.len() == 0 {
        seq![Seq::empty()]
    } else {
        let r = split_on(s.drop_last(), sep);
        if s.last() == sep {
            r.push(Seq::empty())
        } else {
            r.update(r.len() - 1, r.last().push(s.last()))
        }
    }
}

/// The pieces as `str::split_terminator` gives them: those of `split_on`, less the
/// last one where that one is empty.
pub open spec fn split_terminator_on(s: Seq<char>, sep: char) -> Seq<Seq<char>> {
    let p = split_on(s, sep);
    if p.last().len() == 0 {
        p.drop_last()
    } else {
        p
    }
}

/// The pieces of `ps` concatenated with `sep` between each two of them.
pub open spec fn join(ps: Seq<Seq<char>>, sep: Seq<char>) -> Seq<char>
    decreases ps.len(),
{
    if ps.len() == 0 {
        Seq::empty()
    } else if ps.len() == 1 {
        ps[0]
    } else {
        join(ps.drop_last(), sep) + sep + ps.last()
    }
}

proof fn lemma_split_on_nonempty(s: Seq<char>, sep: char)
    ensures
        split_on(s, sep).len() >= 1,
        split_on(s, sep).len() == 1 ==> !s.contains(sep),
    decreases s.len(),
{
    if s.len() > 0 {
        lemma_split_on_nonempty(s.drop_last(), sep);
        if split_on(s, sep).len() == 1 && s.contains(sep) {
            let k = choose|k: int| 0 <= k < s.len() && s[k] == sep;
            if k < s.len() - 1 {
                assert(s.drop_last()[k] == sep);
            }
        }
    }
}

/// The last piece of the split of `s` is the part of `s` after its last `sep`.
proof fn lemma_split_on_last_empty(s: Seq<char>, sep: char)
    ensures
        split_on(s, sep).last().len() == 0 <==> (s.len() == 0 || s.last() == sep),
    decreases s.len(),
{
    lemma_split_on_nonempty(s, sep);
    if s.len() > 0 {
        lemma_split_on_nonempty(s.drop_last(), sep);
    }
}

proof fn lemma_join_extend_last(ps: Seq<Seq<char>>, sep: Seq<char>, c: char)
    requires
        ps.len() >= 1,
    ensures
        join(ps.update(ps.len() - 1, ps.last().push(c)), sep) == join(ps, sep).push(c),
{
    let qs = ps.update(ps.len() - 1, ps.last().push(c));
    if ps.len() > 1 {
        assert(qs.drop_last() =~= ps.drop_last());
    }
}

/// Splitting at `sep` and joining with `sep` gives back the text, and no piece
/// holds `sep`.
pub proof fn law_split_join(s: Seq<char>, sep: char)
    ensures
        join(split_on(s, sep), seq![sep]) == s,
        forall|i: int|
            0 <= i < split_on(s, sep).len() ==> !(#[trigger] split_on(s, sep)[i]).contains(sep),
    decreases s.len(),
{
    let p = split_on(s, sep);
    if s.len() == 0 {
        assert(p[0] =~= Seq::<char>::empty());
    } else {
        let t = s.drop_last();
        let r = split_on(t, sep);
        law_split_join(t, sep);
        lemma_split_on_nonempty(t, sep);
        if s.last() == sep {
            assert(p.drop_last() =~= r);
            assert(join(p, seq![sep]) =~= s);
            assert forall|i: int| 0 <= i < p.len() implies !(#[trigger] p[i]).contains(sep) by {
                if i < r.len() {
                    assert(p[i] == r[i]);
                }
            }
        } else {
            lemma_join_extend_last(r, seq![sep], s.last());
            assert(t.push(s.last()) =~= s);
            assert forall|i: int| 0 <= i < p.len() implies !(#[trigger] p[i]).contains(sep) by {
                if i < r.len() - 1 {
                    assert(p[i] == r[i]);
                } else {
                    let q = r.last().push(s.last());
                    assert(p[i] == q);
                    if q.contains(sep) {
                        let k = choose|k: int| 0 <= k < q.len() && q[k] == sep;
                        assert(r[r.len() - 1][k] == sep);
                    }
                }
            }
        }
    }
}

/// Where `s` does not end in `sep`, the pieces that `str::split_terminator` gives,
/// joined with `sep`, are `s` again, and none of them holds `sep`.
pub proof fn law_split_terminator_join(s: Seq<char>, sep: char)
    requires
        s.len() == 0 || s.last() != sep,
    ensures
        join(split_terminator_on(s, sep), seq![sep]) == s,
        forall|i: int|
            0 <= i < split_terminator_on(s, sep).len() ==> !(#[trigger] split_terminator_on(
                s,
                sep,
            )[i]).contains(sep),
{
    law_split_join(s, sep);
    lemma_split_on_last_empty(s, sep);
    lemma_split_on_nonempty(s, sep);
    let p = split_on(s, sep);
    if s.len() == 0 {
        assert(split_terminator_on(s, sep) =~= Seq::<Seq<char>>::empty());
    } else {
        assert(split_terminator_on(s, sep) == p);
    }
}


/// The texts of a list of strings.
pub open spec fn views(v: Seq<String>) -> Seq<Seq<char>> {
    v.map_values(|w: String| w@)
}

/// The pieces of `s` between occurrences of `sep`, the last one left out where it
/// is empty (`str::split_terminator`).
pub fn split_terminator(s: &str, sep: char) -> (r: Vec<String>)
    ensures
        views(r@) == split_terminator_on(s@, sep),
{
    let cs = chars_of(s);
    let n = cs.len();
    let mut done: Vec<String> = Vec::new();
    let mut start: usize = 0;
    let mut i: usize = 0;
    proof {
        assert(s@.take(0) =~= Seq::<char>::empty());
        assert(views(done@) =~= Seq::<Seq<char>>::empty());
        assert(s@.subrange(0, 0) =~= Seq::<char>::empty());
        assert(split_on(s@.take(0), sep) =~= views(done@).push(s@.subrange(0, 0)));
    }
    while i < n
        invariant
            cs@ == s@,
            n == cs@.len(),
            start <= i <= n,
            split_on(s@.take(i as int), sep) == views(done@).push(s@.subrange(start as int, i as int)),
        decreases n - i,
    {
        proof {
            let t = s@.take(i as int + 1);
            assert(t.drop_last() =~= s@.take(i as int));
            assert(t.last() == s@[i as int]);
        }
        if cs[i] == sep {
            let piece = String::from_str(s.substring_char(start, i));
            let ghost before = views(done@);
            done.push(piece);
            proof {
                assert(views(done@) =~= before.push(s@.subrange(start as int, i as int)));
                assert(s@.subrange(i as int + 1, i as int + 1) =~= Seq::<char>::empty());
            }
            start = i + 1;
        } else {
            proof {
                assert(s@.subrange(start as int, i as int + 1) =~= s@.subrange(
                    start as int,
                    i as int,
                ).push(s@[i as int]));
                assert(views(done@).push(s@.subrange(start as int, i as int + 1)) =~= views(
                    done@,
                ).push(s@.subrange(start as int, i as int)).update(
                    views(done@).len() as int,
                    s@.subrange(start as int, i as int).push(s@[i as int]),
                ));
            }
        }
        i = i + 1;
    }
    proof {
        assert(s@.take(n as int) =~= s@);
    }
    if start < n {
        let piece = String::from_str(s.substring_char(start, n));
        let ghost before = views(done@);
        done.push(piece);
        proof {
            assert(views(done@) =~= before.push(s@.subrange(start as int, n as int)));
        }
    } else {
        proof {
            assert(views(done@) =~= views(done@).push(s@.subrange(start as int, n as int)).drop_last());
        }
    }
    done
}

/// The strings of `ps` concatenated with `sep` between each two of them.
pub fn join_strings(ps: &Vec<String>, sep: &str) -> (r: String)
    ensures
        r@ == join(views(ps@), sep@),
{
    let mut r = String::new();
    let n = ps.len();
    let mut i: usize = 0;
    while i < n
        invariant
            n == ps@.len(),
            i <= n,
            r@ == join(views(ps@).take(i as int), sep@),
        decreases n - i,
    {
        let ghost prev = views(ps@).take(i as int);
        proof {
            assert(views(ps@).take(i as int + 1).drop_last() =~= prev);
        }
        if i > 0 {
            r.append(sep);
        }
        r.append(ps[i].as_str());
        proof {
            if i == 0 {
                assert(r@ =~= views(ps@).take(1)[0]);
            }
        }
        i = i + 1;
    }
    proof {
        assert(views(ps@).take(n as int) =~= views(ps@));
    }
    r
}


/// What `str::trim` leaves neither starts nor ends with whitespace.
pub proof fn lemma_trim_bounds(s: Seq<char>)
    ensures
        trim(s).len() == 0 || (!is_whitespace(trim(s)[0]) && !is_whitespace(trim(s).last())),
        trim(s).len() <= s.len(),
{
    lemma_trim_start_props(s);
    lemma_trim_end_props(trim_start(s));
}

proof fn lemma_trim_start_props(s: Seq<char>)
    ensures
        trim_start(s).len() == 0 || !is_whitespace(trim_start(s)[0]),
        trim_start(s).len() <= s.len(),
    decreases s.len(),
{
    if s.len() > 0 && is_whitespace(s[0]) {
        lemma_trim_start_props(s.drop_first());
    }
}

proof fn lemma_trim_end_props(s: Seq<char>)
    ensures
        trim_end(s).len() == 0 || !is_whitespace(trim_end(s).last()),
        trim_end(s).len() <= s.len(),
        trim_end(s) == s.subrange(0, trim_end(s).len() as int),
        s.len() > 0 && !is_whitespace(s[0]) ==> trim_end(s).len() > 0,
    decreases s.len(),
{
    if s.len() > 0 && is_whitespace(s.last()) {
        lemma_trim_end_props(s.drop_last());
        assert(s.drop_last().subrange(0, trim_end(s).len() as int) =~= s.subrange(
            0,
            trim_end(s).len() as int,
        ));
        if !is_whitespace(s[0]) {
            assert(s.drop_last()[0] == s[0]);
        }
    } else {
        assert(s.subrange(0, s.len() as int) =~= s);
    }
}


/// Whether `s` holds the character `c`.
pub fn str_has_char(s: &str, c: char) -> (b: bool)
    ensures
        b == s@.contains(c),
{
    let cs = chars_of(s);
    let n = cs.len();
    let mut i: usize = 0;
    while i < n
        invariant
            cs@ == s@,
            n == cs@.len(),
            i <= n,
            forall|j: int| 0 <= j < i ==> s@[j] != c,
        decreases n - i,
    {
        if cs[i] == c {
            assert(s@[i as int] == c);
            return true;
        }
        i = i + 1;
    }
    false
}

proof fn lemma_trim_start_index(s: Seq<char>) -> (a: int)
    ensures
        0 <= a <= s.len(),
        trim_start(s) == s.subrange(a, s.len() as int),
        forall|i: int| 0 <= i < a ==> is_whitespace(#[trigger] s[i]),
    decreases s.len(),
{
    if s.len() > 0 && is_whitespace(s[0]) {
        let t = s.drop_first();
        let a0 = lemma_trim_start_index(t);
        assert(t.subrange(a0, t.len() as int) =~= s.subrange(a0 + 1, s.len() as int));
        assert forall|i: int| 0 <= i < a0 + 1 implies is_whitespace(#[trigger] s[i]) by {
            if i > 0 {
                assert(s[i] == t[i - 1]);
            }
        }
        a0 + 1
    } else {
        assert(s.subrange(0, s.len() as int) =~= s);
        0
    }
}

proof fn lemma_trim_end_index(s: Seq<char>) -> (b: int)
    ensures
        0 <= b <= s.len(),
        trim_end(s) == s.subrange(0, b),
        forall|i: int| b <= i < s.len() ==> is_whitespace(#[trigger] s[i]),
    decreases s.len(),
{
    if s.len() > 0 && is_whitespace(s.last()) {
        let t = s.drop_last();
        let b0 = lemma_trim_end_index(t);
        assert(t.subrange(0, b0) =~= s.subrange(0, b0));
        assert forall|i: int| b0 <= i < s.len() implies is_whitespace(#[trigger] s[i]) by {
            if i < s.len() - 1 {
                assert(s[i] == t[i]);
            }
        }
        b0
    } else {
        assert(s.subrange(0, s.len() as int) =~= s);
        s.len() as int
    }
}

/// `str::trim` cuts off only whitespace, and only at the two ends: what is left is
/// a contiguous part of the text, everything before and after it is whitespace,
/// and it neither starts nor ends with whitespace.
pub proof fn law_trim(s: Seq<char>)
    ensures
        exists|a: int, b: int|
            0 <= a <= b <= s.len() && #[trigger] s.subrange(a, b) == trim(s) && (forall|i: int|
                0 <= i < a ==> is_whitespace(#[trigger] s[i])) && (forall|i: int|
                b <= i < s.len() ==> is_whitespace(#[trigger] s[i])),
        trim(s).len() == 0 || (!is_whitespace(trim(s)[0]) && !is_whitespace(trim(s).last())),
{
    lemma_trim_bounds(s);
    let a = lemma_trim_start_index(s);
    let u = trim_start(s);
    let b0 = lemma_trim_end_index(u);
    let b = a + b0;
    assert(u.subrange(0, b0) =~= s.subrange(a, b));
    assert forall|i: int| b <= i < s.len() implies is_whitespace(#[trigger] s[i]) by {
        assert(s[i] == u[i - a]);
    }
    assert(s.subrange(a, b) == trim(s));
}

} // verus!
