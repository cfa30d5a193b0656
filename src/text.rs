//! Character-level helpers: Unicode whitespace, trimming and comma splitting.
use vstd::prelude::*;

verus! {

/// The characters with the Unicode `White_Space` property.
pub open spec fn is_space(c: char) -> bool {
    ||| ('\u{9}' <= c && c <= '\u{d}')
    ||| c == ' '
    ||| c == '\u{85}'
    ||| c == '\u{a0}'
    ||| c == '\u{1680}'
    ||| ('\u{2000}' <= c && c <= '\u{200a}')
    ||| c == '\u{2028}'
    ||| c == '\u{2029}'
    ||| c == '\u{202f}'
    ||| c == '\u{205f}'
    ||| c == '\u{3000}'
}

/// `s` without its leading whitespace.
pub open spec fn trim_start(s: Seq<char>) -> Seq<char>
    decreases s.len(),
{
    if s.len() > 0 && is_space(s[0]) {
        trim_start(s.drop_first())
    } else {
        s
    }
}

/// `s` without its trailing whitespace.
pub open spec fn trim_end(s: Seq<char>) -> Seq<char>
    decreases s.len(),
{
    if s.len() > 0 && is_space(s.last()) {
        trim_end(s.drop_last())
    } else {
        s
    }
}

/// `s` without whitespace at either end.
pub open spec fn trim(s: Seq<char>) -> Seq<char> {
    trim_end(trim_start(s))
}

/// A string is blank when it holds whitespace only (or nothing).
pub open spec fn is_blank(s: Seq<char>) -> bool {
    trim(s).len() == 0
}

/// The pieces of `s` between commas; there is always one more piece than commas.
pub open spec fn split_commas(s: Seq<char>) -> Seq<Seq<char>>
    decreases s.len(),
{
    if s.len() == 0 {
        seq![Seq::empty()]
    } else {
        let p = split_commas(s.drop_last());
        if s.last() == ',' {
            p.push(Seq::empty())
        } else {
            p.update(p.len() - 1, p.last().push(s.last()))
        }
    }
}

/// Trimmed pieces, with the empty ones left out.
pub open spec fn nonempty_trimmed(pieces: Seq<Seq<char>>) -> Seq<Seq<char>>
    decreases pieces.len(),
{
    if pieces.len() == 0 {
        Seq::empty()
    } else {
        let rest = nonempty_trimmed(pieces.drop_last());
        if trim(pieces.last()).len() > 0 {
            rest.push(trim(pieces.last()))
        } else {
            rest
        }
    }
}

/// The members that a comma-separated list names.
pub open spec fn list_tokens(s: Seq<char>) -> Seq<Seq<char>> {
    nonempty_trimmed(split_commas(s))
}

pub fn is_space_char(c: char) -> (r: bool)
    ensures
        r == is_space(c),
{
    ('\u{9}' <= c && c <= '\u{d}') || c == ' ' || c == '\u{85}' || c == '\u{a0}' || c
        == '\u{1680}' || ('\u{2000}' <= c && c <= '\u{200a}') || c == '\u{2028}' || c
        == '\u{2029}' || c == '\u{202f}' || c == '\u{205f}' || c == '\u{3000}'
}

proof fn lemma_trim_start_skip(s: Seq<char>, a: int)
    requires
        0 <= a <= s.len(),
        forall|k: int| 0 <= k < a ==> is_space(#[trigger] s[k]),
    ensures
        trim_start(s) == trim_start(s.subrange(a, s.len() as int)),
    decreases a,
{
    if a > 0 {
        assert(s.drop_first() == s.subrange(1, s.len() as int));
        let t = s.drop_first();
        lemma_trim_start_skip(t, a - 1);
        assert(t.subrange(a - 1, t.len() as int) == s.subrange(a, s.len() as int));
    } else {
        assert(s.subrange(0, s.len() as int) == s);
    }
}

proof fn lemma_trim_end_skip(s: Seq<char>, b: int)
    requires
        0 <= b <= s.len(),
        forall|k: int| b <= k < s.len() ==> is_space(#[trigger] s[k]),
    ensures
        trim_end(s) == trim_end(s.subrange(0, b)),
    decreases s.len() - b,
{
    if b < s.len() {
        let t = s.drop_last();
        lemma_trim_end_skip(t, b);
        assert(t.subrange(0, b) == s.subrange(0, b));
    } else {
        assert(s.subrange(0, b) == s);
    }
}

/// `s` with the whitespace at both ends removed.
pub fn trim_str(s: &str) -> (r: String)
    ensures
        r@ == trim(s@),
{
    let n = s.unicode_len();
    let mut a: usize = 0;
    while a < n && is_space_char(s.get_char(a))
        invariant
            n == s@.len(),
            a <= n,
            forall|k: int| 0 <= k < a ==> is_space(#[trigger] s@[k]),
        decreases n - a,
    {
        a = a + 1;
    }
    let mut b: usize = n;
    while b > a && is_space_char(s.get_char(b - 1))
        invariant
            n == s@.len(),
            a <= b <= n,
            forall|k: int| b <= k < n ==> is_space(#[trigger] s@[k]),
        decreases b,
    {
        b = b - 1;
    }
    proof {
        lemma_trim_start_skip(s@, a as int);
        let u = s@.subrange(a as int, n as int);
        assert(a == n || !is_space(u[0]));
        assert(trim_start(u) == u);
        lemma_trim_end_skip(u, (b - a) as int);
        assert(u.subrange(0, (b - a) as int) == s@.subrange(a as int, b as int));
        let w = s@.subrange(a as int, b as int);
        assert(b == a || !is_space(w.last()));
        assert(trim_end(w) == w);
    }
    String::from_str(s.substring_char(a, b))
}



/// The pieces joined with a comma between each two.
pub open spec fn join_commas(parts: Seq<Seq<char>>) -> Seq<char>
    decreases parts.len(),
{
    if parts.len() <= 1 {
        if parts.len() == 1 { parts[0] } else { Seq::empty() }
    } else {
        join_commas(parts.drop_last()) + seq![','] + parts.last()
    }
}

proof fn lemma_split_extend(x: Seq<char>, y: Seq<char>)
    requires
        !y.contains(','),
    ensures
        split_commas(x + y) == split_commas(x).update(
            split_commas(x).len() - 1,
            split_commas(x).last() + y,
        ),
        split_commas(x).len() >= 1,
    decreases y.len(),
{
    lemma_split_nonempty(x);
    if y.len() == 0 {
        assert(x + y == x);
        assert(split_commas(x).last() + y == split_commas(x).last());
        assert(split_commas(x).update(split_commas(x).len() - 1, split_commas(x).last())
            == split_commas(x));
    } else {
        let y0 = y.drop_last();
        assert(!y0.contains(',')) by {
            if y0.contains(',') {
                let k = choose|k: int| 0 <= k < y0.len() && y0[k] == ',';
                assert(y[k] == ',');
            }
        }
        lemma_split_extend(x, y0);
        assert((x + y).drop_last() == x + y0);
        assert((x + y).last() == y.last());
        assert(y[y.len() - 1] != ',');
        assert(split_commas(x).last() + y0 + seq![y.last()] == split_commas(x).last() + y);
        assert((split_commas(x).last() + y0).push(y.last()) == split_commas(x).last() + y);
    }
}

proof fn lemma_split_nonempty(x: Seq<char>)
    ensures
        split_commas(x).len() >= 1,
    decreases x.len(),
{
    if x.len() > 0 {
        lemma_split_nonempty(x.drop_last());
    }
}

/// Joining comma-free pieces with commas and splitting the result at its commas gives back
/// the pieces.
pub proof fn lemma_split_join(parts: Seq<Seq<char>>)
    requires
        parts.len() >= 1,
        forall|i: int| 0 <= i < parts.len() ==> !(#[trigger] parts[i]).contains(','),
    ensures
        split_commas(join_commas(parts)) == parts,
    decreases parts.len(),
{
    if parts.len() == 1 {
        let e = Seq::<char>::empty();
        assert(split_commas(e) == seq![e]);
        lemma_split_extend(e, parts[0]);
        assert(e + parts[0] == parts[0]);
        assert(seq![e].update(0, e + parts[0]) == parts);
    } else {
        let init = parts.drop_last();
        assert forall|i: int| 0 <= i < init.len() implies !(#[trigger] init[i]).contains(',') by {
            assert(init[i] == parts[i]);
        }
        lemma_split_join(init);
        let j = join_commas(init) + seq![','];
        assert(j.drop_last() == join_commas(init));
        assert(split_commas(j) == init.push(Seq::empty()));
        lemma_split_extend(j, parts.last());
        let e = Seq::<char>::empty();
        assert(e + parts.last() == parts.last());
        assert(init.push(e).update(init.len() as int, parts.last()) == parts);
    }
}

/// Parsing a list whose comma-free pieces are joined with commas yields the trimmed pieces,
/// in order, with the empty ones dropped: `"a, b ,c"` yields `a`, `b`, `c`.
pub proof fn lemma_list_tokens_of_join(parts: Seq<Seq<char>>)
    requires
        parts.len() >= 1,
        forall|i: int| 0 <= i < parts.len() ==> !(#[trigger] parts[i]).contains(','),
    ensures
        list_tokens(join_commas(parts)) == nonempty_trimmed(parts),
{
    lemma_split_join(parts);
}


proof fn lemma_trim_all_space(s: Seq<char>)
    requires
        forall|k: int| 0 <= k < s.len() ==> is_space(#[trigger] s[k]),
    ensures
        trim(s).len() == 0,
{
    lemma_trim_start_skip(s, s.len() as int);
    let e = s.subrange(s.len() as int, s.len() as int);
    assert(e.len() == 0);
}

proof fn lemma_split_pieces_space(s: Seq<char>)
    requires
        forall|k: int| 0 <= k < s.len() ==> is_space(#[trigger] s[k]) || s[k] == ',',
    ensures
        forall|i: int, k: int|
            0 <= i < split_commas(s).len() && 0 <= k < split_commas(s)[i].len() ==> is_space(
                #[trigger] split_commas(s)[i][k],
            ),
    decreases s.len(),
{
    if s.len() > 0 {
        let t = s.drop_last();
        assert forall|k: int| 0 <= k < t.len() implies is_space(#[trigger] t[k]) || t[k]
            == ',' by {
            assert(t[k] == s[k]);
        }
        lemma_split_pieces_space(t);
        lemma_split_nonempty(t);
        let p = split_commas(t);
        assert(is_space(s.last()) || s.last() == ',') by {
            assert(s.last() == s[s.len() - 1]);
        }
        if s.last() != ',' {
            let q = p.update(p.len() - 1, p.last().push(s.last()));
            assert forall|i: int, k: int| 0 <= i < q.len() && 0 <= k < q[i].len() implies is_space(
                #[trigger] q[i][k],
            ) by {
                if i == p.len() - 1 && k == p.last().len() {
                } else {
                    assert(q[i][k] == p[i][k]);
                }
            }
        }
    }
}

proof fn lemma_nonempty_trimmed_space(pieces: Seq<Seq<char>>)
    requires
        forall|i: int, k: int|
            0 <= i < pieces.len() && 0 <= k < pieces[i].len() ==> is_space(#[trigger] pieces[i][k]),
    ensures
        nonempty_trimmed(pieces).len() == 0,
    decreases pieces.len(),
{
    if pieces.len() > 0 {
        let init = pieces.drop_last();
        assert forall|i: int, k: int| 0 <= i < init.len() && 0 <= k < init[i].len() implies is_space(
            #[trigger] init[i][k],
        ) by {
            assert(init[i] == pieces[i]);
        }
        lemma_nonempty_trimmed_space(init);
        let l = pieces.last();
        assert forall|k: int| 0 <= k < l.len() implies is_space(#[trigger] l[k]) by {
            assert(l[k] == pieces[pieces.len() - 1][k]);
        }
        lemma_trim_all_space(l);
    }
}

/// A list made of whitespace and commas only, the empty one included, names no member.
pub proof fn lemma_blank_list_has_no_tokens(s: Seq<char>)
    requires
        forall|k: int| 0 <= k < s.len() ==> is_space(#[trigger] s[k]) || s[k] == ',',
    ensures
        list_tokens(s).len() == 0,
{
    lemma_split_pieces_space(s);
    lemma_nonempty_trimmed_space(split_commas(s));
}


proof fn lemma_trim_start_shape(s: Seq<char>)
    ensures
        trim_start(s).len() <= s.len(),
        trim_start(s) == s.subrange(s.len() - trim_start(s).len(), s.len() as int),
        trim_start(s).len() > 0 ==> !is_space(trim_start(s)[0]),
    decreases s.len(),
{
    if s.len() > 0 && is_space(s[0]) {
        let t = s.drop_first();
        lemma_trim_start_shape(t);
        assert(t.subrange(t.len() - trim_start(t).len(), t.len() as int) == s.subrange(
            s.len() - trim_start(t).len(),
            s.len() as int,
        ));
    } else {
        assert(s.subrange(0, s.len() as int) == s);
    }
}

proof fn lemma_trim_end_shape(s: Seq<char>)
    ensures
        trim_end(s).len() <= s.len(),
        trim_end(s) == s.subrange(0, trim_end(s).len() as int),
        trim_end(s).len() > 0 ==> !is_space(trim_end(s).last()),
    decreases s.len(),
{
    if s.len() > 0 && is_space(s.last()) {
        let t = s.drop_last();
        lemma_trim_end_shape(t);
        assert(t.subrange(0, trim_end(t).len() as int) == s.subrange(
            0,
            trim_end(t).len() as int,
        ));
    } else {
        assert(s.subrange(0, s.len() as int) == s);
    }
}

proof fn lemma_trim_shape(s: Seq<char>)
    ensures
        trim(trim(s)) == trim(s),
        forall|k: int| 0 <= k < trim(s).len() ==> s.contains(#[trigger] trim(s)[k]),
{
    let u = trim_start(s);
    let t = trim(s);
    lemma_trim_start_shape(s);
    lemma_trim_end_shape(u);
    let off = s.len() - u.len();
    assert forall|k: int| 0 <= k < t.len() implies s.contains(#[trigger] t[k]) by {
        assert(t[k] == u[k]);
        assert(u[k] == s[off + k]);
    }
    if t.len() > 0 {
        assert(t[0] == u[0]);
        assert(trim_start(t) == t);
        assert(trim_end(t) == t);
    } else {
        assert(trim_start(t) == t);
        assert(trim_end(t) == t);
    }
}

proof fn lemma_split_no_comma(s: Seq<char>)
    ensures
        forall|i: int|
            0 <= i < split_commas(s).len() ==> !(#[trigger] split_commas(s)[i]).contains(','),
    decreases s.len(),
{
    if s.len() > 0 {
        let t = s.drop_last();
        lemma_split_no_comma(t);
        lemma_split_nonempty(t);
        let p = split_commas(t);
        if s.last() != ',' {
            let q = p.update(p.len() - 1, p.last().push(s.last()));
            assert forall|i: int| 0 <= i < q.len() implies !(#[trigger] q[i]).contains(',') by {
                if i == p.len() - 1 {
                    if q[i].contains(',') {
                        let k = choose|k: int| 0 <= k < q[i].len() && q[i][k] == ',';
                        if k < p.last().len() {
                            assert(p[i][k] == ',');
                        }
                    }
                }
            }
        } else {
            let q = p.push(Seq::<char>::empty());
            assert forall|i: int| 0 <= i < q.len() implies !(#[trigger] q[i]).contains(',') by {
                if i < p.len() {
                    assert(q[i] == p[i]);
                }
            }
        }
    }
}

proof fn lemma_nonempty_trimmed_shape(pieces: Seq<Seq<char>>)
    requires
        forall|i: int| 0 <= i < pieces.len() ==> !(#[trigger] pieces[i]).contains(','),
    ensures
        forall|i: int|
            0 <= i < nonempty_trimmed(pieces).len() ==> {
                let t = #[trigger] nonempty_trimmed(pieces)[i];
                t.len() > 0 && trim(t) == t && !t.contains(',')
            },
    decreases pieces.len(),
{
    if pieces.len() > 0 {
        let init = pieces.drop_last();
        assert forall|i: int| 0 <= i < init.len() implies !(#[trigger] init[i]).contains(',') by {
            assert(init[i] == pieces[i]);
        }
        lemma_nonempty_trimmed_shape(init);
        let l = pieces.last();
        lemma_trim_shape(l);
        assert(!pieces[pieces.len() - 1].contains(','));
        if trim(l).contains(',') {
            let k = choose|k: int| 0 <= k < trim(l).len() && trim(l)[k] == ',';
            assert(l.contains(trim(l)[k]));
        }
        let rest = nonempty_trimmed(init);
        let cur = nonempty_trimmed(pieces);
        assert forall|i: int| 0 <= i < cur.len() implies {
            let t = #[trigger] cur[i];
            t.len() > 0 && trim(t) == t && !t.contains(',')
        } by {
            if i < rest.len() {
                assert(cur[i] == rest[i]);
            } else {
                assert(cur[i] == trim(l));
            }
        }
    }
}

/// Every member that a comma-separated list names is non-empty, has no whitespace at
/// either end and holds no comma.
pub proof fn lemma_list_tokens_shape(s: Seq<char>)
    ensures
        forall|i: int|
            0 <= i < list_tokens(s).len() ==> {
                let t = #[trigger] list_tokens(s)[i];
                t.len() > 0 && trim(t) == t && !t.contains(',')
            },
{
    lemma_split_no_comma(s);
    lemma_nonempty_trimmed_shape(split_commas(s));
}

/// The views of a vector of strings.
pub open spec fn views(v: Seq<String>) -> Seq<Seq<char>> {
    v.map_values(|x: String| x@)
}

/// The whitespace-trimmed, non-empty pieces of a comma-separated list, in order.
pub fn comma_tokens(s: &str) -> (r: Vec<String>)
    ensures
        views(r@) == list_tokens(s@),
{
    let n = s.unicode_len();
    let mut out: Vec<String> = Vec::new();
    let mut start: usize = 0;
    let mut i: usize = 0;
    let ghost mut done: Seq<Seq<char>> = Seq::empty();
    proof {
        assert(s@.subrange(0, 0) == Seq::<char>::empty());
        assert(split_commas(Seq::<char>::empty()) == seq![Seq::<char>::empty()]);
        assert(done.push(Seq::<char>::empty()) == seq![Seq::<char>::empty()]);
    }
    while i < n
        invariant
            n == s@.len(),
            start <= i <= n,
            split_commas(s@.subrange(0, i as int)) == done.push(s@.subrange(start as int, i as int)),
            views(out@) == nonempty_trimmed(done),
        decreases n - i,
    {
        let c = s.get_char(i);
        proof {
            let pre = s@.subrange(0, i as int + 1);
            assert(pre.drop_last() == s@.subrange(0, i as int));
            assert(pre.last() == c);
        }
        if c == ',' {
            let piece = trim_str(s.substring_char(start, i));
            let ghost last = s@.subrange(start as int, i as int);
            proof {
                assert(done.push(last).drop_last() == done);
                assert(done.push(last).last() == last);
            }
            if piece.unicode_len() > 0 {
                let ghost prev = out@;
                out.push(piece);
                proof {
                    assert(views(out@) == views(prev).push(piece@));
                }
            }
            proof {
                done = done.push(last);
                assert(s@.subrange(i as int + 1, i as int + 1) == Seq::<char>::empty());
            }
            start = i + 1;
        } else {
            proof {
                assert(s@.subrange(start as int, i as int + 1) == s@.subrange(start as int, i as int).push(c));
            }
        }
        i = i + 1;
    }
    let piece = trim_str(s.substring_char(start, n));
    proof {
        assert(s@.subrange(0, n as int) == s@);
        let all = done.push(s@.subrange(start as int, n as int));
        assert(all.drop_last() == done);
    }
    if piece.unicode_len() > 0 {
        let ghost prev = out@;
        out.push(piece);
        proof {
            assert(views(out@) == views(prev).push(piece@));
        }
    }
    out
}

} // verus!
