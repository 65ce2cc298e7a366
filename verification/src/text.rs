//! Text helpers: splitting on a separator and trimming white space, as `str::split` and
//! `str::trim` do.

use vstd::prelude::*;

verus! {

/// Whether `c` has the Unicode `White_Space` property, which is what `char::is_whitespace`
/// and `str::trim` go by.
pub open spec fn is_white_space(c: char) -> bool {
    ||| ('\u{9}' <= c && c <= '\u{D}')
    ||| c == ' '
    ||| c == '\u{85}'
    ||| c == '\u{A0}'
    ||| c == '\u{1680}'
    ||| ('\u{2000}' <= c && c <= '\u{200A}')
    ||| c == '\u{2028}'
    ||| c == '\u{2029}'
    ||| c == '\u{202F}'
    ||| c == '\u{205F}'
    ||| c == '\u{3000}'
}

/// `s` without its leading white space.
pub open spec fn trim_start(s: Seq<char>) -> Seq<char>
    decreases s.len(),
{
    if s.len() > 0 && is_white_space(s[0]) {
        trim_start(s.drop_first())
    } else {
        s
    }
}

/// `s` without its trailing white space.
pub open spec fn trim_end(s: Seq<char>) -> Seq<char>
    decreases s.len(),
{
    if s.len() > 0 && is_white_space(s.last()) {
        trim_end(s.drop_last())
    } else {
        s
    }
}

/// `s` without leading and trailing white space.
pub open spec fn trim(s: Seq<char>) -> Seq<char> {
    trim_end(trim_start(s))
}

/// The pieces of `s` between occurrences of `sep`, in order; there is always one piece more
/// than there are separators.
pub open spec fn split_on(s: Seq<char>, sep: char) -> Seq<Seq<char>>
    decreases s.len(),
{
    if s.len() == 0 {
        seq![Seq::<char>::empty()]
    } else {
        let rest = split_on(s.drop_last(), sep);
        if s.last() == sep {
            rest.push(Seq::<char>::empty())
        } else {
            rest.update(rest.len() - 1, rest.last().push(s.last()))
        }
    }
}

/// The pieces of `s` between occurrences of `sep`, each trimmed of white space.
pub open spec fn split_trimmed(s: Seq<char>, sep: char) -> Seq<Seq<char>> {
    split_on(s, sep).map_values(|p: Seq<char>| trim(p))
}

/// The pieces joined with `sep` between each two of them.
pub open spec fn join_with(pieces: Seq<Seq<char>>, sep: Seq<char>) -> Seq<char>
    decreases pieces.len(),
{
    if pieces.len() == 0 {
        Seq::<char>::empty()
    } else if pieces.len() == 1 {
        pieces[0]
    } else {
        join_with(pieces.drop_last(), sep) + sep + pieces.last()
    }
}

proof fn lemma_split_nonempty(s: Seq<char>, sep: char)
    ensures
        split_on(s, sep).len() >= 1,
    decreases s.len(),
{
    if s.len() > 0 {
        lemma_split_nonempty(s.drop_last(), sep);
    }
}

/// Text without the separator only lengthens the last piece.
proof fn lemma_split_append_plain(s: Seq<char>, t: Seq<char>, sep: char)
    requires
        !t.contains(sep),
    ensures
        split_on(s + t, sep) == split_on(s, sep).update(
            split_on(s, sep).len() - 1,
            split_on(s, sep).last() + t,
        ),
    decreases t.len(),
{
    lemma_split_nonempty(s, sep);
    if t.len() == 0 {
        assert(s + t =~= s);
        assert(split_on(s, sep).last() + t =~= split_on(s, sep).last());
        assert(split_on(s, sep).update(split_on(s, sep).len() - 1, split_on(s, sep).last() + t) =~= split_on(s, sep));
    } else {
        let u = t.drop_last();
        assert(!u.contains(sep)) by {
            if u.contains(sep) {
                let k = choose|k: int| 0 <= k < u.len() && u[k] == sep;
                assert(t[k] == sep);
            }
        }
        assert(t[t.len() - 1] != sep);
        lemma_split_append_plain(s, u, sep);
        assert((s + t).drop_last() =~= s + u);
        assert((s + t).last() == t.last());
        lemma_split_nonempty(s + u, sep);
        let rest = split_on(s + u, sep);
        assert(rest.last().push(t.last()) =~= split_on(s, sep).last() + t);
        assert(split_on(s + t, sep) =~= split_on(s, sep).update(
            split_on(s, sep).len() - 1,
            split_on(s, sep).last() + t,
        ));
    }
}

/// Trimming the front of two joined texts.
proof fn lemma_trim_start_append(p: Seq<char>, q: Seq<char>)
    ensures
        trim_start(p + q) == if trim_start(p).len() == 0 { trim_start(q) } else { trim_start(p) + q },
    decreases p.len(),
{
    if p.len() == 0 {
        assert(p + q =~= q);
    } else if is_white_space(p[0]) {
        assert((p + q).drop_first() =~= p.drop_first() + q);
        lemma_trim_start_append(p.drop_first(), q);
    } else {
        assert((p + q)[0] == p[0]);
    }
}

/// White space at the end does not change a trimmed text.
proof fn lemma_trim_push_white(p: Seq<char>, c: char)
    requires
        is_white_space(c),
    ensures
        trim(p.push(c)) == trim(p),
{
    lemma_trim_start_append(p, seq![c]);
    assert(p.push(c) =~= p + seq![c]);
    assert(seq![c].drop_first() =~= Seq::<char>::empty());
    assert(trim_start(Seq::<char>::empty()) == Seq::<char>::empty());
    assert(seq![c][0] == c);
    assert(trim_start(seq![c]) == trim_start(seq![c].drop_first()));
    assert(trim_start(seq![c]) == Seq::<char>::empty());
    if trim_start(p).len() != 0 {
        assert(trim_start(p) + seq![c] =~= trim_start(p).push(c));
        assert(trim_start(p).push(c).drop_last() =~= trim_start(p));
    }
}

/// White space at the front does not change a trimmed text.
proof fn lemma_trim_prefix_white(c: char, p: Seq<char>)
    requires
        is_white_space(c),
    ensures
        trim(seq![c] + p) == trim(p),
{
    assert((seq![c] + p)[0] == c);
    assert((seq![c] + p).drop_first() =~= p);
}

/// Joining names with `" | "` and splitting the text on `'|'` gives the names back, when
/// no name holds a `'|'` or starts or ends with white space.
pub proof fn law_split_join(names: Seq<Seq<char>>)
    requires
        names.len() > 0,
        forall|i: int| 0 <= i < names.len() ==> !(#[trigger] names[i]).contains('|'),
        forall|i: int| 0 <= i < names.len() ==> trim(#[trigger] names[i]) == names[i],
    ensures
        split_trimmed(join_with(names, " | "@), '|') == names,
    decreases names.len(),
{
    reveal_strlit(" | ");
    if names.len() == 1 {
        lemma_split_append_plain(Seq::<char>::empty(), names[0], '|');
        assert(Seq::<char>::empty() + names[0] =~= names[0]);
        assert(split_on(Seq::<char>::empty(), '|') =~= seq![Seq::<char>::empty()]);
        assert(split_on(names[0], '|') =~= seq![names[0]]);
        assert(split_trimmed(join_with(names, " | "@), '|') =~= names);
    } else {
        let init = names.drop_last();
        let last = names.last();
        assert forall|i: int| 0 <= i < init.len() implies !(#[trigger] init[i]).contains('|') by {
            assert(init[i] == names[i]);
        }
        assert forall|i: int| 0 <= i < init.len() implies trim(#[trigger] init[i]) == init[i] by {
            assert(init[i] == names[i]);
        }
        assert(last == names[names.len() - 1]);
        law_split_join(init);
        let j = join_with(init, " | "@);
        let head = (j + seq![' ']).push('|');
        let tail = seq![' '] + last;
        assert(join_with(names, " | "@) =~= head + tail);
        assert(!tail.contains('|')) by {
            if tail.contains('|') {
                let k = choose|k: int| 0 <= k < tail.len() && tail[k] == '|';
                assert(k > 0);
                assert(last[k - 1] == '|');
            }
        }
        assert(!seq![' '].contains('|')) by {
            assert(seq![' '][0] == ' ');
        }
        lemma_split_append_plain(head, tail, '|');
        assert(head.drop_last() =~= j + seq![' ']);
        lemma_split_nonempty(j + seq![' '], '|');
        lemma_split_append_plain(j, seq![' '], '|');
        lemma_split_nonempty(j, '|');
        let pj = split_on(j, '|');
        let pieces = pj.update(pj.len() - 1, pj.last() + seq![' ']).push(Seq::<char>::empty() + tail);
        assert(split_on(head, '|') =~= pj.update(pj.len() - 1, pj.last() + seq![' ']).push(Seq::<char>::empty()));
        assert(split_on(head + tail, '|') =~= pieces);
        assert(pj.last() + seq![' '] =~= pj.last().push(' '));
        lemma_trim_push_white(pj.last(), ' ');
        lemma_trim_prefix_white(' ', last);
        assert(Seq::<char>::empty() + tail =~= tail);
        assert(split_trimmed(j, '|') == init);
        assert forall|i: int| 0 <= i < names.len() implies #[trigger] split_trimmed(head + tail, '|')[i] == names[i] by {
            if i < names.len() - 1 {
                assert(split_trimmed(j, '|')[i] == trim(pj[i]));
                assert(init[i] == names[i]);
            }
        }
        assert(split_trimmed(head + tail, '|') =~= names);
    }
}

/// Appends one character to a string (`String::push`).
#[verifier::external_body]
pub(crate) fn push_char(s: &mut String, c: char)
    ensures
        final(s)@ == old(s)@.push(c),
{
    s.push(c);
}

/// The characters of `s`, in order.
pub fn text_chars(s: &str) -> (v: Vec<char>)
    ensures
        v@ == s@,
{
    let mut v: Vec<char> = Vec::new();
    for c in it: s.chars()
        invariant
            v@ == it.seq().take(it.index() as int),
            it.seq() == s@,
    {
        v.push(c);
    }
    v
}

/// The string made of `v[from..to]`.
pub fn string_of_range(v: &Vec<char>, from: usize, to: usize) -> (s: String)
    requires
        from <= to <= v.len(),
    ensures
        s@ == v@.subrange(from as int, to as int),
{
    let mut s = String::new();
    let mut i = from;
    while i < to
        invariant
            from <= i <= to <= v.len(),
            s@ == v@.subrange(from as int, i as int),
        decreases to - i,
    {
        push_char(&mut s, v[i]);
        assert(v@.subrange(from as int, i + 1) =~= v@.subrange(from as int, i as int).push(v@[i as int]));
        i = i + 1;
    }
    s
}

/// Whether `c` is white space (`char::is_whitespace`).
pub fn is_white_space_char(c: char) -> (b: bool)
    ensures
        b == is_white_space(c),
{
    ('\u{9}' <= c && c <= '\u{D}') || c == ' ' || c == '\u{85}' || c == '\u{A0}' || c == '\u{1680}'
        || ('\u{2000}' <= c && c <= '\u{200A}') || c == '\u{2028}' || c == '\u{2029}'
        || c == '\u{202F}' || c == '\u{205F}' || c == '\u{3000}'
}

/// The characters `v[from..to]` trimmed of white space, as a string.
pub fn trim_range(v: &Vec<char>, from: usize, to: usize) -> (s: String)
    requires
        from <= to <= v.len(),
    ensures
        s@ == trim(v@.subrange(from as int, to as int)),
{
    let ghost whole = v@.subrange(from as int, to as int);
    let mut a = from;
    while a < to && is_white_space_char(v[a])
        invariant
            from <= a <= to <= v.len(),
            whole == v@.subrange(from as int, to as int),
            trim_start(v@.subrange(a as int, to as int)) == trim_start(whole),
        decreases to - a,
    {
        assert(v@.subrange(a as int, to as int).drop_first() =~= v@.subrange(a + 1, to as int));
        a = a + 1;
    }
    assert(trim_start(whole) == v@.subrange(a as int, to as int)) by {
        if a == to {
            assert(v@.subrange(a as int, to as int).len() == 0);
        }
    }
    let mut b = to;
    while b > a && is_white_space_char(v[b - 1])
        invariant
            from <= a <= b <= to <= v.len(),
            trim_end(v@.subrange(a as int, b as int)) == trim(whole),
            trim_start(whole) == v@.subrange(a as int, to as int),
        decreases b - a,
    {
        assert(v@.subrange(a as int, b as int).drop_last() =~= v@.subrange(a as int, b - 1));
        b = b - 1;
    }
    assert(trim_end(v@.subrange(a as int, b as int)) == v@.subrange(a as int, b as int)) by {
        if a == b {
            assert(v@.subrange(a as int, b as int).len() == 0);
        }
    }
    string_of_range(v, a, b)
}

/// The pieces of `s` between the occurrences of `sep`, each trimmed of white space
/// (`s.split(sep).map(str::trim)`).
pub fn split_and_trim(s: &str, sep: char) -> (pieces: Vec<String>)
    ensures
        pieces@.len() == split_trimmed(s@, sep).len(),
        forall|i: int| 0 <= i < pieces@.len() ==> #[trigger] pieces@[i]@ == split_trimmed(s@, sep)[i],
{
    let v = text_chars(s);
    let n = v.len();
    let mut pieces: Vec<String> = Vec::new();
    let mut start: usize = 0;
    let mut i: usize = 0;
    while i < n
        invariant
            v@ == s@,
            n == v.len(),
            start <= i <= n,
            split_on(v@.take(i as int), sep).len() == pieces@.len() + 1,
            forall|k: int| 0 <= k < pieces@.len() ==> #[trigger] pieces@[k]@ == trim(split_on(v@.take(i as int), sep)[k]),
            split_on(v@.take(i as int), sep).last() == v@.subrange(start as int, i as int),
        decreases n - i,
    {
        let ghost before = split_on(v@.take(i as int), sep);
        assert(v@.take(i + 1).drop_last() =~= v@.take(i as int));
        assert(v@.take(i + 1).last() == v@[i as int]);
        if v[i] == sep {
            pieces.push(trim_range(&v, start, i));
            start = i + 1;
            assert(v@.subrange(start as int, i + 1) =~= Seq::<char>::empty());
        } else {
            assert(v@.subrange(start as int, i + 1) =~= v@.subrange(start as int, i as int).push(v@[i as int]));
        }
        i = i + 1;
    }
    pieces.push(trim_range(&v, start, n));
    assert(v@.take(n as int) =~= v@);
    pieces
}

} // verus!
