use vstd::prelude::*;
use crate::text::chars_of;

verus! {

/// `p` appended to `base` as `Path::join` does it: an absolute `p` replaces
/// `base`, and a separator is put between the two where needed.
pub open spec fn joined(base: Seq<char>, p: Seq<char>) -> Seq<char> {
    if p.len() > 0 && p[0] == '/' {
        p
    } else if base.len() == 0 {
        p
    } else if base.last() == '/' {
        base + p
    } else {
        base + seq!['/'] + p
    }
}

/// The characters after the last separator of `s`.
pub open spec fn tail_segment(s: Seq<char>) -> Seq<char>
    decreases s.len(),
{
    if s.len() == 0 || s.last() == '/' {
        Seq::empty()
    } else {
        tail_segment(s.drop_last()).push(s.last())
    }
}

/// The last component of a path, as `Path::file_name` gives it: trailing
/// separators and `.` components are passed over, and there is none where the
/// path ends in `..` or has no component at all.
pub open spec fn file_name(s: Seq<char>) -> Option<Seq<char>>
    decreases s.len(),
{
    if s.len() == 0 {
        None
    } else if s.last() == '/' {
        file_name(s.drop_last())
    } else {
        let seg = tail_segment(s);
        if seg == seq!['.'] {
            file_name(s.subrange(0, s.len() - 1))
        } else if seg == seq!['.', '.'] {
            None
        } else {
            Some(seg)
        }
    }
}

/// The index of the last `c` in `s`, or -1 where there is none.
pub open spec fn last_index(s: Seq<char>, c: char) -> int
    decreases s.len(),
{
    if s.len() == 0 {
        -1
    } else if s.last() == c {
        s.len() - 1
    } else {
        last_index(s.drop_last(), c)
    }
}

/// A file name without its extension, as `Path::file_stem` gives it: what stands
/// before the last `.`, unless that dot is the first character.
pub open spec fn stem(name: Seq<char>) -> Seq<char> {
    let k = last_index(name, '.');
    if k > 0 {
        name.take(k)
    } else {
        name
    }
}

proof fn lemma_tail_segment(s: Seq<char>)
    ensures
        tail_segment(s).len() <= s.len(),
        tail_segment(s) == s.subrange(s.len() - tail_segment(s).len(), s.len() as int),
        s.len() > 0 && s.last() != '/' ==> tail_segment(s).len() > 0,
        tail_segment(s).len() < s.len() ==> s[s.len() - tail_segment(s).len() - 1] == '/',
        forall|i: int| 0 <= i < tail_segment(s).len() ==> tail_segment(s)[i] != '/',
    decreases s.len(),
{
    if s.len() > 0 && s.last() != '/' {
        lemma_tail_segment(s.drop_last());
        assert(tail_segment(s) =~= s.subrange(s.len() - tail_segment(s).len(), s.len() as int));
    }
}

/// `base` joined with `p`.
pub fn join(base: &str, p: &str) -> (r: String)
    ensures
        r@ == joined(base@, p@),
{
    let pn = p.unicode_len();
    let bn = base.unicode_len();
    if pn > 0 && p.get_char(0) == '/' {
        String::from_str(p)
    } else if bn == 0 {
        String::from_str(p)
    } else if base.get_char(bn - 1) == '/' {
        let mut r = String::from_str(base);
        r.append(p);
        r
    } else {
        let mut r = String::from_str(base);
        r.push('/');
        r.append(p);
        r
    }
}

fn tail_start(cs: &Vec<char>, end: usize) -> (k: usize)
    requires
        end <= cs@.len(),
    ensures
        k <= end,
        cs@.subrange(k as int, end as int) == tail_segment(cs@.take(end as int)),
{
    let mut k = end;
    while k > 0 && cs[k - 1] != '/'
        invariant
            k <= end <= cs@.len(),
            tail_segment(cs@.take(end as int)) == tail_segment(cs@.take(k as int)) + cs@.subrange(k as int, end as int),
        decreases k,
    {
        assert(cs@.take(k as int).drop_last() =~= cs@.take(k - 1));
        assert(cs@.subrange(k - 1, end as int) =~= seq![cs@[k - 1]] + cs@.subrange(k as int, end as int));
        assert(tail_segment(cs@.take(k as int)) == tail_segment(cs@.take(k - 1)).push(cs@[k - 1]));
        assert(tail_segment(cs@.take(k - 1)).push(cs@[k - 1]) + cs@.subrange(k as int, end as int)
            =~= tail_segment(cs@.take(k - 1)) + cs@.subrange(k - 1, end as int));
        k = k - 1;
    }
    assert(tail_segment(cs@.take(k as int)) =~= Seq::<char>::empty());
    assert(Seq::<char>::empty() + cs@.subrange(k as int, end as int) =~= cs@.subrange(k as int, end as int));
    k
}

/// The bounds, within `cs[..end]`, of the path's last component.
fn file_name_bounds(cs: &Vec<char>, end: usize) -> (r: Option<(usize, usize)>)
    requires
        end <= cs@.len(),
    ensures
        match r {
            None => file_name(cs@.take(end as int)) is None,
            Some((lo, hi)) => lo <= hi <= end && file_name(cs@.take(end as int)) == Some(
                cs@.subrange(lo as int, hi as int),
            ),
        },
    decreases end,
{
    let ghost s = cs@.take(end as int);
    if end == 0 {
        None
    } else if cs[end - 1] == '/' {
        assert(s.drop_last() =~= cs@.take(end - 1));
        file_name_bounds(cs, end - 1)
    } else {
        let k = tail_start(cs, end);
        proof {
            lemma_tail_segment(s);
        }
        let len = end - k;
        if len == 1 && cs[k] == '.' {
            assert(tail_segment(s) =~= seq!['.']);
            assert(s.subrange(0, s.len() - 1) =~= cs@.take(k as int));
            file_name_bounds(cs, k)
        } else if len == 2 && cs[k] == '.' && cs[k + 1] == '.' {
            assert(tail_segment(s) =~= seq!['.', '.']);
            None
        } else {
            assert(tail_segment(s) != seq!['.']) by {
                if len == 1 {
                    assert(tail_segment(s)[0] == cs@[k as int]);
                }
            }
            assert(tail_segment(s) != seq!['.', '.']) by {
                if len == 2 {
                    assert(tail_segment(s)[0] == cs@[k as int]);
                    assert(tail_segment(s)[1] == cs@[k + 1]);
                }
            }
            Some((k, end))
        }
    }
}

/// Whether the path `p` has a last component (`Path::file_name` is `Some`).
pub fn has_file_name(p: &str) -> (r: bool)
    ensures
        r == file_name(p@) is Some,
{
    let cs = chars_of(p);
    assert(cs@.take(cs@.len() as int) =~= cs@);
    file_name_bounds(&cs, cs.len()).is_some()
}

/// The index of the last `c` in `cs[..end]`, or `end` where there is none.
fn find_last(cs: &Vec<char>, end: usize, c: char) -> (k: usize)
    requires
        end <= cs@.len(),
    ensures
        k <= end,
        k == end <==> last_index(cs@.take(end as int), c) == -1,
        k < end ==> k == last_index(cs@.take(end as int), c),
{
    let mut j = end;
    while j > 0 && cs[j - 1] != c
        invariant
            j <= end <= cs@.len(),
            last_index(cs@.take(end as int), c) == last_index(cs@.take(j as int), c),
        decreases j,
    {
        assert(cs@.take(j as int).drop_last() =~= cs@.take(j - 1));
        j = j - 1;
    }
    if j == 0 {
        end
    } else {
        j - 1
    }
}

/// Appends the stem of the file name `cs[lo..hi]` to `out`.
fn push_stem(out: &mut String, cs: &Vec<char>, lo: usize, hi: usize)
    requires
        lo <= hi <= cs@.len(),
    ensures
        final(out)@ == old(out)@ + stem(cs@.subrange(lo as int, hi as int)),
{
    let ghost name = cs@.subrange(lo as int, hi as int);
    let mut seg: Vec<char> = Vec::new();
    let mut i = lo;
    while i < hi
        invariant
            lo <= i <= hi <= cs@.len(),
            seg@ == cs@.subrange(lo as int, i as int),
        decreases hi - i,
    {
        seg.push(cs[i]);
        assert(seg@ =~= cs@.subrange(lo as int, i + 1));
        i = i + 1;
    }
    assert(seg@.take(seg@.len() as int) =~= name);
    assert(seg@ =~= name);
    let k = find_last(&seg, seg.len(), '.');
    let end = if k > 0 && k < seg.len() { k } else { seg.len() };
    let ghost start = out@;
    let mut j: usize = 0;
    while j < end
        invariant
            j <= end <= seg@.len(),
            out@ == start + seg@.take(j as int),
        decreases end - j,
    {
        out.push(seg[j]);
        assert(seg@.take(j + 1) =~= seg@.take(j as int).push(seg@[j as int]));
        j = j + 1;
    }
    assert(seg@.take(seg@.len() as int) =~= seg@);
    let ghost li = last_index(name, '.');
    assert(last_index(seg@.take(seg@.len() as int), '.') == li);
    proof {
    if li > 0 {
        assert(end == li);
        assert(out@ == start + name.take(li));
    } else {
        assert(end == seg@.len());
        assert(out@ =~= start + name);
    }
    }
}

/// The stem of the path's last component, where it has one.
pub fn file_stem(p: &str) -> (r: Option<String>)
    ensures
        match file_name(p@) {
            None => r is None,
            Some(name) => r matches Some(s) && s@ == stem(name),
        },
{
    let cs = chars_of(p);
    assert(cs@.take(cs@.len() as int) =~= cs@);
    match file_name_bounds(&cs, cs.len()) {
        None => None,
        Some((lo, hi)) => {
            let mut out = String::new();
            push_stem(&mut out, &cs, lo, hi);
            assert(out@ =~= stem(cs@.subrange(lo as int, hi as int)));
            Some(out)
        },
    }
}

} // verus!
