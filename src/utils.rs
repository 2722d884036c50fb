use crate::time::Timestamp;
use core::cmp::Ordering;
use vstd::prelude::*;

verus! {

/// The color an item gets when none was supplied.
pub open spec fn default_color_spec() -> Seq<char> {
    "#000000"@
}

/// The color an item gets when none was supplied: black.
pub fn default_color() -> (r: String)
    ensures
        r@ == default_color_spec(),
{
    String::from_str("#000000")
}

/// The order of two optional instants: any instant comes after none.
pub open spec fn compare_spec(a: Option<Timestamp>, b: Option<Timestamp>) -> Ordering {
    match (a, b) {
        (Some(x), Some(y)) => if x.before(y) {
            Ordering::Less
        } else if y.before(x) {
            Ordering::Greater
        } else {
            Ordering::Equal
        },
        (Some(_), None) => Ordering::Greater,
        (None, Some(_)) => Ordering::Less,
        (None, None) => Ordering::Equal,
    }
}

/// Compares two optional instants; an absent one is the least.
pub fn compare_optional_datetimes(a: &Option<Timestamp>, b: &Option<Timestamp>) -> (r: Ordering)
    ensures
        r == compare_spec(*a, *b),
{
    match (a, b) {
        (Some(x), Some(y)) => {
            if x.secs < y.secs || (x.secs == y.secs && x.nanos < y.nanos) {
                Ordering::Less
            } else if y.secs < x.secs || (y.secs == x.secs && y.nanos < x.nanos) {
                Ordering::Greater
            } else {
                Ordering::Equal
            }
        },
        (Some(_), None) => Ordering::Greater,
        (None, Some(_)) => Ordering::Less,
        (None, None) => Ordering::Equal,
    }
}

/// Whether `c` has the Unicode `White_Space` property, the test that
/// `char::is_whitespace` makes.
pub open spec fn white_space(c: char) -> bool {
    let u = c as u32;
    (0x9 <= u <= 0xd) || u == 0x20 || u == 0x85 || u == 0xa0 || u == 0x1680 || (0x2000 <= u
        <= 0x200a) || u == 0x2028 || u == 0x2029 || u == 0x202f || u == 0x205f || u == 0x3000
}

/// Whether `c` is white space.
pub fn is_white_space(c: char) -> (r: bool)
    ensures
        r == white_space(c),
{
    let u = c as u32;
    (0x9 <= u && u <= 0xd) || u == 0x20 || u == 0x85 || u == 0xa0 || u == 0x1680 || (0x2000 <= u
        && u <= 0x200a) || u == 0x2028 || u == 0x2029 || u == 0x202f || u == 0x205f || u == 0x3000
}

/// `s` without its leading white space.
pub open spec fn trim_start(s: Seq<char>) -> Seq<char>
    decreases s.len(),
{
    if s.len() > 0 && white_space(s[0]) {
        trim_start(s.drop_first())
    } else {
        s
    }
}

/// `s` without its trailing white space.
pub open spec fn trim_end(s: Seq<char>) -> Seq<char>
    decreases s.len(),
{
    if s.len() > 0 && white_space(s.last()) {
        trim_end(s.drop_last())
    } else {
        s
    }
}

/// `s` without leading and trailing white space.
pub open spec fn trim_spec(s: Seq<char>) -> Seq<char> {
    trim_end(trim_start(s))
}

/// A text that neither starts nor ends with white space.
pub open spec fn is_trimmed(s: Seq<char>) -> bool {
    s.len() == 0 || (!white_space(s[0]) && !white_space(s.last()))
}

/// Removes leading and trailing white space.
pub fn trim(s: &str) -> (r: String)
    ensures
        r@ == trim_spec(s@),
{
    let n = s.unicode_len();
    let mut i: usize = 0;
    assert(s@.subrange(0, n as int) =~= s@);
    loop
        invariant
            n == s@.len(),
            i <= n,
            trim_start(s@) == trim_start(s@.subrange(i as int, n as int)),
        ensures
            trim_start(s@) == s@.subrange(i as int, n as int),
            i <= n,
        decreases n - i,
    {
        if i == n {
            break;
        }
        let c = s.get_char(i);
        if !is_white_space(c) {
            break;
        }
        assert(s@.subrange(i as int, n as int).drop_first() =~= s@.subrange(i + 1, n as int));
        i = i + 1;
    }
    let mut j: usize = n;
    loop
        invariant
            n == s@.len(),
            i <= j <= n,
            trim_end(s@.subrange(i as int, n as int)) == trim_end(s@.subrange(i as int, j as int)),
        ensures
            trim_end(s@.subrange(i as int, n as int)) == s@.subrange(i as int, j as int),
            i <= j <= n,
        decreases j,
    {
        if j == i {
            break;
        }
        let c = s.get_char(j - 1);
        if !is_white_space(c) {
            break;
        }
        assert(s@.subrange(i as int, j as int).drop_last() =~= s@.subrange(i as int, j - 1));
        j = j - 1;
    }
    String::from_str(s.substring_char(i, j))
}

/// The parts of `s` between commas, in order; a text without commas is one
/// part, and the empty text is one empty part.
pub open spec fn split_spec(s: Seq<char>) -> Seq<Seq<char>>
    decreases s.len(),
{
    if s.len() == 0 {
        seq![Seq::empty()]
    } else {
        let init = split_spec(s.drop_last());
        if s.last() == ',' {
            init.push(Seq::empty())
        } else {
            init.update(init.len() - 1, init.last().push(s.last()))
        }
    }
}

/// The tags that a comma-separated text holds: its parts, each trimmed.
pub open spec fn tags_of(s: Seq<char>) -> Seq<Seq<char>> {
    split_spec(s).map_values(|p: Seq<char>| trim_spec(p))
}

/// `parts` with `sep` between each two of them.
pub open spec fn join_spec(parts: Seq<Seq<char>>, sep: Seq<char>) -> Seq<char>
    decreases parts.len(),
{
    if parts.len() == 0 {
        Seq::empty()
    } else if parts.len() == 1 {
        parts[0]
    } else {
        join_spec(parts.drop_last(), sep) + sep + parts.last()
    }
}

/// The views of a list of texts.
pub open spec fn views(list: Seq<String>) -> Seq<Seq<char>> {
    list.map_values(|t: String| t@)
}

/// Every text has at least one part.
proof fn lemma_split_nonempty(s: Seq<char>)
    ensures
        split_spec(s).len() >= 1,
    decreases s.len(),
{
    if s.len() > 0 {
        lemma_split_nonempty(s.drop_last());
    }
}

/// Splits `s` on commas and trims each part.
pub fn split_comma(s: &str) -> (r: Vec<String>)
    ensures
        views(r@) == tags_of(s@),
{
    let n = s.unicode_len();
    let mut out: Vec<String> = Vec::new();
    let mut start: usize = 0;
    let mut i: usize = 0;
    while i < n
        invariant
            n == s@.len(),
            start <= i <= n,
            split_spec(s@.subrange(0, i as int)).len() == out@.len() + 1,
            split_spec(s@.subrange(0, i as int)).last() == s@.subrange(start as int, i as int),
            forall|k: int|
                0 <= k < out@.len() ==> #[trigger] out@[k]@ == trim_spec(
                    split_spec(s@.subrange(0, i as int))[k],
                ),
        decreases n - i,
    {
        let c = s.get_char(i);
        proof {
            assert(s@.subrange(0, i + 1).drop_last() =~= s@.subrange(0, i as int));
            lemma_split_nonempty(s@.subrange(0, i as int));
        }
        if c == ',' {
            let part = trim(s.substring_char(start, i));
            out.push(part);
            start = i + 1;
            assert(s@.subrange(start as int, i + 1) =~= Seq::<char>::empty());
        } else {
            assert(s@.subrange(start as int, i + 1) =~= s@.subrange(start as int, i as int).push(c));
        }
        i = i + 1;
    }
    let last = trim(s.substring_char(start, n));
    out.push(last);
    proof {
        assert(s@.subrange(0, n as int) =~= s@);
        assert(views(out@) =~= tags_of(s@));
    }
    out
}

/// Writes `list` with `sep` between each two of its items.
pub fn join_with(list: &[String], sep: &str) -> (r: String)
    ensures
        r@ == join_spec(views(list@), sep@),
{
    let mut out = String::new();
    let mut i: usize = 0;
    while i < list.len()
        invariant
            i <= list@.len(),
            out@ == join_spec(views(list@).take(i as int), sep@),
        decreases list@.len() - i,
    {
        proof {
            assert(views(list@).take(i + 1).drop_last() =~= views(list@).take(i as int));
        }
        if i > 0 {
            out.append(sep);
        }
        out.append(list[i].as_str());
        proof {
            if i == 0 {
                assert(out@ =~= join_spec(views(list@).take(1), sep@));
            }
        }
        i = i + 1;
    }
    proof {
        assert(views(list@).take(list@.len() as int) =~= views(list@));
    }
    out
}

/// Writes `list` with ", " between each two of its items, the way tags are
/// shown.
pub fn join_comma(list: &[String]) -> (r: String)
    ensures
        r@ == join_spec(views(list@), ", "@),
{
    join_with(list, ", ")
}

/// Appending a text without commas to `x` lengthens the last part.
proof fn lemma_split_append_plain(x: Seq<char>, y: Seq<char>)
    requires
        !y.contains(','),
    ensures
        split_spec(x + y) == split_spec(x).update(
            split_spec(x).len() - 1,
            split_spec(x).last() + y,
        ),
    decreases y.len(),
{
    lemma_split_nonempty(x);
    if y.len() == 0 {
        assert(x + y =~= x);
        assert(split_spec(x).last() + y =~= split_spec(x).last());
        assert(split_spec(x).update(split_spec(x).len() - 1, split_spec(x).last()) =~= split_spec(
            x,
        ));
    } else {
        let y0 = y.drop_last();
        assert(!y0.contains(',')) by {
            if y0.contains(',') {
                let k = choose|k: int| 0 <= k < y0.len() && y0[k] == ',';
                assert(y[k] == ',');
            }
        }
        lemma_split_append_plain(x, y0);
        assert((x + y).drop_last() =~= x + y0);
        assert(y.last() != ',') by {
            assert(y[y.len() - 1] == y.last());
        }
        let sx = split_spec(x);
        let init = split_spec(x + y0);
        assert(init.len() == sx.len());
        assert(init.last() == sx.last() + y0);
        assert((x + y).last() == y.last());
        assert(split_spec(x + y) == init.update(init.len() - 1, init.last().push(y.last())));
        assert(sx.last() + y0 + seq![y.last()] =~= sx.last() + y);
        assert((sx.last() + y0).push(y.last()) =~= sx.last() + y);
        assert(split_spec(x + y) =~= split_spec(x).update(
            split_spec(x).len() - 1,
            split_spec(x).last() + y,
        ));
    }
}

/// A comma followed by a text without commas adds that text as a new part.
proof fn lemma_split_comma_then_plain(x: Seq<char>, y: Seq<char>)
    requires
        !y.contains(','),
    ensures
        split_spec(x + seq![','] + y) == split_spec(x).push(y),
{
    let xc = x + seq![','];
    assert(xc.drop_last() =~= x);
    assert(xc.last() == ',');
    assert(split_spec(xc) == split_spec(x).push(Seq::empty()));
    lemma_split_append_plain(xc, y);
    assert(Seq::<char>::empty() + y =~= y);
    assert(split_spec(xc).update(split_spec(xc).len() - 1, split_spec(xc).last() + y)
        =~= split_spec(x).push(y));
}

/// A trimmed text is its own trimming, also behind one space.
proof fn lemma_trim_trimmed(t: Seq<char>)
    requires
        is_trimmed(t),
    ensures
        trim_spec(t) == t,
        trim_spec(seq![' '] + t) == t,
{
    let st = seq![' '] + t;
    assert(st.drop_first() =~= t);
    assert(white_space(st[0]));
    assert(trim_start(st) == trim_start(t));
}

/// Writing tags with ", " between them and reading the text back gives the
/// same tags, when there is at least one tag and each is trimmed and holds no
/// comma.
pub proof fn lemma_tags_round_trip(tags: Seq<Seq<char>>)
    requires
        tags.len() >= 1,
        forall|k: int| 0 <= k < tags.len() ==> !(#[trigger] tags[k]).contains(','),
        forall|k: int| 0 <= k < tags.len() ==> is_trimmed(#[trigger] tags[k]),
    ensures
        tags_of(join_spec(tags, ", "@)) == tags,
    decreases tags.len(),
{
    reveal_strlit(", ");
    if tags.len() == 1 {
        let t = tags[0];
        lemma_split_append_plain(Seq::empty(), t);
        assert(Seq::<char>::empty() + t =~= t);
        lemma_trim_trimmed(t);
        assert(tags_of(t) =~= tags);
    } else {
        let init = tags.drop_last();
        let t = tags.last();
        assert(t == tags[tags.len() - 1]);
        lemma_tags_round_trip(init);
        let x = join_spec(init, ", "@);
        let y = seq![' '] + t;
        assert(!y.contains(',')) by {
            if y.contains(',') {
                let k = choose|k: int| 0 <= k < y.len() && y[k] == ',';
                assert(t[k - 1] == ',');
            }
        }
        assert(join_spec(tags, ", "@) =~= x + seq![','] + y);
        lemma_split_comma_then_plain(x, y);
        lemma_trim_trimmed(t);
        let sx = split_spec(x);
        let s2 = sx.push(y);
        assert(tags_of(x) == init);
        assert(tags_of(join_spec(tags, ", "@)) == s2.map_values(|p: Seq<char>| trim_spec(p)));
        assert forall|k: int| 0 <= k < tags.len() implies s2.map_values(
            |p: Seq<char>| trim_spec(p),
        )[k] == tags[k] by {
            if k < tags.len() - 1 {
                assert(s2[k] == sx[k]);
                assert(tags_of(x)[k] == trim_spec(sx[k]));
                assert(init[k] == tags[k]);
            } else {
                assert(s2[k] == y);
            }
        }
        assert(s2.map_values(|p: Seq<char>| trim_spec(p)) =~= tags);
    }
}

} // verus!
