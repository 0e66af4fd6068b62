//! Finding the default-route interface in the kernel's IPv4 routing table
//! (the text of `/proc/net/route`: a header line, then one line per route
//! whose first field is the interface and whose second is the destination
//! in hexadecimal).
use vstd::prelude::*;
use crate::text::{chars_of, same_chars, string_of};

verus! {

/// The characters that `char::is_whitespace` accepts: Unicode White_Space.
pub open spec fn is_space(c: char) -> bool {
    c == ' ' || ('\t' <= c && c <= '\r') || c == '\u{85}' || c == '\u{a0}' || c == '\u{1680}' || (
    '\u{2000}' <= c && c <= '\u{200a}') || c == '\u{2028}' || c == '\u{2029}' || c == '\u{202f}'
        || c == '\u{205f}' || c == '\u{3000}'
}

/// The pieces of `s` between newline characters.
pub open spec fn split_lines(s: Seq<char>) -> Seq<Seq<char>>
    decreases s.len(),
{
    if s.len() == 0 {
        seq![Seq::empty()]
    } else {
        let prev = split_lines(s.drop_last());
        if s.last() == '\n' {
            prev.push(Seq::empty())
        } else {
            prev.update(prev.len() - 1, prev.last().push(s.last()))
        }
    }
}

/// The maximal runs of non-whitespace characters of `s`, in order.
pub open spec fn words(s: Seq<char>) -> Seq<Seq<char>>
    decreases s.len(),
{
    if s.len() == 0 {
        seq![]
    } else {
        let prev = words(s.drop_last());
        if is_space(s.last()) {
            prev
        } else if s.len() >= 2 && !is_space(s[s.len() - 2]) {
            prev.update(prev.len() - 1, prev.last().push(s.last()))
        } else {
            prev.push(seq![s.last()])
        }
    }
}

/// The destination field of the default route.
pub open spec fn zero_destination() -> Seq<char> {
    seq!['0', '0', '0', '0', '0', '0', '0', '0']
}

/// A routing-table line whose destination is 0.0.0.0.
pub open spec fn is_default_route(line: Seq<char>) -> bool {
    words(line).len() >= 2 && words(line)[1] == zero_destination()
}

/// Line `k` is the first route line, after the header, to the default destination.
pub open spec fn first_default_route(lines: Seq<Seq<char>>, k: int) -> bool {
    &&& 1 <= k < lines.len()
    &&& is_default_route(lines[k])
    &&& forall|j: int| 1 <= j < k ==> !is_default_route(#[trigger] lines[j])
}

proof fn lemma_split_lines_nonempty(s: Seq<char>)
    ensures
        split_lines(s).len() >= 1,
    decreases s.len(),
{
    if s.len() > 0 {
        lemma_split_lines_nonempty(s.drop_last());
    }
}

proof fn lemma_words_end(s: Seq<char>)
    requires
        s.len() > 0,
        !is_space(s.last()),
    ensures
        words(s).len() >= 1,
    decreases s.len(),
{
    if s.len() >= 2 && !is_space(s[s.len() - 2]) {
        lemma_words_end(s.drop_last());
    }
}

/// The interface of the first route, after the header line, whose
/// destination is 0.0.0.0.
pub fn default_route_interface(table: &str) -> (r: Option<String>)
    ensures
        match r {
            Some(name) => exists|k: int|
                first_default_route(split_lines(table@), k) && name@ == words(split_lines(table@)[k])[0],
            None => forall|k: int|
                1 <= k < split_lines(table@).len() ==> !is_default_route(#[trigger] split_lines(table@)[k]),
        },
{
    let v = chars_of(table);
    let zeros = vec!['0', '0', '0', '0', '0', '0', '0', '0'];
    let mut line_no: usize = 0;
    let mut count: usize = 0;
    let mut first: Vec<char> = Vec::new();
    let mut second: Vec<char> = Vec::new();
    let mut after_space = true;
    let mut j: usize = 0;
    while j < v.len()
        invariant
            j <= v@.len(),
            v@ == table@,
            zeros@ == zero_destination(),
            split_lines(v@.take(j as int)).len() == line_no + 1,
            count == words(split_lines(v@.take(j as int)).last()).len(),
            count >= 1 ==> first@ == words(split_lines(v@.take(j as int)).last())[0],
            count >= 2 ==> second@ == words(split_lines(v@.take(j as int)).last())[1],
            after_space == (split_lines(v@.take(j as int)).last().len() == 0 || is_space(
                split_lines(v@.take(j as int)).last().last(),
            )),
            forall|k: int| 1 <= k < line_no ==> !is_default_route(#[trigger] split_lines(v@.take(j as int))[k]),
            count <= j,
            line_no <= j,
        decreases v@.len() - j,
    {
        let c = v[j];
        let ghost before = split_lines(v@.take(j as int));
        let ghost cur = before.last();
        proof {
            lemma_split_lines_nonempty(v@.take(j as int));
            assert(v@.take(j + 1).drop_last() =~= v@.take(j as int));
            assert(v@.take(j + 1).last() == c);
        }
        if c == '\n' {
            if line_no >= 1 && count >= 2 && same_chars(&second, &zeros) {
                proof {
                    let after = split_lines(v@.take(j + 1));
                    assert(after == before.push(Seq::empty()));
                    assert forall|k: int| 0 <= k <= line_no implies k < split_lines(table@).len() - 1
                        && #[trigger] split_lines(table@)[k] == before[k] by {
                        lemma_lines_prefix(table@, j + 1, k);
                        assert(after[k] == before[k]);
                    }
                    assert(before[line_no as int] == cur);
                    assert(is_default_route(cur));
                    assert(split_lines(table@)[line_no as int] == cur);
                    assert forall|k: int| 1 <= k < line_no implies !is_default_route(
                        #[trigger] split_lines(table@)[k],
                    ) by {
                        assert(split_lines(table@)[k] == before[k]);
                    }
                    assert(first_default_route(split_lines(table@), line_no as int));
                    assert(first@.subrange(0, first@.len() as int) =~= first@);
                }
                return Some(string_of(&first, 0, first.len()));
            }
            line_no = line_no + 1;
            count = 0;
            first = Vec::new();
            second = Vec::new();
            after_space = true;
            proof {
                assert(words(Seq::<char>::empty()).len() == 0);
            }
        } else {
            let ghost line = cur.push(c);
            assert(line.drop_last() =~= cur);
            assert(split_lines(v@.take(j + 1)).last() == line);
            if is_space_char(c) {
                after_space = true;
            } else if after_space {
                count = count + 1;
                if count == 1 {
                    first = vec![c];
                } else if count == 2 {
                    second = vec![c];
                }
                after_space = false;
                proof {
                    assert(words(line) == words(cur).push(seq![c]));
                }
            } else {
                proof {
                    lemma_words_end(cur);
                    assert(words(line) == words(cur).update(words(cur).len() - 1, words(cur).last().push(c)));
                }
                if count == 1 {
                    first.push(c);
                } else if count == 2 {
                    second.push(c);
                }
            }
        }
        j = j + 1;
    }
    proof {
        lemma_split_lines_nonempty(v@.take(j as int));
        assert(v@.take(j as int) =~= table@);
    }
    if line_no >= 1 && count >= 2 && same_chars(&second, &zeros) {
        proof {
            assert(first_default_route(split_lines(table@), line_no as int));
            assert(first@.subrange(0, first@.len() as int) =~= first@);
        }
        return Some(string_of(&first, 0, first.len()));
    }
    None
}

fn is_space_char(c: char) -> (r: bool)
    ensures
        r == is_space(c),
{
    c == ' ' || ('\t' <= c && c <= '\r') || c == '\u{85}' || c == '\u{a0}' || c == '\u{1680}' || (
    '\u{2000}' <= c && c <= '\u{200a}') || c == '\u{2028}' || c == '\u{2029}' || c == '\u{202f}'
        || c == '\u{205f}' || c == '\u{3000}'
}

/// Lines that a prefix of the text completed stand unchanged in the text's
/// own lines.
proof fn lemma_lines_prefix(s: Seq<char>, j: int, k: int)
    requires
        0 <= j <= s.len(),
        0 <= k < split_lines(s.take(j)).len() - 1,
    ensures
        k < split_lines(s).len() - 1,
        split_lines(s)[k] == split_lines(s.take(j))[k],
    decreases s.len() - j,
{
    if j < s.len() {
        lemma_split_lines_nonempty(s.take(j));
        assert(s.take(j + 1).drop_last() =~= s.take(j));
        lemma_lines_prefix(s, j + 1, k);
    } else {
        assert(s.take(j) =~= s);
    }
}

} // verus!
