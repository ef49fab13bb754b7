use vstd::prelude::*;
use vstd::string::*;

verus! {

/// The characters of each string of a sequence.
pub open spec fn texts(strings: Seq<String>) -> Seq<Seq<char>> {
    Seq::new(strings.len(), |i: int| strings[i]@)
}

/// The characters of a string that may be absent.
pub open spec fn optional_text(text: Option<String>) -> Option<Seq<char>> {
    match text {
        Some(text) => Some(text@),
        None => None,
    }
}

/// Whether two strings hold the same characters.
pub fn same_text(a: &str, b: &str) -> (same: bool)
    ensures
        same == (a@ == b@),
{
    let left = a.to_owned();
    let right = b.to_owned();
    left == right
}

/// `a` followed by `b`.
pub fn joined_text(a: &str, b: &str) -> (joined: String)
    ensures
        joined@ == a@ + b@,
{
    let mut joined = a.to_owned();
    joined.append(b);
    joined
}

/// How a relative name is placed under a directory: a name that starts with
/// `/` stands alone, an empty directory or one that ends in `/` takes the name
/// directly, and any other directory takes `/` and then the name.
pub open spec fn join_path_spec(base: Seq<char>, name: Seq<char>) -> Seq<char> {
    if name.len() > 0 && name[0] == '/' {
        name
    } else if base.len() == 0 || base.last() == '/' {
        base + name
    } else {
        base + seq!['/'] + name
    }
}

/// Joins `name` to the directory `base`.
pub fn join_path(base: &str, name: &str) -> (joined: String)
    ensures
        joined@ == join_path_spec(base@, name@),
{
    let name_len = name.unicode_len();
    if name_len > 0 && name.get_char(0) == '/' {
        return name.to_owned();
    }
    let base_len = base.unicode_len();
    if base_len == 0 || base.get_char(base_len - 1) == '/' {
        joined_text(base, name)
    } else {
        proof {
            reveal_strlit("/");
            assert("/"@ =~= seq!['/']);
        }
        let rooted = joined_text(base, "/");
        joined_text(rooted.as_str(), name)
    }
}

/// The characters with the Unicode property White_Space.
pub open spec fn is_white_space_spec(c: char) -> bool {
    let code = c as u32;
    ||| 0x9 <= code <= 0xd
    ||| code == 0x20
    ||| code == 0x85
    ||| code == 0xa0
    ||| code == 0x1680
    ||| 0x2000 <= code <= 0x200a
    ||| code == 0x2028
    ||| code == 0x2029
    ||| code == 0x202f
    ||| code == 0x205f
    ||| code == 0x3000
}

/// Whether a character has the Unicode property White_Space.
#[verifier::when_used_as_spec(is_white_space_spec)]
pub fn is_white_space(c: char) -> (white: bool)
    ensures
        white == is_white_space_spec(c),
{
    let code: u32 = c as u32;
    (0x9 <= code && code <= 0xd) || code == 0x20 || code == 0x85 || code == 0xa0 || code == 0x1680
        || (0x2000 <= code && code <= 0x200a) || code == 0x2028 || code == 0x2029 || code
        == 0x202f || code == 0x205f || code == 0x3000
}

/// How many white-space characters a text starts with.
pub open spec fn leading(text: Seq<char>) -> nat
    decreases text.len(),
{
    if text.len() > 0 && is_white_space_spec(text[0]) {
        1 + leading(text.drop_first())
    } else {
        0
    }
}

/// How many white-space characters a text ends with.
pub open spec fn trailing(text: Seq<char>) -> nat
    decreases text.len(),
{
    if text.len() > 0 && is_white_space_spec(text.last()) {
        1 + trailing(text.drop_last())
    } else {
        0
    }
}

/// A text without the white space it starts and ends with.
pub open spec fn trimmed(text: Seq<char>) -> Seq<char> {
    let rest = text.skip(leading(text) as int);
    rest.take(rest.len() - trailing(rest))
}

/// Removes the white space that a text starts and ends with.
pub fn trim(text: &str) -> (kept: String)
    ensures
        kept@ == trimmed(text@),
{
    let len = text.unicode_len();
    let mut start: usize = 0;
    assert(text@.skip(0) =~= text@);
    while start < len && is_white_space(text.get_char(start))
        invariant
            start <= len,
            len == text@.len(),
            leading(text@) == start + leading(text@.skip(start as int)),
        decreases len - start,
    {
        assert(text@.skip(start as int).drop_first() =~= text@.skip(start + 1));
        start += 1;
    }
    let ghost rest = text@.skip(start as int);
    assert(leading(rest) == 0);
    let mut end: usize = len;
    assert(rest.take(rest.len() as int) =~= rest);
    while end > start && is_white_space(text.get_char(end - 1))
        invariant
            start <= end <= len,
            len == text@.len(),
            rest == text@.skip(start as int),
            trailing(rest) == (len - end) + trailing(rest.take(end - start)),
        decreases end,
    {
        assert(rest.take(end - start).drop_last() =~= rest.take(end - 1 - start));
        assert(rest.take(end - start).last() == text@[end - 1]);
        end -= 1;
    }
    assert(trailing(rest.take(end - start)) == 0) by {
        if end > start {
            assert(rest.take(end - start).last() == text@[end - 1]);
        }
    }
    assert(rest.take(rest.len() - trailing(rest)) =~= text@.subrange(start as int, end as int));
    text.substring_char(start, end).to_owned()
}

} // verus!
