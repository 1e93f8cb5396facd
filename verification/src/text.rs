//! Text operations, specified over sequences of characters.

use vstd::prelude::*;
use vstd::string::StringExecFns;
use vstd::string::StrSliceExecFns;

verus! {

/// `String::push` appends one character.
pub assume_specification[ std::string::String::push ](s: &mut String, c: char)
    ensures
        final(s)@ == old(s)@.push(c),
;

/// What `str::to_lowercase` makes of a text: its lowercase form by the Unicode
/// mapping, which may be longer or shorter than the text itself.
pub uninterp spec fn unicode_lowercase(text: Seq<char>) -> Seq<char>;

/// `str::to_lowercase` is a function of the text alone; the mapping is named, not
/// spelled out.
pub assume_specification[ str::to_lowercase ](s: &str) -> (lower: String)
    ensures
        lower@ == unicode_lowercase(s@),
;

/// Characters with the Unicode property `White_Space`.
pub open spec fn is_whitespace(c: char) -> bool {
    let n = c as int;
    ||| 0x9 <= n <= 0xd
    ||| n == 0x20
    ||| n == 0x85
    ||| n == 0xa0
    ||| n == 0x1680
    ||| 0x2000 <= n <= 0x200a
    ||| n == 0x2028
    ||| n == 0x2029
    ||| n == 0x202f
    ||| n == 0x205f
    ||| n == 0x3000
}

/// `s` without the longest prefix whose characters all satisfy `dropped`.
pub open spec fn trim_start(s: Seq<char>, dropped: spec_fn(char) -> bool) -> Seq<char>
    decreases s.len(),
{
    if s.len() > 0 && dropped(s.first()) {
        trim_start(s.drop_first(), dropped)
    } else {
        s
    }
}

/// `s` without the longest suffix whose characters all satisfy `dropped`.
pub open spec fn trim_end(s: Seq<char>, dropped: spec_fn(char) -> bool) -> Seq<char>
    decreases s.len(),
{
    if s.len() > 0 && dropped(s.last()) {
        trim_end(s.drop_last(), dropped)
    } else {
        s
    }
}

/// `s` without the white space around it.
pub open spec fn trimmed(s: Seq<char>) -> Seq<char> {
    trim_end(trim_start(s, |c: char| is_whitespace(c)), |c: char| is_whitespace(c))
}

/// What `trim_start` leaves is the end of the text from its first character that stays.
proof fn lemma_trim_start(s: Seq<char>, dropped: spec_fn(char) -> bool)
    ensures
        trim_start(s, dropped).len() <= s.len(),
        trim_start(s, dropped) == s.skip(s.len() - trim_start(s, dropped).len()),
        trim_start(s, dropped).len() > 0 ==> !dropped(trim_start(s, dropped).first()),
    decreases s.len(),
{
    if s.len() > 0 && dropped(s.first()) {
        let rest = trim_start(s.drop_first(), dropped);
        lemma_trim_start(s.drop_first(), dropped);
        assert(s.drop_first().skip(s.len() - 1 - rest.len()) =~= s.skip(s.len() - rest.len()));
    } else {
        assert(s.skip(0) =~= s);
    }
}

/// What `trim_end` leaves is the start of the text up to its last character that stays.
proof fn lemma_trim_end(s: Seq<char>, dropped: spec_fn(char) -> bool)
    ensures
        trim_end(s, dropped).len() <= s.len(),
        trim_end(s, dropped) == s.take(trim_end(s, dropped).len() as int),
        trim_end(s, dropped).len() > 0 ==> !dropped(trim_end(s, dropped).last()),
    decreases s.len(),
{
    if s.len() > 0 && dropped(s.last()) {
        let rest = trim_end(s.drop_last(), dropped);
        lemma_trim_end(s.drop_last(), dropped);
        assert(s.drop_last().take(rest.len() as int) =~= s.take(rest.len() as int));
    } else {
        assert(s.take(s.len() as int) =~= s);
    }
}

/// A trimmed text has no white space around it: to trim it again changes nothing.
pub proof fn law_trimmed_stays(s: Seq<char>)
    ensures
        trimmed(trimmed(s)) == trimmed(s),
        trimmed(s).len() > 0 ==> !is_whitespace(trimmed(s).first()) && !is_whitespace(
            trimmed(s).last(),
        ),
{
    let blank = |c: char| is_whitespace(c);
    let rest = trim_start(s, blank);
    lemma_trim_start(s, blank);
    lemma_trim_end(rest, blank);
}

/// The characters of a text, in order.
pub fn chars_of(text: &str) -> (chars: Vec<char>)
    ensures
        chars@ == text@,
{
    let mut chars: Vec<char> = Vec::new();
    for c in iter: text.chars()
        invariant
            chars@ == iter.seq().take(iter.index() as int),
            iter.seq() == text@,
    {
        proof {
            assert(iter.seq().take(iter.index() + 1) =~= iter.seq().take(
                iter.index() as int,
            ).push(c));
        }
        chars.push(c);
    }
    proof {
        assert(text@.take(text@.len() as int) =~= text@);
    }
    chars
}

/// Tells whether two texts are the same.
pub fn same_text(left: &str, right: &str) -> (same: bool)
    ensures
        same == (left@ == right@),
{
    left.to_owned() == right.to_owned()
}

fn whitespace(c: char) -> (yes: bool)
    ensures
        yes == is_whitespace(c),
{
    let n: u32 = c as u32;
    (0x9 <= n && n <= 0xd) || n == 0x20 || n == 0x85 || n == 0xa0 || n == 0x1680 || (0x2000 <= n
        && n <= 0x200a) || n == 0x2028 || n == 0x2029 || n == 0x202f || n == 0x205f || n == 0x3000
}

/// The text without the white space around it.
pub fn trim(text: &str) -> (inner: String)
    ensures
        inner@ == trimmed(text@),
{
    let chars = chars_of(text);
    let ghost dropped = |c: char| is_whitespace(c);
    let mut start: usize = 0;
    proof {
        assert(chars@.skip(0) =~= chars@);
    }
    while start < chars.len() && whitespace(chars[start])
        invariant
            start <= chars.len(),
            dropped == |c: char| is_whitespace(c),
            trim_start(chars@.skip(start as int), dropped) == trim_start(chars@, dropped),
        decreases chars.len() - start,
    {
        proof {
            assert(chars@.skip(start as int).drop_first() =~= chars@.skip(start + 1));
        }
        start = start + 1;
    }
    let mut end: usize = chars.len();
    proof {
        assert(chars@.subrange(start as int, end as int) =~= chars@.skip(start as int));
    }
    while start < end && whitespace(chars[end - 1])
        invariant
            start <= end <= chars.len(),
            dropped == |c: char| is_whitespace(c),
            trim_end(chars@.subrange(start as int, end as int), dropped) == trim_end(
                chars@.skip(start as int),
                dropped,
            ),
        decreases end,
    {
        proof {
            assert(chars@.subrange(start as int, end as int).drop_last() =~= chars@.subrange(
                start as int,
                end - 1,
            ));
        }
        end = end - 1;
    }
    text.substring_char(start, end).to_owned()
}

/// The text without the `c` characters at its start.
pub fn trim_start_char(text: &str, c: char) -> (rest: String)
    ensures
        rest@ == trim_start(text@, |d: char| d == c),
{
    let chars = chars_of(text);
    let ghost dropped = |d: char| d == c;
    let mut start: usize = 0;
    proof {
        assert(chars@.skip(0) =~= chars@);
    }
    while start < chars.len() && chars[start] == c
        invariant
            start <= chars.len(),
            dropped == |d: char| d == c,
            trim_start(chars@.skip(start as int), dropped) == trim_start(chars@, dropped),
        decreases chars.len() - start,
    {
        proof {
            assert(chars@.skip(start as int).drop_first() =~= chars@.skip(start + 1));
        }
        start = start + 1;
    }
    proof {
        assert(chars@.subrange(start as int, chars@.len() as int) =~= chars@.skip(start as int));
    }
    text.substring_char(start, chars.len()).to_owned()
}

/// The text without the `c` characters at its end.
pub fn trim_end_char(text: &str, c: char) -> (rest: String)
    ensures
        rest@ == trim_end(text@, |d: char| d == c),
{
    let chars = chars_of(text);
    let ghost dropped = |d: char| d == c;
    let mut end: usize = chars.len();
    proof {
        assert(chars@.take(end as int) =~= chars@);
    }
    while end > 0 && chars[end - 1] == c
        invariant
            end <= chars.len(),
            dropped == |d: char| d == c,
            trim_end(chars@.take(end as int), dropped) == trim_end(chars@, dropped),
        decreases end,
    {
        proof {
            assert(chars@.take(end as int).drop_last() =~= chars@.take(end - 1));
        }
        end = end - 1;
    }
    proof {
        assert(chars@.subrange(0, end as int) =~= chars@.take(end as int));
    }
    text.substring_char(0, end).to_owned()
}

/// The pieces of `s` between the `separator` characters; never none, and one more
/// than there are separators.
pub open spec fn split_at(s: Seq<char>, separator: char) -> Seq<Seq<char>>
    decreases s.len(),
{
    if s.len() == 0 {
        seq![Seq::<char>::empty()]
    } else {
        let before = split_at(s.drop_last(), separator);
        if s.last() == separator {
            before.push(Seq::<char>::empty())
        } else {
            before.drop_last().push(before.last().push(s.last()))
        }
    }
}

/// The pieces of the text between the `separator` characters.
pub fn split(text: &str, separator: char) -> (pieces: Vec<String>)
    ensures
        pieces.deep_view() == split_at(text@, separator),
{
    let chars = chars_of(text);
    let mut pieces: Vec<String> = Vec::new();
    let mut piece = String::new();
    let mut i: usize = 0;
    proof {
        assert(pieces.deep_view().push(piece@) =~= split_at(chars@.take(0), separator));
    }
    while i < chars.len()
        invariant
            i <= chars.len(),
            pieces.deep_view().push(piece@) =~= split_at(chars@.take(i as int), separator),
        decreases chars.len() - i,
    {
        let c = chars[i];
        let ghost before = pieces.deep_view().push(piece@);
        proof {
            assert(chars@.take(i + 1).drop_last() =~= chars@.take(i as int));
            assert(before.drop_last() =~= pieces.deep_view());
        }
        if c == separator {
            let ghost done = pieces.deep_view();
            pieces.push(piece);
            piece = String::new();
            proof {
                assert(pieces.deep_view() =~= before);
            }
        } else {
            piece.push(c);
        }
        i = i + 1;
    }
    let ghost done = pieces.deep_view().push(piece@);
    pieces.push(piece);
    proof {
        assert(chars@.take(i as int) =~= chars@);
        assert(pieces.deep_view() =~= done);
    }
    pieces
}

/// `parts` one after the other with `separator` between each two.
pub open spec fn joined(parts: Seq<Seq<char>>, separator: Seq<char>) -> Seq<char>
    decreases parts.len(),
{
    if parts.len() == 0 {
        Seq::empty()
    } else if parts.len() == 1 {
        parts[0]
    } else {
        joined(parts.drop_last(), separator) + separator + parts.last()
    }
}

/// The parts one after the other with `separator` between each two.
pub fn join(parts: &Vec<String>, separator: &str) -> (text: String)
    ensures
        text@ == joined(parts.deep_view(), separator@),
{
    let mut text = String::new();
    let mut i: usize = 0;
    let ghost views = parts.deep_view();
    while i < parts.len()
        invariant
            i <= parts.len(),
            views == parts.deep_view(),
            text@ == joined(views.take(i as int), separator@),
        decreases parts.len() - i,
    {
        proof {
            assert(views.take(i + 1).drop_last() =~= views.take(i as int));
        }
        if i > 0 {
            text.append(separator);
        }
        text.append(parts[i].as_str());
        proof {
            assert(i == 0 ==> text@ =~= views[0]);
        }
        i = i + 1;
    }
    proof {
        assert(views.take(i as int) =~= views);
    }
    text
}

/// `c` with the letters `A` to `Z` made small, any other character unchanged.
pub open spec fn ascii_lower(c: char) -> char {
    if 'A' as int <= c as int <= 'Z' as int {
        (c as int + 32) as char
    } else {
        c
    }
}

/// `s` with the letters `A` to `Z` made small.
pub open spec fn lowercase_ascii(s: Seq<char>) -> Seq<char> {
    s.map_values(|c: char| ascii_lower(c))
}

fn lower_char(c: char) -> (lower: char)
    ensures
        lower == ascii_lower(c),
{
    let n: u32 = c as u32;
    if 65 <= n && n <= 90 {
        (n as u8 + 32) as char
    } else {
        c
    }
}

/// The text with the letters `A` to `Z` made small.
pub fn to_ascii_lowercase(text: &str) -> (lower: String)
    ensures
        lower@ == lowercase_ascii(text@),
{
    let chars = chars_of(text);
    let mut lower = String::new();
    let mut i: usize = 0;
    while i < chars.len()
        invariant
            i <= chars.len(),
            lower@ =~= lowercase_ascii(chars@.take(i as int)),
        decreases chars.len() - i,
    {
        let c = lower_char(chars[i]);
        lower.push(c);
        i = i + 1;
    }
    proof {
        assert(chars@.take(i as int) =~= chars@);
    }
    lower
}

/// `s` holds `part` as a run of neighbouring characters.
pub open spec fn contains_text(s: Seq<char>, part: Seq<char>) -> bool {
    exists|i: int| occurs_at(s, part, i)
}

/// `part` stands in `s` from position `i` on.
pub open spec fn occurs_at(s: Seq<char>, part: Seq<char>, i: int) -> bool {
    0 <= i && i + part.len() <= s.len() && s.subrange(i, i + part.len()) == part
}

/// A text holds itself.
pub proof fn law_text_holds_itself(s: Seq<char>)
    ensures
        contains_text(s, s),
{
    assert(s.subrange(0, s.len() as int) =~= s);
    assert(occurs_at(s, s, 0));
}

fn matches_at(chars: &Vec<char>, part: &Vec<char>, start: usize) -> (yes: bool)
    requires
        start + part.len() <= chars.len(),
    ensures
        yes == occurs_at(chars@, part@, start as int),
{
    let mut i: usize = 0;
    while i < part.len()
        invariant
            i <= part.len(),
            start + part.len() <= chars.len(),
            forall|k: int| 0 <= k < i ==> chars@[start + k] == part@[k],
        decreases part.len() - i,
    {
        if chars[start + i] != part[i] {
            proof {
                assert(chars@.subrange(start as int, start + part@.len())[i as int] != part@[i as int]);
            }
            return false;
        }
        i = i + 1;
    }
    proof {
        assert(chars@.subrange(start as int, start + part@.len()) =~= part@);
    }
    true
}

/// Tells whether the text holds `part` as a run of neighbouring characters.
pub fn contains(text: &str, part: &str) -> (yes: bool)
    ensures
        yes == contains_text(text@, part@),
{
    let chars = chars_of(text);
    let wanted = chars_of(part);
    if chars.len() < wanted.len() {
        return false;
    }
    let last: usize = chars.len() - wanted.len();
    let mut i: usize = 0;
    while i < last
        invariant
            i <= last,
            last == chars.len() - wanted.len(),
            chars@ == text@,
            wanted@ == part@,
            forall|k: int| 0 <= k < i ==> !occurs_at(text@, part@, k),
        decreases last - i,
    {
        if matches_at(&chars, &wanted, i) {
            return true;
        }
        i = i + 1;
    }
    let found = matches_at(&chars, &wanted, last);
    proof {
        if !found {
            assert forall|k: int| !occurs_at(text@, part@, k) by {
                if occurs_at(text@, part@, k) {
                    assert(0 <= k < last || k == last);
                }
            }
        }
    }
    found
}

/// Tells whether the character occurs in the text.
pub fn contains_char(text: &str, c: char) -> (yes: bool)
    ensures
        yes == text@.contains(c),
{
    let chars = chars_of(text);
    let mut i: usize = 0;
    while i < chars.len()
        invariant
            i <= chars.len(),
            chars@ == text@,
            forall|k: int| 0 <= k < i ==> chars@[k] != c,
        decreases chars.len() - i,
    {
        if chars[i] == c {
            proof {
                assert(text@[i as int] == c);
            }
            return true;
        }
        i = i + 1;
    }
    false
}

/// What stands before the first `separator` of `s`; nothing where there is none.
pub open spec fn before_first(s: Seq<char>, separator: char) -> Option<Seq<char>>
    decreases s.len(),
{
    if s.len() == 0 {
        None
    } else if s.first() == separator {
        Some(Seq::empty())
    } else {
        match before_first(s.drop_first(), separator) {
            Some(rest) => Some(seq![s.first()] + rest),
            None => None,
        }
    }
}

/// `before_first` is the piece up to the first separator.
pub proof fn lemma_before_first(s: Seq<char>, separator: char, i: int)
    requires
        0 <= i <= s.len(),
        forall|k: int| 0 <= k < i ==> s[k] != separator,
        i < s.len() ==> s[i] == separator,
    ensures
        before_first(s, separator) == (if i < s.len() {
            Some(s.take(i))
        } else {
            None
        }),
    decreases s.len(),
{
    if s.len() > 0 && i > 0 {
        let rest = s.drop_first();
        assert(forall|k: int| 0 <= k < i - 1 ==> rest[k] == s[k + 1]);
        lemma_before_first(rest, separator, i - 1);
        if i < s.len() {
            assert(seq![s.first()] + rest.take(i - 1) =~= s.take(i));
        }
    } else if s.len() > 0 {
        assert(s.take(0) =~= Seq::<char>::empty());
    }
}

/// The part of the text before its first `separator`, if it has one.
pub fn prefix_before(text: &str, separator: char) -> (prefix: Option<&str>)
    ensures
        prefix.deep_view() == before_first(text@, separator),
{
    let chars = chars_of(text);
    let mut i: usize = 0;
    while i < chars.len()
        invariant
            i <= chars.len(),
            chars@ == text@,
            forall|k: int| 0 <= k < i ==> chars@[k] != separator,
        decreases chars.len() - i,
    {
        if chars[i] == separator {
            proof {
                lemma_before_first(text@, separator, i as int);
                assert(text@.subrange(0, i as int) =~= text@.take(i as int));
            }
            return Some(text.substring_char(0, i));
        }
        i = i + 1;
    }
    proof {
        lemma_before_first(text@, separator, i as int);
    }
    None
}

/// `s` with `replacement` in the place of each `c`.
pub open spec fn replaced(s: Seq<char>, c: char, replacement: Seq<char>) -> Seq<char>
    decreases s.len(),
{
    if s.len() == 0 {
        Seq::empty()
    } else {
        replaced(s.drop_last(), c, replacement) + (if s.last() == c {
            replacement
        } else {
            seq![s.last()]
        })
    }
}

/// Characters are replaced one by one.
pub proof fn lemma_replaced_concat(
    left: Seq<char>,
    right: Seq<char>,
    c: char,
    replacement: Seq<char>,
)
    ensures
        replaced(left + right, c, replacement) == replaced(left, c, replacement) + replaced(
            right,
            c,
            replacement,
        ),
    decreases right.len(),
{
    if right.len() == 0 {
        assert(left + right =~= left);
        assert(replaced(left, c, replacement) + Seq::<char>::empty() =~= replaced(
            left,
            c,
            replacement,
        ));
    } else {
        lemma_replaced_concat(left, right.drop_last(), c, replacement);
        assert((left + right).drop_last() =~= left + right.drop_last());
        assert(replaced(left + right, c, replacement) =~= replaced(left, c, replacement)
            + replaced(right, c, replacement));
    }
}

/// A text grows by one character for each that a replacement of two takes the place of.
pub proof fn lemma_replaced_len(s: Seq<char>, c: char, replacement: Seq<char>)
    requires
        replacement.len() == 2,
    ensures
        replaced(s, c, replacement).len() == s.len() + s.filter(|x: char| x == c).len(),
    decreases s.len(),
{
    reveal(Seq::filter);
    if s.len() > 0 {
        lemma_replaced_len(s.drop_last(), c, replacement);
    }
}

/// Another character that the replacement does not hold occurs as often as before.
pub proof fn lemma_replaced_keeps(s: Seq<char>, c: char, replacement: Seq<char>, other: char)
    requires
        other != c,
        !replacement.contains(other),
    ensures
        replaced(s, c, replacement).filter(|x: char| x == other).len() == s.filter(
            |x: char| x == other,
        ).len(),
    decreases s.len(),
{
    let kept = |x: char| x == other;
    reveal(Seq::filter);
    if s.len() > 0 {
        lemma_replaced_keeps(s.drop_last(), c, replacement, other);
        let before = replaced(s.drop_last(), c, replacement);
        if s.last() == c {
            Seq::<char>::filter_distributes_over_add(before, replacement, kept);
            let found = replacement.filter(kept);
            if found.len() > 0 {
                replacement.lemma_filter_pred(kept, 0);
                replacement.lemma_filter_contains_rev(kept, found[0]);
            }
        } else {
            assert(before + seq![s.last()] =~= before.push(s.last()));
            assert(before.push(s.last()).drop_last() =~= before);
        }
    }
}

/// The text with `replacement` in the place of each `c`.
pub fn replace_char(text: &str, c: char, replacement: &str) -> (result: String)
    ensures
        result@ == replaced(text@, c, replacement@),
{
    let chars = chars_of(text);
    let mut result = String::new();
    let mut i: usize = 0;
    while i < chars.len()
        invariant
            i <= chars.len(),
            result@ == replaced(chars@.take(i as int), c, replacement@),
        decreases chars.len() - i,
    {
        let ghost before = result@;
        proof {
            assert(chars@.take(i + 1).drop_last() =~= chars@.take(i as int));
        }
        if chars[i] == c {
            result.append(replacement);
        } else {
            result.push(chars[i]);
            proof {
                assert(result@ =~= before + seq![chars@[i as int]]);
            }
        }
        i = i + 1;
    }
    proof {
        assert(chars@.take(i as int) =~= chars@);
    }
    result
}

/// The decimal digits of `n`, without leading zeros.
pub open spec fn decimal(n: nat) -> Seq<char>
    decreases n,
{
    if n < 10 {
        seq![digit(n)]
    } else {
        decimal(n / 10).push(digit(n % 10))
    }
}

/// The character of a digit.
pub open spec fn digit(n: nat) -> char {
    ('0' as int + n) as char
}

/// The number written in decimal.
pub fn decimal_text(n: u64) -> (text: String)
    ensures
        text@ == decimal(n as nat),
    decreases n,
{
    let last = (48 + (n % 10) as u8) as char;
    if n < 10 {
        let mut text = String::new();
        text.push(last);
        proof {
            assert(text@ =~= decimal(n as nat));
        }
        text
    } else {
        let mut text = decimal_text(n / 10);
        text.push(last);
        text
    }
}

/// `left` followed by `right`.
pub fn concat(left: &str, right: &str) -> (text: String)
    ensures
        text@ == left@ + right@,
{
    let mut text = left.to_owned();
    text.append(right);
    text
}

/// `first`, `second` and `third` one after the other.
pub fn concat3(first: &str, second: &str, third: &str) -> (text: String)
    ensures
        text@ == first@ + second@ + third@,
{
    let mut text = first.to_owned();
    text.append(second);
    text.append(third);
    text
}

/// `left` comes before `right` when texts are ordered character by character, a
/// text before its own extensions.
pub open spec fn text_before(left: Seq<char>, right: Seq<char>) -> bool
    decreases left.len(),
{
    if right.len() == 0 {
        false
    } else if left.len() == 0 {
        true
    } else if left.first() != right.first() {
        (left.first() as int) < (right.first() as int)
    } else {
        text_before(left.drop_first(), right.drop_first())
    }
}

fn code_point(c: char) -> (n: u32)
    ensures
        n as int == c as int,
{
    c as u32
}

/// Tells whether `left` comes before `right`.
pub fn comes_before(left: &str, right: &str) -> (yes: bool)
    ensures
        yes == text_before(left@, right@),
{
    let a = chars_of(left);
    let b = chars_of(right);
    let mut i: usize = 0;
    proof {
        assert(a@.skip(0) =~= a@);
        assert(b@.skip(0) =~= b@);
    }
    while i < a.len() && i < b.len()
        invariant
            i <= a.len(),
            i <= b.len(),
            text_before(a@.skip(i as int), b@.skip(i as int)) == text_before(a@, b@),
            a@ == left@,
            b@ == right@,
        decreases a.len() - i,
    {
        if a[i] != b[i] {
            return code_point(a[i]) < code_point(b[i]);
        }
        proof {
            assert(a@.skip(i as int).drop_first() =~= a@.skip(i + 1));
            assert(b@.skip(i as int).drop_first() =~= b@.skip(i + 1));
        }
        i = i + 1;
    }
    i < b.len()
}

/// The order of texts is strict and total.
pub proof fn lemma_text_before_total(left: Seq<char>, right: Seq<char>)
    ensures
        !(text_before(left, right) && text_before(right, left)),
        left == right || text_before(left, right) || text_before(right, left),
        !text_before(left, left),
    decreases left.len(),
{
    if left.len() > 0 && right.len() > 0 {
        lemma_text_before_total(left.drop_first(), right.drop_first());
        if left.first() == right.first() && left.drop_first() == right.drop_first() {
            assert(left =~= seq![left.first()] + left.drop_first());
            assert(right =~= seq![right.first()] + right.drop_first());
        }
    } else if left.len() == 0 && right.len() == 0 {
        assert(left =~= right);
    } else if left.len() > 0 {
        lemma_text_before_total(left.drop_first(), left.drop_first());
    }
}

/// The order of texts is transitive.
pub proof fn lemma_text_before_transitive(a: Seq<char>, b: Seq<char>, c: Seq<char>)
    requires
        text_before(a, b),
        text_before(b, c),
    ensures
        text_before(a, c),
    decreases a.len(),
{
    if a.len() > 0 && a.first() == b.first() && b.first() == c.first() {
        lemma_text_before_transitive(a.drop_first(), b.drop_first(), c.drop_first());
    }
}

/// A copy of the texts.
pub fn copy_texts(texts: &Vec<String>) -> (copy: Vec<String>)
    ensures
        copy.deep_view() == texts.deep_view(),
{
    let mut copy: Vec<String> = Vec::new();
    let mut i: usize = 0;
    while i < texts.len()
        invariant
            i <= texts.len(),
            copy.deep_view() =~= texts.deep_view().take(i as int),
        decreases texts.len() - i,
    {
        let text = texts[i].clone();
        let ghost before = copy.deep_view();
        copy.push(text);
        proof {
            assert(copy.deep_view() =~= before.push(text@));
            assert(texts.deep_view()[i as int] == text@);
        }
        i = i + 1;
    }
    proof {
        assert(texts.deep_view().take(i as int) =~= texts.deep_view());
    }
    copy
}

/// A copy of the texts, where there are any.
pub fn copy_optional_texts(texts: &Option<Vec<String>>) -> (copy: Option<Vec<String>>)
    ensures
        copy.deep_view() == texts.deep_view(),
{
    match texts {
        Some(texts) => Some(copy_texts(texts)),
        None => None,
    }
}

/// A copy of the text, where there is one.
pub fn copy_optional_text(text: &Option<String>) -> (copy: Option<String>)
    ensures
        copy.deep_view() == text.deep_view(),
{
    match text {
        Some(text) => Some(text.clone()),
        None => None,
    }
}

/// What trimming leaves of a text is its inside: only white space stands before and behind
/// it. A text of white space has nothing inside.
pub proof fn law_trimmed_is_the_inside(s: Seq<char>)
    ensures
        exists|before: int|
            {
                &&& 0 <= before
                &&& before + trimmed(s).len() <= s.len()
                &&& trimmed(s) == #[trigger] s.subrange(before, before + trimmed(s).len())
                &&& forall|i: int| 0 <= i < before ==> is_whitespace(#[trigger] s[i])
                &&& forall|i: int|
                    before + trimmed(s).len() <= i < s.len() ==> is_whitespace(#[trigger] s[i])
            },
{
    let blank = |c: char| is_whitespace(c);
    let rest = trim_start(s, blank);
    lemma_trim_start(s, blank);
    lemma_trim_start_drops(s, blank);
    lemma_trim_end(rest, blank);
    lemma_trim_end_drops(rest, blank);
    let before = s.len() - rest.len();
    assert(trimmed(s) =~= s.subrange(before, before + trimmed(s).len()));
    assert forall|i: int| before + trimmed(s).len() <= i < s.len() implies is_whitespace(
        #[trigger] s[i],
    ) by {
        assert(rest[i - before] == s[i]);
        assert(blank(rest[i - before]));
    }
    assert forall|i: int| 0 <= i < before implies is_whitespace(#[trigger] s[i]) by {
        assert(blank(s[i]));
    }
}

proof fn lemma_trim_start_drops(s: Seq<char>, dropped: spec_fn(char) -> bool)
    ensures
        forall|i: int|
            0 <= i < s.len() - trim_start(s, dropped).len() ==> dropped(#[trigger] s[i]),
    decreases s.len(),
{
    if s.len() > 0 && dropped(s.first()) {
        let rest = s.drop_first();
        lemma_trim_start_drops(rest, dropped);
        assert forall|i: int|
            0 <= i < s.len() - trim_start(s, dropped).len() implies dropped(#[trigger] s[i]) by {
            if i > 0 {
                assert(rest[i - 1] == s[i]);
            }
        }
    }
}

proof fn lemma_trim_end_drops(s: Seq<char>, dropped: spec_fn(char) -> bool)
    ensures
        forall|i: int| trim_end(s, dropped).len() <= i < s.len() ==> dropped(#[trigger] s[i]),
    decreases s.len(),
{
    if s.len() > 0 && dropped(s.last()) {
        let rest = s.drop_last();
        lemma_trim_end_drops(rest, dropped);
        assert forall|i: int| trim_end(s, dropped).len() <= i < s.len() implies dropped(
            #[trigger] s[i],
        ) by {
            if i < s.len() - 1 {
                assert(rest[i] == s[i]);
            }
        }
    }
}

/// Of the ASCII characters the space and the five from the tab to the carriage return are
/// white space; beyond them the no-break space and the ideographic space are, and no letter
/// is.
pub proof fn law_white_space(c: char)
    ensures
        (c as int) < 128 ==> is_whitespace(c) == (c == ' '
            || '\t' as int <= c as int <= '\r' as int),
        is_whitespace('\u{a0}'),
        is_whitespace('\u{3000}'),
        is_whitespace('\u{2028}'),
        0xc0 <= c as int && (c as int) < 0x1680 ==> !is_whitespace(c),
{
}

/// The number that decimal digits stand for.
pub open spec fn decimal_value(digits: Seq<char>) -> int
    decreases digits.len(),
{
    if digits.len() == 0 {
        0
    } else {
        10 * decimal_value(digits.drop_last()) + (digits.last() as int - '0' as int)
    }
}

/// A number that is written in decimal reads as itself, and is written with digits alone
/// and without leading zeros.
pub proof fn law_decimals_read_back(n: nat)
    ensures
        decimal_value(decimal(n)) == n,
        decimal(n).len() > 0,
        forall|i: int|
            0 <= i < decimal(n).len() ==> '0' as int <= (#[trigger] decimal(n)[i]) as int
                <= '9' as int,
        n > 0 ==> decimal(n)[0] != '0',
    decreases n,
{
    if n < 10 {
        assert(decimal(n).drop_last() =~= Seq::<char>::empty());
        assert(decimal_value(decimal(n).drop_last()) == 0);
    } else {
        law_decimals_read_back(n / 10);
        assert(decimal(n).drop_last() =~= decimal(n / 10));
        assert(decimal(n)[0] == decimal(n / 10)[0]);
    }
}

/// The pieces of a text between its separators hold no separator, and with separators
/// between them they are the text again.
pub proof fn law_split_pieces_join_again(s: Seq<char>, separator: char)
    ensures
        split_at(s, separator).len() > 0,
        joined(split_at(s, separator), seq![separator]) == s,
        forall|i: int|
            0 <= i < split_at(s, separator).len() ==> !(#[trigger] split_at(
                s,
                separator,
            )[i]).contains(separator),
    decreases s.len(),
{
    let pieces = split_at(s, separator);
    if s.len() > 0 {
        let rest = s.drop_last();
        let before = split_at(rest, separator);
        law_split_pieces_join_again(rest, separator);
        if s.last() == separator {
            assert(pieces.drop_last() =~= before);
            assert(joined(pieces, seq![separator]) =~= s);
        } else {
            lemma_last_grows(before, s.last(), seq![separator]);
            assert(joined(pieces, seq![separator]) =~= s);
            assert forall|i: int| 0 <= i < pieces.len() implies !(#[trigger] pieces[i]).contains(
                separator,
            ) by {
                if i == pieces.len() - 1 {
                    assert(pieces[i] == before.last().push(s.last()));
                    assert(!before[before.len() - 1].contains(separator));
                    if pieces[i].contains(separator) {
                        let k = choose|k: int|
                            0 <= k < pieces[i].len() && pieces[i][k] == separator;
                        assert(before.last()[k] == separator);
                    }
                } else {
                    assert(pieces[i] == before[i]);
                }
            }
        }
    } else {
        assert(joined(pieces, seq![separator]) =~= s);
    }
}

proof fn lemma_last_grows(parts: Seq<Seq<char>>, c: char, separator: Seq<char>)
    requires
        parts.len() > 0,
    ensures
        joined(parts.drop_last().push(parts.last().push(c)), separator) == joined(
            parts,
            separator,
        ).push(c),
{
    let grown = parts.drop_last().push(parts.last().push(c));
    assert(grown.drop_last() =~= parts.drop_last());
    if parts.len() > 1 {
        assert(joined(grown, separator) =~= joined(parts, separator).push(c));
    }
}

/// Texts that hold no separator are the pieces of their list.
pub proof fn law_joined_texts_split_again(parts: Seq<Seq<char>>, separator: char)
    requires
        parts.len() > 0,
        forall|i: int| 0 <= i < parts.len() ==> !(#[trigger] parts[i]).contains(separator),
    ensures
        split_at(joined(parts, seq![separator]), separator) == parts,
    decreases parts.len(),
{
    let last = parts.last();
    assert(last == parts[parts.len() - 1]);
    if parts.len() == 1 {
        lemma_split_whole(Seq::empty(), last, separator);
        assert(Seq::<char>::empty() + last =~= last);
        assert(seq![Seq::<char>::empty()].drop_last().push(Seq::<char>::empty() + last) =~= parts);
    } else {
        let rest = parts.drop_last();
        assert forall|i: int| 0 <= i < rest.len() implies !(#[trigger] rest[i]).contains(
            separator,
        ) by {
            assert(rest[i] == parts[i]);
        }
        law_joined_texts_split_again(rest, separator);
        let head = joined(rest, seq![separator]) + seq![separator];
        assert(head.drop_last() =~= joined(rest, seq![separator]));
        lemma_split_whole(head, last, separator);
        assert(split_at(head, separator) == rest.push(Seq::empty()));
        assert(rest.push(Seq::<char>::empty()).drop_last() =~= rest);
        assert(Seq::<char>::empty() + last =~= last);
        assert(rest.push(last) =~= parts);
    }
}

/// A text without separators goes to the last piece of what stands before it.
proof fn lemma_split_whole(head: Seq<char>, tail: Seq<char>, separator: char)
    requires
        !tail.contains(separator),
    ensures
        split_at(head, separator).len() > 0,
        split_at(head + tail, separator) == split_at(head, separator).drop_last().push(
            split_at(head, separator).last() + tail,
        ),
    decreases tail.len(),
{
    law_split_pieces_join_again(head, separator);
    let before = split_at(head, separator);
    if tail.len() == 0 {
        assert(head + tail =~= head);
        assert(before.last() + tail =~= before.last());
        assert(before.drop_last().push(before.last()) =~= before);
    } else {
        let rest = tail.drop_last();
        assert(tail.contains(tail[tail.len() - 1]));
        if rest.contains(separator) {
            let k = choose|k: int| 0 <= k < rest.len() && rest[k] == separator;
            assert(tail[k] == separator);
        }
        lemma_split_whole(head, rest, separator);
        assert((head + tail).drop_last() =~= head + rest);
        let pieces = split_at(head + rest, separator);
        assert(pieces.drop_last() =~= before.drop_last());
        assert((before.last() + rest).push(tail.last()) =~= before.last() + tail);
        assert((head + tail).last() == tail.last());
    }
}

/// Of a list of texts the first comes first, and each other behind the separator.
pub proof fn law_joined_grows_at_its_end(
    parts: Seq<Seq<char>>,
    part: Seq<char>,
    separator: Seq<char>,
)
    ensures
        joined(Seq::empty(), separator) == Seq::<char>::empty(),
        joined(seq![part], separator) == part,
        parts.len() > 0 ==> joined(parts.push(part), separator) == joined(parts, separator)
            + separator + part,
{
    assert(parts.push(part).drop_last() =~= parts);
}

/// To make letters small changes only the letters from `A` to `Z`, each to its own small
/// letter, and to do it again changes nothing.
pub proof fn law_small_letters(s: Seq<char>, i: int)
    requires
        0 <= i < s.len(),
    ensures
        lowercase_ascii(s).len() == s.len(),
        65 <= s[i] as int <= 90 ==> lowercase_ascii(s)[i] as int == s[i] as int + 32,
        !(65 <= s[i] as int <= 90) ==> lowercase_ascii(s)[i] == s[i],
        lowercase_ascii(lowercase_ascii(s)) == lowercase_ascii(s),
        lowercase_ascii(seq!['A', 'Z', 'b']) == seq!['a', 'z', 'b'],
{
    assert(lowercase_ascii(lowercase_ascii(s)) =~= lowercase_ascii(s));
    assert(lowercase_ascii(seq!['A', 'Z', 'b']) =~= seq!['a', 'z', 'b']);
}

/// A text holds whatever stands in it, and what it holds stands in it.
pub proof fn law_texts_hold_what_stands_in_them(
    before: Seq<char>,
    part: Seq<char>,
    after: Seq<char>,
    s: Seq<char>,
)
    ensures
        contains_text(before + part + after, part),
        contains_text(s, part) ==> exists|left: Seq<char>, right: Seq<char>|
            s == #[trigger] (left + part + right),
{
    let whole = before + part + after;
    assert(whole.subrange(before.len() as int, before.len() as int + part.len()) =~= part);
    assert(occurs_at(whole, part, before.len() as int));
    if contains_text(s, part) {
        let i = choose|i: int| occurs_at(s, part, i);
        let left = s.take(i);
        let right = s.skip(i + part.len());
        assert(s =~= left + s.subrange(i, i + part.len()) + right);
        assert(s == left + part + right);
    }
}

/// What stands before the first separator of a text is what stands before a separator and
/// holds none; there is nothing exactly where the text has no separator.
pub proof fn law_before_the_first_separator(before: Seq<char>, after: Seq<char>, separator: char)
    requires
        !before.contains(separator),
    ensures
        before_first(before.push(separator) + after, separator) == Some(before),
        before_first(before, separator) is None,
{
    let s = before.push(separator) + after;
    let i = before.len() as int;
    assert forall|k: int| 0 <= k < i implies s[k] != separator by {
        assert(before.contains(before[k]));
        assert(s[k] == before[k]);
    }
    lemma_before_first(s, separator, i);
    assert(s.take(i) =~= before);
    assert forall|k: int| 0 <= k < before.len() implies before[k] != separator by {
        assert(before.contains(before[k]));
    }
    lemma_before_first(before, separator, before.len() as int);
}

/// A replaced character gives way to the replacement wherever it stands; every other stays.
pub proof fn law_replaced_characters(
    s: Seq<char>,
    c: char,
    replacement: Seq<char>,
    other: char,
)
    ensures
        replaced(Seq::empty(), c, replacement) == Seq::<char>::empty(),
        replaced(s.push(c), c, replacement) == replaced(s, c, replacement) + replacement,
        other != c ==> replaced(s.push(other), c, replacement) == replaced(s, c, replacement).push(
            other,
        ),
{
    assert(s.push(c).drop_last() =~= s);
    assert(s.push(other).drop_last() =~= s);
    assert(replaced(s, c, replacement) + seq![other] =~= replaced(s, c, replacement).push(other));
}

/// Texts are ordered by the first character in which they differ; a text comes before its
/// own extensions, and never before itself.
pub proof fn law_texts_are_ordered_by_their_first_difference(
    common: Seq<char>,
    left: char,
    right: char,
    left_rest: Seq<char>,
    right_rest: Seq<char>,
)
    ensures
        left != right
            ==> text_before(common.push(left) + left_rest, common.push(right) + right_rest)
            == ((left as int) < (right as int)),
        text_before(common, common.push(right) + right_rest),
        !text_before(common, common),
    decreases common.len(),
{
    let smaller = common.push(left) + left_rest;
    let larger = common.push(right) + right_rest;
    if common.len() > 0 {
        let rest = common.drop_first();
        law_texts_are_ordered_by_their_first_difference(rest, left, right, left_rest, right_rest);
        assert(smaller.drop_first() =~= rest.push(left) + left_rest);
        assert(larger.drop_first() =~= rest.push(right) + right_rest);
    }
}

} // verus!
