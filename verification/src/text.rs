//! Character-level helpers over strings, stated over `Seq<char>` views.

use vstd::prelude::*;

verus! {

/// A result longer than this many characters is shortened for display.
pub const PREVIEW_LIMIT: usize = 100;

/// How many leading characters of a shortened result are kept.
pub const PREVIEW_KEPT: usize = 97;

/// The characters that carry the Unicode `White_Space` property.
pub open spec fn whitespace(c: char) -> bool {
    let n = c as u32;
    ||| 0x09 <= n <= 0x0D
    ||| n == 0x20
    ||| n == 0x85
    ||| n == 0xA0
    ||| n == 0x1680
    ||| 0x2000 <= n <= 0x200A
    ||| n == 0x2028
    ||| n == 0x2029
    ||| n == 0x202F
    ||| n == 0x205F
    ||| n == 0x3000
}

/// A text is blank when it is empty or holds whitespace only.
pub open spec fn blank(s: Seq<char>) -> bool {
    forall|i: int| 0 <= i < s.len() ==> whitespace(#[trigger] s[i])
}

/// `s` without its leading whitespace.
pub open spec fn trimmed_start(s: Seq<char>) -> Seq<char>
    decreases s.len(),
{
    if s.len() > 0 && whitespace(s[0]) {
        trimmed_start(s.drop_first())
    } else {
        s
    }
}

/// `s` without its trailing whitespace.
pub open spec fn trimmed_end(s: Seq<char>) -> Seq<char>
    decreases s.len(),
{
    if s.len() > 0 && whitespace(s.last()) {
        trimmed_end(s.drop_last())
    } else {
        s
    }
}

/// `s` without its leading and trailing whitespace.
pub open spec fn trimmed(s: Seq<char>) -> Seq<char> {
    trimmed_end(trimmed_start(s))
}

/// The marker that ends a shortened preview.
pub open spec fn ellipsis() -> Seq<char> {
    seq!['.', '.', '.']
}

/// The text shown for a result: the result itself up to `PREVIEW_LIMIT` characters, else its
/// first `PREVIEW_KEPT` characters followed by the ellipsis marker.
pub open spec fn preview_of(s: Seq<char>) -> Seq<char> {
    if s.len() > PREVIEW_LIMIT {
        s.subrange(0, PREVIEW_KEPT as int) + ellipsis()
    } else {
        s
    }
}

/// Whether `needle` stands in `hay` at position `at`.
pub open spec fn occurs_at(hay: Seq<char>, needle: Seq<char>, at: int) -> bool {
    &&& 0 <= at
    &&& at + needle.len() <= hay.len()
    &&& hay.subrange(at, at + needle.len()) == needle
}

/// Whether `needle` stands somewhere in `hay`.
pub open spec fn occurs_in(hay: Seq<char>, needle: Seq<char>) -> bool {
    exists|at: int| occurs_at(hay, needle, at)
}

/// The character of the decimal digit `d`.
pub open spec fn digit(d: nat) -> char {
    if d == 0 {
        '0'
    } else if d == 1 {
        '1'
    } else if d == 2 {
        '2'
    } else if d == 3 {
        '3'
    } else if d == 4 {
        '4'
    } else if d == 5 {
        '5'
    } else if d == 6 {
        '6'
    } else if d == 7 {
        '7'
    } else if d == 8 {
        '8'
    } else {
        '9'
    }
}

/// `n` written in base ten, without leading zeros.
pub open spec fn decimal(n: nat) -> Seq<char>
    decreases n,
{
    if n < 10 {
        seq![digit(n)]
    } else {
        decimal(n / 10).push(digit(n % 10))
    }
}

/// Leading whitespace ends at `from`: the rest is what `trimmed_start` keeps.
proof fn lemma_trimmed_start(s: Seq<char>, from: int)
    requires
        0 <= from <= s.len(),
        forall|i: int| 0 <= i < from ==> whitespace(#[trigger] s[i]),
        from == s.len() || !whitespace(s[from]),
    ensures
        trimmed_start(s) == s.subrange(from, s.len() as int),
    decreases from,
{
    if from == 0 {
        assert(s.subrange(0, s.len() as int) =~= s);
    } else {
        let rest = s.drop_first();
        assert(whitespace(s[0]));
        assert forall|i: int| 0 <= i < from - 1 implies whitespace(#[trigger] rest[i]) by {
            assert(whitespace(s[i + 1]));
        }
        lemma_trimmed_start(rest, from - 1);
        assert(rest.subrange(from - 1, rest.len() as int) =~= s.subrange(from, s.len() as int));
    }
}

/// Trailing whitespace starts at `to`: what comes before is what `trimmed_end` keeps.
proof fn lemma_trimmed_end(s: Seq<char>, to: int)
    requires
        0 <= to <= s.len(),
        forall|i: int| to <= i < s.len() ==> whitespace(#[trigger] s[i]),
        to == 0 || !whitespace(s[to - 1]),
    ensures
        trimmed_end(s) == s.subrange(0, to),
    decreases s.len() - to,
{
    if to == s.len() {
        assert(s.subrange(0, s.len() as int) =~= s);
    } else {
        let rest = s.drop_last();
        assert(whitespace(s[s.len() - 1]));
        assert forall|i: int| to <= i < rest.len() implies whitespace(#[trigger] rest[i]) by {
            assert(whitespace(s[i]));
        }
        lemma_trimmed_end(rest, to);
        assert(rest.subrange(0, to) =~= s.subrange(0, to));
    }
}

/// A text is blank exactly when trimming leaves nothing of it.
pub proof fn law_blank_iff_trimmed_empty(s: Seq<char>)
    ensures
        blank(s) <==> trimmed(s).len() == 0,
    decreases s.len(),
{
    if s.len() > 0 && whitespace(s[0]) {
        let rest = s.drop_first();
        law_blank_iff_trimmed_empty(rest);
        if blank(s) {
            assert forall|i: int| 0 <= i < rest.len() implies whitespace(#[trigger] rest[i]) by {
                assert(whitespace(s[i + 1]));
            }
        }
        if blank(rest) {
            assert forall|i: int| 0 <= i < s.len() implies whitespace(#[trigger] s[i]) by {
                if i > 0 {
                    assert(whitespace(rest[i - 1]));
                }
            }
        }
    } else if s.len() > 0 {
        assert(!blank(s));
        lemma_trimmed_end_keeps_head(s);
    }
}

/// Trimming the end of a text that starts with a visible character leaves that character.
proof fn lemma_trimmed_end_keeps_head(s: Seq<char>)
    requires
        s.len() > 0,
        !whitespace(s[0]),
    ensures
        trimmed_end(s).len() > 0,
    decreases s.len(),
{
    if whitespace(s.last()) {
        lemma_trimmed_end_keeps_head(s.drop_last());
    }
}

/// Where the leading whitespace of `s` ends.
proof fn lemma_start_bound(s: Seq<char>) -> (from: int)
    ensures
        0 <= from <= s.len(),
        trimmed_start(s) == s.subrange(from, s.len() as int),
        forall|i: int| 0 <= i < from ==> whitespace(#[trigger] s[i]),
        from == s.len() || !whitespace(s[from]),
    decreases s.len(),
{
    if s.len() > 0 && whitespace(s[0]) {
        let rest = s.drop_first();
        let inner = lemma_start_bound(rest);
        let from = inner + 1;
        assert(rest.subrange(inner, rest.len() as int) =~= s.subrange(from, s.len() as int));
        assert forall|i: int| 0 <= i < from implies whitespace(#[trigger] s[i]) by {
            if i > 0 {
                assert(whitespace(rest[i - 1]));
            }
        }
        from
    } else {
        assert(s.subrange(0, s.len() as int) =~= s);
        0
    }
}

/// Where the trailing whitespace of `s` starts.
proof fn lemma_end_bound(s: Seq<char>) -> (to: int)
    ensures
        0 <= to <= s.len(),
        trimmed_end(s) == s.subrange(0, to),
        forall|i: int| to <= i < s.len() ==> whitespace(#[trigger] s[i]),
        to == 0 || !whitespace(s[to - 1]),
    decreases s.len(),
{
    if s.len() > 0 && whitespace(s.last()) {
        let rest = s.drop_last();
        let to = lemma_end_bound(rest);
        assert(rest.subrange(0, to) =~= s.subrange(0, to));
        assert forall|i: int| to <= i < s.len() implies whitespace(#[trigger] s[i]) by {
            if i < rest.len() {
                assert(whitespace(rest[i]));
            }
        }
        to
    } else {
        assert(s.subrange(0, s.len() as int) =~= s);
        s.len() as int
    }
}

/// Trimming keeps one contiguous part of the text: everything before it and after it is
/// whitespace, and unless it is empty it starts and ends with a visible character.
pub proof fn law_trimmed_is_the_visible_core(s: Seq<char>) -> (bounds: (int, int))
    ensures
        0 <= bounds.0 <= bounds.1 <= s.len(),
        trimmed(s) == s.subrange(bounds.0, bounds.1),
        forall|i: int| 0 <= i < bounds.0 ==> whitespace(#[trigger] s[i]),
        forall|i: int| bounds.1 <= i < s.len() ==> whitespace(#[trigger] s[i]),
        bounds.0 < bounds.1 ==> !whitespace(s[bounds.0]) && !whitespace(s[bounds.1 - 1]),
{
    let from = lemma_start_bound(s);
    let kept = s.subrange(from, s.len() as int);
    let inner = lemma_end_bound(kept);
    let to = from + inner;
    assert(kept.subrange(0, inner) =~= s.subrange(from, to));
    assert forall|i: int| to <= i < s.len() implies whitespace(#[trigger] s[i]) by {
        assert(whitespace(kept[i - from]));
    }
    if from < to {
        assert(kept[inner - 1] == s[to - 1]);
    }
    (from, to)
}

/// Trimming a trimmed text changes nothing.
pub proof fn law_trim_is_idempotent(s: Seq<char>)
    ensures
        trimmed(trimmed(s)) == trimmed(s),
{
    let bounds = law_trimmed_is_the_visible_core(s);
    let t = trimmed(s);
    if t.len() > 0 {
        assert(t[0] == s[bounds.0]);
        assert(t.last() == s[bounds.1 - 1]);
    }
}

/// A preview never holds more than `PREVIEW_LIMIT` characters: a text within the limit is
/// shown as it is, a longer one as its first `PREVIEW_KEPT` characters and the marker.
pub proof fn law_preview_fits(s: Seq<char>)
    ensures
        preview_of(s).len() <= PREVIEW_LIMIT,
        s.len() <= PREVIEW_LIMIT ==> preview_of(s) == s,
        s.len() > PREVIEW_LIMIT ==> preview_of(s).len() == PREVIEW_LIMIT && preview_of(
            s,
        ).subrange(0, PREVIEW_KEPT as int) == s.subrange(0, PREVIEW_KEPT as int),
{
    if s.len() > PREVIEW_LIMIT {
        assert(preview_of(s).subrange(0, PREVIEW_KEPT as int) =~= s.subrange(
            0,
            PREVIEW_KEPT as int,
        ));
    }
}

/// Tells whether `c` is a whitespace character.
pub fn is_whitespace(c: char) -> (b: bool)
    ensures
        b == whitespace(c),
{
    let n: u32 = c as u32;
    (0x09 <= n && n <= 0x0D) || n == 0x20 || n == 0x85 || n == 0xA0 || n == 0x1680 || (0x2000 <= n
        && n <= 0x200A) || n == 0x2028 || n == 0x2029 || n == 0x202F || n == 0x205F || n == 0x3000
}

/// The characters of `s`, in order.
pub fn chars_of(s: &str) -> (chars: Vec<char>)
    ensures
        chars@ == s@,
{
    let mut chars: Vec<char> = Vec::new();
    for c in it: s.chars()
        invariant
            chars@ == it.seq().take(it.index()),
    {
        chars.push(c);
    }
    chars
}

/// Tells whether `a` and `b` hold the same characters.
pub fn equal(a: &str, b: &str) -> (same: bool)
    ensures
        same == (a@ == b@),
{
    let x = chars_of(a);
    let y = chars_of(b);
    if x.len() != y.len() {
        return false;
    }
    let mut i: usize = 0;
    while i < x.len()
        invariant
            x@ == a@,
            y@ == b@,
            x@.len() == y@.len(),
            i <= x@.len(),
            forall|j: int| 0 <= j < i ==> x@[j] == y@[j],
        decreases x@.len() - i,
    {
        if x[i] != y[i] {
            return false;
        }
        i += 1;
    }
    assert(a@ =~= b@);
    true
}

/// Tells whether `s` is empty or holds whitespace only.
pub fn is_blank(s: &str) -> (b: bool)
    ensures
        b == blank(s@),
{
    let chars = chars_of(s);
    let mut i: usize = 0;
    while i < chars.len()
        invariant
            chars@ == s@,
            i <= chars@.len(),
            forall|j: int| 0 <= j < i ==> whitespace(#[trigger] chars@[j]),
        decreases chars@.len() - i,
    {
        if !is_whitespace(chars[i]) {
            assert(!whitespace(s@[i as int]));
            return false;
        }
        i += 1;
    }
    true
}

/// Removes leading and trailing whitespace.
pub fn trim(s: &str) -> (out: String)
    ensures
        out@ == trimmed(s@),
{
    let chars = chars_of(s);
    let n = chars.len();
    let mut from: usize = 0;
    while from < n && is_whitespace(chars[from])
        invariant
            n == chars@.len(),
            from <= n,
            forall|j: int| 0 <= j < from ==> whitespace(#[trigger] chars@[j]),
        decreases n - from,
    {
        from += 1;
    }
    let mut to: usize = n;
    while to > from && is_whitespace(chars[to - 1])
        invariant
            n == chars@.len(),
            from <= to <= n,
            forall|j: int| to <= j < n ==> whitespace(#[trigger] chars@[j]),
        decreases to,
    {
        to -= 1;
    }
    proof {
        let kept = s@.subrange(from as int, n as int);
        lemma_trimmed_start(s@, from as int);
        assert forall|i: int| to - from <= i < kept.len() implies whitespace(
            #[trigger] kept[i],
        ) by {
            assert(whitespace(s@[from + i]));
        }
        lemma_trimmed_end(kept, to - from);
        assert(kept.subrange(0, to - from) =~= s@.subrange(from as int, to as int));
    }
    s.substring_char(from, to).to_owned()
}

/// The text shown for a result in a notification.
pub fn preview(s: &str) -> (out: String)
    ensures
        out@ == preview_of(s@),
{
    if s.unicode_len() > PREVIEW_LIMIT {
        let mut out = s.substring_char(0, PREVIEW_KEPT).to_owned();
        proof {
            reveal_strlit("...");
            assert("..."@ =~= ellipsis());
        }
        out.append("...");
        out
    } else {
        s.to_owned()
    }
}

/// Tells whether `needle` stands somewhere in `hay`.
pub fn contains(hay: &str, needle: &str) -> (found: bool)
    ensures
        found == occurs_in(hay@, needle@),
{
    let h = chars_of(hay);
    let n = chars_of(needle);
    if n.len() > h.len() {
        return false;
    }
    let last = h.len() - n.len();
    let mut at: usize = 0;
    loop
        invariant
            h@ == hay@,
            n@ == needle@,
            n@.len() <= h@.len() <= usize::MAX,
            last == h@.len() - n@.len(),
            at <= last,
            forall|k: int| 0 <= k < at ==> !occurs_at(hay@, needle@, k),
        decreases last - at,
    {
        let mut i: usize = 0;
        while i < n.len() && h[at + i] == n[i]
            invariant
                h@ == hay@,
                n@ == needle@,
                n@.len() <= h@.len() <= usize::MAX,
                last == h@.len() - n@.len(),
                at <= last,
                i <= n@.len(),
                forall|j: int| 0 <= j < i ==> h@[at + j] == n@[j],
            decreases n@.len() - i,
        {
            i += 1;
        }
        if i == n.len() {
            assert(hay@.subrange(at as int, at + needle@.len()) =~= needle@);
            assert(occurs_at(hay@, needle@, at as int));
            return true;
        }
        assert(!occurs_at(hay@, needle@, at as int)) by {
            if occurs_at(hay@, needle@, at as int) {
                assert(hay@.subrange(at as int, at + needle@.len())[i as int] == needle@[i as int]);
            }
        }
        if at == last {
            assert forall|k: int| !occurs_at(hay@, needle@, k) by {}
            return false;
        }
        at += 1;
    }
}

/// The one-character text of the decimal digit `d`.
fn digit_text(d: u64) -> (out: &'static str)
    requires
        d < 10,
    ensures
        out@ == seq![digit(d as nat)],
{
    proof {
        reveal_strlit("0");
        reveal_strlit("1");
        reveal_strlit("2");
        reveal_strlit("3");
        reveal_strlit("4");
        reveal_strlit("5");
        reveal_strlit("6");
        reveal_strlit("7");
        reveal_strlit("8");
        reveal_strlit("9");
    }
    let out = if d == 0 {
        "0"
    } else if d == 1 {
        "1"
    } else if d == 2 {
        "2"
    } else if d == 3 {
        "3"
    } else if d == 4 {
        "4"
    } else if d == 5 {
        "5"
    } else if d == 6 {
        "6"
    } else if d == 7 {
        "7"
    } else if d == 8 {
        "8"
    } else {
        "9"
    };
    assert(out@ =~= seq![digit(d as nat)]);
    out
}

/// Writes `n` in base ten.
pub fn decimal_text(n: u64) -> (out: String)
    ensures
        out@ == decimal(n as nat),
{
    let mut out = digit_text(n % 10).to_owned();
    let mut rest: u64 = n / 10;
    while rest > 0
        invariant
            decimal(n as nat) == (if rest == 0 {
                Seq::<char>::empty()
            } else {
                decimal(rest as nat)
            }) + out@,
        decreases rest,
    {
        let ghost before = out@;
        let head = digit_text(rest % 10).to_owned();
        out = head.concat(out.as_str());
        proof {
            let r = rest as nat;
            if r < 10 {
                assert(decimal(r) + before =~= Seq::<char>::empty() + out@);
            } else {
                assert(decimal(r) + before =~= decimal(r / 10) + out@);
            }
        }
        rest = rest / 10;
    }
    assert(Seq::<char>::empty() + out@ =~= out@);
    out
}

} // verus!
