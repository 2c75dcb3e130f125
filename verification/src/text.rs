//! Operations on text that the other modules share: comparing, joining,
//! and cutting a run of characters off either end.

use vstd::prelude::*;
use vstd::utf8::{decode_utf8, valid_utf8};

verus! {

/// The longest prefix of `s` whose characters all satisfy `p`.
pub open spec fn take_while(s: Seq<char>, p: spec_fn(char) -> bool) -> Seq<char>
    decreases s.len(),
{
    if s.len() > 0 && p(s.first()) {
        seq![s.first()] + take_while(s.drop_first(), p)
    } else {
        Seq::empty()
    }
}

/// What is left of `s` after its longest prefix of characters that
/// satisfy `p`.
pub open spec fn drop_while(s: Seq<char>, p: spec_fn(char) -> bool) -> Seq<char>
    decreases s.len(),
{
    if s.len() > 0 && p(s.first()) {
        drop_while(s.drop_first(), p)
    } else {
        s
    }
}

/// The longest suffix of `s` whose characters all satisfy `p`.
pub open spec fn take_last_while(s: Seq<char>, p: spec_fn(char) -> bool) -> Seq<char>
    decreases s.len(),
{
    if s.len() > 0 && p(s.last()) {
        take_last_while(s.drop_last(), p).push(s.last())
    } else {
        Seq::empty()
    }
}

/// What is left of `s` before its longest suffix of characters that
/// satisfy `p`.
pub open spec fn drop_last_while(s: Seq<char>, p: spec_fn(char) -> bool) -> Seq<char>
    decreases s.len(),
{
    if s.len() > 0 && p(s.last()) {
        drop_last_while(s.drop_last(), p)
    } else {
        s
    }
}

/// The test that only `c` passes.
pub open spec fn only(c: char) -> spec_fn(char) -> bool {
    |x: char| x == c
}

/// `s` without the occurrences of `c` at its start and at its end.
pub open spec fn trimmed(s: Seq<char>, c: char) -> Seq<char> {
    drop_last_while(drop_while(s, only(c)), only(c))
}

/// The prefix that `take_while` keeps ends at the first character that
/// fails `p`.
pub proof fn lemma_prefix_run(s: Seq<char>, p: spec_fn(char) -> bool, i: int)
    requires
        0 <= i <= s.len(),
        forall|k: int| 0 <= k < i ==> p(#[trigger] s[k]),
        i == s.len() || !p(s[i]),
    ensures
        take_while(s, p) == s.take(i),
        drop_while(s, p) == s.skip(i),
    decreases i,
{
    if i == 0 {
        assert(s.take(0) =~= Seq::<char>::empty());
        assert(s.skip(0) =~= s);
    } else {
        let rest = s.drop_first();
        assert(p(s[0]));
        assert forall|k: int| 0 <= k < i - 1 implies p(#[trigger] rest[k]) by {
            assert(rest[k] == s[k + 1]);
        }
        lemma_prefix_run(rest, p, i - 1);
        assert(seq![s.first()] + rest.take(i - 1) =~= s.take(i));
        assert(rest.skip(i - 1) =~= s.skip(i));
    }
}

/// The suffix that `take_last_while` keeps starts after the last
/// character that fails `p`.
pub proof fn lemma_suffix_run(s: Seq<char>, p: spec_fn(char) -> bool, j: int)
    requires
        0 <= j <= s.len(),
        forall|k: int| j <= k < s.len() ==> p(#[trigger] s[k]),
        j == 0 || !p(s[j - 1]),
    ensures
        take_last_while(s, p) == s.skip(j),
        drop_last_while(s, p) == s.take(j),
    decreases s.len() - j,
{
    if j == s.len() {
        assert(s.skip(j) =~= Seq::<char>::empty());
        assert(s.take(j) =~= s);
    } else {
        let rest = s.drop_last();
        assert(p(s[s.len() - 1]));
        assert forall|k: int| j <= k < rest.len() implies p(#[trigger] rest[k]) by {
            assert(rest[k] == s[k]);
        }
        lemma_suffix_run(rest, p, j);
        assert(rest.skip(j).push(s.last()) =~= s.skip(j));
        assert(rest.take(j) =~= s.take(j));
    }
}

/// The character that writes the digit `d`.
pub open spec fn digit(d: nat) -> char
    recommends
        d < 10,
{
    if d == 0 {
        '0'
    } else if d == 1 {
        '1'
    } else if d == 2 {
        '2'
    } else if d == 3 {
        '3'
    } else if d == 4 {
        '4'
    } else if d == 5 {
        '5'
    } else if d == 6 {
        '6'
    } else if d == 7 {
        '7'
    } else if d == 8 {
        '8'
    } else {
        '9'
    }
}

/// `n` written in decimal, without leading zeros.
pub open spec fn decimal(n: nat) -> Seq<char>
    decreases n,
{
    if n < 10 {
        seq![digit(n)]
    } else {
        decimal(n / 10).push(digit(n % 10))
    }
}

/// Whether `c` is white space: one of the characters with the Unicode
/// property `White_Space`.
pub open spec fn is_space(c: char) -> bool {
    let n = c as u32;
    ||| 0x09 <= n <= 0x0D
    ||| n == 0x20
    ||| n == 0x85
    ||| n == 0xA0
    ||| n == 0x1680
    ||| 0x2000 <= n <= 0x200A
    ||| n == 0x2028
    ||| n == 0x2029
    ||| n == 0x202F
    ||| n == 0x205F
    ||| n == 0x3000
}

/// The test that white space passes.
pub open spec fn space() -> spec_fn(char) -> bool {
    |c: char| is_space(c)
}

/// The test that everything but white space passes.
pub open spec fn not_space() -> spec_fn(char) -> bool {
    |c: char| !is_space(c)
}

/// The test that everything but `c` passes.
pub open spec fn except(c: char) -> spec_fn(char) -> bool {
    |x: char| x != c
}

/// The first line of `s`: what stands before its first line feed.
pub open spec fn first_line(s: Seq<char>) -> Seq<char> {
    take_while(s, except('\n'))
}

/// The last word of `s`: its longest run of characters other than white
/// space that only white space follows. It is empty where `s` holds
/// nothing but white space.
pub open spec fn last_word(s: Seq<char>) -> Seq<char> {
    take_last_while(drop_last_while(s, space()), not_space())
}

/// The characters of each text of a list, in order.
pub open spec fn texts(v: Seq<String>) -> Seq<Seq<char>> {
    v.map_values(|s: String| s@)
}

/// Whether two pieces of text hold the same characters.
pub fn same_text(a: &str, b: &str) -> (r: bool)
    ensures
        r == (a@ == b@),
{
    let x = a.to_owned();
    let y = b.to_owned();
    x == y
}

/// The text `a` followed by the text `b`.
pub fn joined(a: &str, b: &str) -> (r: String)
    ensures
        r@ == a@ + b@,
{
    a.to_owned().concat(b)
}

/// `s` without the occurrences of `c` at its start and at its end.
pub fn trim_matches(s: &str, c: char) -> (r: String)
    ensures
        r@ == trimmed(s@, c),
{
    let n: usize = s.unicode_len();
    let ghost p = only(c);
    let mut i: usize = 0;
    while i < n && s.get_char(i) == c
        invariant
            i <= n,
            n == s@.len(),
            forall|k: int| 0 <= k < i ==> s@[k] == c,
        decreases n - i,
    {
        i += 1;
    }
    let mut j: usize = n;
    while j > i && s.get_char(j - 1) == c
        invariant
            i <= j <= n,
            n == s@.len(),
            forall|k: int| j <= k < n ==> s@[k] == c,
        decreases j,
    {
        j -= 1;
    }
    proof {
        let rest = s@.skip(i as int);
        assert forall|k: int| 0 <= k < i implies p(#[trigger] s@[k]) by {}
        lemma_prefix_run(s@, p, i as int);
        assert forall|k: int| j - i <= k < rest.len() implies p(#[trigger] rest[k]) by {
            assert(rest[k] == s@[k + i]);
        }
        if j > i {
            assert(rest[j - i - 1] == s@[j - 1]);
        }
        lemma_suffix_run(rest, p, j - i);
        assert(rest.take(j - i) =~= s@.subrange(i as int, j as int));
    }
    s.substring_char(i, j).to_owned()
}

fn digit_text(d: u32) -> (r: &'static str)
    requires
        d < 10,
    ensures
        r@ == seq![digit(d as nat)],
{
    proof {
        reveal_strlit("0");
        reveal_strlit("1");
        reveal_strlit("2");
        reveal_strlit("3");
        reveal_strlit("4");
        reveal_strlit("5");
        reveal_strlit("6");
        reveal_strlit("7");
        reveal_strlit("8");
        reveal_strlit("9");
    }
    let r = if d == 0 {
        "0"
    } else if d == 1 {
        "1"
    } else if d == 2 {
        "2"
    } else if d == 3 {
        "3"
    } else if d == 4 {
        "4"
    } else if d == 5 {
        "5"
    } else if d == 6 {
        "6"
    } else if d == 7 {
        "7"
    } else if d == 8 {
        "8"
    } else {
        "9"
    };
    assert(r@ =~= seq![digit(d as nat)]);
    r
}

/// `n` written in decimal, without leading zeros.
pub fn decimal_text(n: u32) -> (r: String)
    ensures
        r@ == decimal(n as nat),
    decreases n,
{
    if n < 10 {
        digit_text(n).to_owned()
    } else {
        let front = decimal_text(n / 10);
        let r = front.concat(digit_text(n % 10));
        assert(r@ =~= decimal((n / 10) as nat).push(digit((n % 10) as nat)));
        r
    }
}

/// `String::from_utf8` of the standard library. Of it nothing is
/// proved; this states what is taken from its documentation. It succeeds
/// exactly where `bytes` are valid UTF-8, and the text that it then
/// returns is the one that these bytes encode. Where it fails, what comes
/// back is the failure's own message.
#[verifier::external_body]
pub(crate) fn text_from_utf8(bytes: Vec<u8>) -> (r: Result<String, String>)
    ensures
        match r {
            Ok(text) => valid_utf8(bytes@) && text@ == decode_utf8(bytes@),
            Err(_) => !valid_utf8(bytes@),
        },
{
    match String::from_utf8(bytes) {
        Ok(text) => Ok(text),
        Err(e) => Err(e.to_string()),
    }
}

/// Whether `c` is white space.
pub fn is_white_space(c: char) -> (r: bool)
    ensures
        r == is_space(c),
{
    let n: u32 = c as u32;
    (0x09 <= n && n <= 0x0D) || n == 0x20 || n == 0x85 || n == 0xA0 || n == 0x1680 || (0x2000 <= n
        && n <= 0x200A) || n == 0x2028 || n == 0x2029 || n == 0x202F || n == 0x205F || n == 0x3000
}

/// The last word of the first line of `s`.
pub fn last_word_of_first_line(s: &str) -> (r: String)
    ensures
        r@ == last_word(first_line(s@)),
{
    let n: usize = s.unicode_len();
    let mut end: usize = 0;
    while end < n && s.get_char(end) != '\n'
        invariant
            end <= n,
            n == s@.len(),
            forall|k: int| 0 <= k < end ==> s@[k] != '\n',
        decreases n - end,
    {
        end += 1;
    }
    let ghost line = s@.take(end as int);
    let mut j: usize = end;
    while j > 0 && is_white_space(s.get_char(j - 1))
        invariant
            j <= end <= n,
            n == s@.len(),
            forall|k: int| j <= k < end ==> is_space(s@[k]),
        decreases j,
    {
        j -= 1;
    }
    let mut i: usize = j;
    while i > 0 && !is_white_space(s.get_char(i - 1))
        invariant
            i <= j <= n,
            n == s@.len(),
            forall|k: int| i <= k < j ==> !is_space(s@[k]),
        decreases i,
    {
        i -= 1;
    }
    proof {
        assert forall|k: int| 0 <= k < end implies except('\n')(#[trigger] s@[k]) by {}
        lemma_prefix_run(s@, except('\n'), end as int);
        assert forall|k: int| j <= k < line.len() implies space()(#[trigger] line[k]) by {
            assert(line[k] == s@[k]);
        }
        if j > 0 {
            assert(line[j - 1] == s@[j - 1]);
        }
        lemma_suffix_run(line, space(), j as int);
        let stripped = line.take(j as int);
        assert forall|k: int| i <= k < stripped.len() implies not_space()(#[trigger] stripped[k]) by {
            assert(stripped[k] == s@[k]);
        }
        if i > 0 {
            assert(stripped[i - 1] == s@[i - 1]);
        }
        lemma_suffix_run(stripped, not_space(), i as int);
        assert(stripped.skip(i as int) =~= s@.subrange(i as int, j as int));
    }
    s.substring_char(i, j).to_owned()
}

} // verus!
