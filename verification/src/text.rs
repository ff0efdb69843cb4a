//! Text building blocks: decimal rendering, concatenation and search, all
//! specified over sequences of characters.
use vstd::prelude::*;
use vstd::string::*;

verus! {

/// The character of a decimal digit.
pub open spec fn digit_char(d: nat) -> char {
    if d == 0 {
        '0'
    } else if d == 1 {
        '1'
    } else if d == 2 {
        '2'
    } else if d == 3 {
        '3'
    } else if d == 4 {
        '4'
    } else if d == 5 {
        '5'
    } else if d == 6 {
        '6'
    } else if d == 7 {
        '7'
    } else if d == 8 {
        '8'
    } else {
        '9'
    }
}

/// The decimal rendering of a natural number, without leading zeros.
pub open spec fn decimal(n: nat) -> Seq<char>
    decreases n,
{
    if n < 10 {
        seq![digit_char(n)]
    } else {
        decimal(n / 10).push(digit_char(n % 10))
    }
}

/// One decimal digit as a string slice.
fn digit_str(d: u64) -> (s: &'static str)
    requires
        d < 10,
    ensures
        s@ == seq![digit_char(d as nat)],
{
    proof {
        reveal_strlit("0");
        reveal_strlit("1");
        reveal_strlit("2");
        reveal_strlit("3");
        reveal_strlit("4");
        reveal_strlit("5");
        reveal_strlit("6");
        reveal_strlit("7");
        reveal_strlit("8");
        reveal_strlit("9");
    }
    let s = if d == 0 {
        "0"
    } else if d == 1 {
        "1"
    } else if d == 2 {
        "2"
    } else if d == 3 {
        "3"
    } else if d == 4 {
        "4"
    } else if d == 5 {
        "5"
    } else if d == 6 {
        "6"
    } else if d == 7 {
        "7"
    } else if d == 8 {
        "8"
    } else {
        "9"
    };
    assert(s@ =~= seq![digit_char(d as nat)]);
    s
}

/// Renders a number in decimal.
pub fn decimal_text(n: u64) -> (s: String)
    ensures
        s@ == decimal(n as nat),
    decreases n,
{
    if n < 10 {
        String::from_str(digit_str(n))
    } else {
        let head = decimal_text(n / 10);
        let out = head.concat(digit_str(n % 10));
        assert(out@ =~= decimal(n as nat));
        out
    }
}

/// Joins two pieces of text.
pub fn join2(a: &str, b: &str) -> (s: String)
    ensures
        s@ == a@ + b@,
{
    String::from_str(a).concat(b)
}

/// Joins three pieces of text.
pub fn join3(a: &str, b: &str, c: &str) -> (s: String)
    ensures
        s@ == a@ + b@ + c@,
{
    String::from_str(a).concat(b).concat(c)
}

/// Whether `pat` stands in `s` at position `i`.
pub open spec fn occurs_at(s: Seq<char>, pat: Seq<char>, i: int) -> bool {
    0 <= i && i + pat.len() <= s.len() && s.subrange(i, i + pat.len()) == pat
}

/// The first position at or after `i` where `pat` stands in `s`.
pub open spec fn find_from(s: Seq<char>, pat: Seq<char>, i: int) -> Option<int>
    decreases s.len() + 1 - i,
{
    if i < 0 || i + pat.len() > s.len() {
        None
    } else if occurs_at(s, pat, i) {
        Some(i)
    } else {
        find_from(s, pat, i + 1)
    }
}

/// The first position where `pat` stands in `s`.
pub open spec fn find(s: Seq<char>, pat: Seq<char>) -> Option<int> {
    find_from(s, pat, 0)
}

/// A search answers with the least position at which the pattern stands.
pub proof fn lemma_find_from_found(s: Seq<char>, pat: Seq<char>, i: int, k: int)
    requires
        0 <= i <= k,
        occurs_at(s, pat, k),
        forall|j: int| i <= j < k ==> !occurs_at(s, pat, j),
    ensures
        find_from(s, pat, i) == Some(k),
    decreases k - i,
{
    if i < k {
        lemma_find_from_found(s, pat, i + 1, k);
    }
}

/// A search answers with nothing where the pattern stands nowhere.
pub proof fn lemma_find_from_none(s: Seq<char>, pat: Seq<char>, i: int)
    requires
        0 <= i,
        forall|j: int| i <= j ==> !occurs_at(s, pat, j),
    ensures
        find_from(s, pat, i) is None,
    decreases s.len() + 1 - i,
{
    if i + pat.len() <= s.len() {
        lemma_find_from_none(s, pat, i + 1);
    }
}

/// The characters of a string, one by one.
pub fn chars_of(s: &str) -> (v: Vec<char>)
    ensures
        v@ == s@,
{
    let n = s.unicode_len();
    let mut v: Vec<char> = Vec::new();
    let mut i: usize = 0;
    while i < n
        invariant
            i <= n,
            n == s@.len(),
            v@ == s@.subrange(0, i as int),
        decreases n - i,
    {
        v.push(s.get_char(i));
        assert(v@ =~= s@.subrange(0, i + 1));
        i += 1;
    }
    assert(v@ =~= s@);
    v
}

/// Whether `pat` stands in `chars` at position `i`.
fn stands_at(chars: &Vec<char>, i: usize, pat: &Vec<char>) -> (yes: bool)
    requires
        i + pat@.len() <= chars@.len(),
    ensures
        yes == (chars@.subrange(i as int, i + pat@.len()) == pat@),
{
    let m = pat.len();
    let n = chars.len();
    let mut j: usize = 0;
    while j < m
        invariant
            j <= m,
            m == pat@.len(),
            n == chars@.len(),
            i + m <= n,
            forall|k: int| 0 <= k < j ==> chars@[i + k] == pat@[k],
        decreases m - j,
    {
        if chars[i + j] != pat[j] {
            assert(chars@.subrange(i as int, i + m)[j as int] == chars@[i + j]);
            return false;
        }
        j += 1;
    }
    assert(chars@.subrange(i as int, i + m) =~= pat@);
    true
}

/// Searches the window `from..to` of `chars` for the first place where `pat`
/// stands, and answers with its position in `chars`.
pub fn find_in_window(chars: &Vec<char>, from: usize, to: usize, pat: &Vec<char>) -> (found:
    Option<usize>)
    requires
        from <= to <= chars@.len(),
    ensures
        match find(chars@.subrange(from as int, to as int), pat@) {
            Some(k) => found == Some((from + k) as usize) && 0 <= k && from + k + pat@.len() <= to,
            None => found is None,
        },
{
    let m = pat.len();
    let n = chars.len();
    let ghost window = chars@.subrange(from as int, to as int);
    if to - from < m {
        proof {
            lemma_find_from_none(window, pat@, 0);
        }
        return None;
    }
    let last = to - m;
    let mut i: usize = from;
    loop
        invariant
            from <= i <= last,
            last == to - m,
            m == pat@.len(),
            from <= to <= n,
            n == chars@.len(),
            window == chars@.subrange(from as int, to as int),
            forall|j: int| 0 <= j < i - from ==> !occurs_at(window, pat@, j),
        decreases last - i,
    {
        assert(window.subrange(i - from, i - from + m) =~= chars@.subrange(i as int, i + m));
        if stands_at(chars, i, pat) {
            proof {
                lemma_find_from_found(window, pat@, 0, i - from);
            }
            return Some(i);
        }
        if i == last {
            proof {
                lemma_find_from_none(window, pat@, 0);
            }
            return None;
        }
        i += 1;
    }
}

/// Whether `item` is among `list`.
pub fn contains_text(list: &Vec<String>, item: &String) -> (yes: bool)
    ensures
        yes == crate::plan::texts(list@).contains(item@),
{
    let mut i: usize = 0;
    while i < list.len()
        invariant
            i <= list@.len(),
            forall|j: int| 0 <= j < i ==> crate::plan::texts(list@)[j] != item@,
        decreases list@.len() - i,
    {
        if list[i] == *item {
            assert(crate::plan::texts(list@)[i as int] == item@);
            return true;
        }
        i += 1;
    }
    false
}

} // verus!
