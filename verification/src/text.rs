//! Text helpers: copies of strings and lists of strings, the server part of
//! an identifier, and decimal numerals.

use vstd::prelude::*;
use vstd::string::*;

verus! {

/// The views of a sequence of strings.
pub open spec fn views(s: Seq<String>) -> Seq<Seq<char>> {
    s.map_values(|x: String| x@)
}

/// The view of an optional string.
pub open spec fn opt_view(s: Option<String>) -> Option<Seq<char>> {
    match s {
        Some(x) => Some(x@),
        None => None,
    }
}

/// Copies an optional string.
pub fn clone_opt(s: &Option<String>) -> (r: Option<String>)
    ensures
        opt_view(r) == opt_view(*s),
{
    match s {
        Some(x) => Some(x.clone()),
        None => None,
    }
}

/// Copies a list of strings.
pub fn clone_strings(v: &Vec<String>) -> (r: Vec<String>)
    ensures
        views(r@) == views(v@),
{
    let mut r: Vec<String> = Vec::new();
    let mut i: usize = 0;
    while i < v.len()
        invariant
            i <= v.len(),
            r@.len() == i,
            forall|j: int| 0 <= j < i ==> (#[trigger] r@[j])@ == v@[j]@,
        decreases v.len() - i,
    {
        r.push(v[i].clone());
        i = i + 1;
    }
    assert(views(r@) =~= views(v@));
    r
}

/// Whether `needle` occurs in `list`.
pub fn contains_string(list: &Vec<String>, needle: &String) -> (r: bool)
    ensures
        r == views(list@).contains(needle@),
{
    let mut i: usize = 0;
    while i < list.len()
        invariant
            i <= list.len(),
            forall|j: int| 0 <= j < i ==> (#[trigger] list@[j])@ != needle@,
        decreases list.len() - i,
    {
        if list[i] == *needle {
            assert(views(list@)[i as int] == needle@);
            return true;
        }
        i = i + 1;
    }
    assert forall|j: int| 0 <= j < views(list@).len() implies views(list@)[j] != needle@ by {
        assert(views(list@)[j] == list@[j]@);
    }
    false
}

/// Whether `i` is the position of the first colon of `s`.
pub open spec fn is_first_colon(s: Seq<char>, i: int) -> bool {
    &&& 0 <= i < s.len()
    &&& s[i] == ':'
    &&& forall|j: int| 0 <= j < i ==> s[j] != ':'
}

/// Whether `s` holds a colon.
pub open spec fn has_colon(s: Seq<char>) -> bool {
    exists|i: int| is_first_colon(s, i)
}

/// What follows the first colon of an identifier: the name of the server
/// that the identifier belongs to. `None` where there is no colon.
pub open spec fn server_part(s: Seq<char>) -> Option<Seq<char>> {
    if has_colon(s) {
        let i = choose|i: int| is_first_colon(s, i);
        Some(s.subrange(i + 1, s.len() as int))
    } else {
        None
    }
}

/// The first colon of a string is unique.
pub proof fn lemma_first_colon_unique(s: Seq<char>, i: int, j: int)
    requires
        is_first_colon(s, i),
        is_first_colon(s, j),
    ensures
        i == j,
{
    if i < j {
        assert(s[i] != ':');
    } else if j < i {
        assert(s[j] != ':');
    }
}

/// The server name of a user, room or event identifier: what follows its
/// first colon.
pub fn server_name_of(id: &str) -> (r: Option<String>)
    ensures
        opt_view(r) == server_part(id@),
{
    let n = id.unicode_len();
    let mut i: usize = 0;
    while i < n
        invariant
            n == id@.len(),
            i <= n,
            forall|j: int| 0 <= j < i ==> id@[j] != ':',
        decreases n - i,
    {
        if id.get_char(i) == ':' {
            let rest = id.substring_char(i + 1, n);
            proof {
                assert(is_first_colon(id@, i as int));
                let c = choose|c: int| is_first_colon(id@, c);
                lemma_first_colon_unique(id@, i as int, c);
            }
            return Some(rest.to_owned());
        }
        i = i + 1;
    }
    proof {
        if has_colon(id@) {
            let c = choose|c: int| is_first_colon(id@, c);
            assert(id@[c] == ':');
        }
    }
    None
}

/// The character of one decimal digit.
pub open spec fn digit_char(d: nat) -> char {
    if d == 0 {
        '0'
    } else if d == 1 {
        '1'
    } else if d == 2 {
        '2'
    } else if d == 3 {
        '3'
    } else if d == 4 {
        '4'
    } else if d == 5 {
        '5'
    } else if d == 6 {
        '6'
    } else if d == 7 {
        '7'
    } else if d == 8 {
        '8'
    } else {
        '9'
    }
}

/// The decimal numeral of a natural number, without leading zeros.
pub open spec fn decimal(n: nat) -> Seq<char>
    decreases n,
{
    if n < 10 {
        seq![digit_char(n)]
    } else {
        decimal(n / 10).push(digit_char(n % 10))
    }
}

fn digit_str(d: u64) -> (s: &'static str)
    requires
        d < 10,
    ensures
        s@ == seq![digit_char(d as nat)],
{
    proof {
        reveal_strlit("0");
        reveal_strlit("1");
        reveal_strlit("2");
        reveal_strlit("3");
        reveal_strlit("4");
        reveal_strlit("5");
        reveal_strlit("6");
        reveal_strlit("7");
        reveal_strlit("8");
        reveal_strlit("9");
    }
    let s = if d == 0 {
        "0"
    } else if d == 1 {
        "1"
    } else if d == 2 {
        "2"
    } else if d == 3 {
        "3"
    } else if d == 4 {
        "4"
    } else if d == 5 {
        "5"
    } else if d == 6 {
        "6"
    } else if d == 7 {
        "7"
    } else if d == 8 {
        "8"
    } else {
        "9"
    };
    assert(s@ =~= seq![digit_char(d as nat)]);
    s
}

/// Writes a number as a decimal numeral.
pub fn decimal_string(n: u64) -> (s: String)
    ensures
        s@ == decimal(n as nat),
    decreases n,
{
    if n < 10 {
        digit_str(n).to_owned()
    } else {
        let head = decimal_string(n / 10);
        let s = head.concat(digit_str(n % 10));
        assert(s@ =~= decimal((n / 10) as nat).push(digit_char((n % 10) as nat)));
        s
    }
}

} // verus!
