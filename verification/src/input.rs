//! Randomized request input generation: method, header subset, optional body.

use crate::rng::coin_flip;
use crate::rng::is_alphanumeric_byte;
use crate::rng::random_alphanumeric_byte;
use crate::rng::random_index;
use crate::rng::string_from_ascii;
use vstd::prelude::*;

verus! {

/// The number of HTTP methods a request can be given.
pub const METHOD_COUNT: usize = 7;

/// An HTTP request method, one of the seven the fuzzer draws from.
#[derive(Clone, Copy, Debug, PartialEq, Eq, Structural)]
pub enum Method {
    Get,
    Post,
    Put,
    Delete,
    Patch,
    Options,
    Head,
}

/// The method standing at position `i` of the fixed candidate list.
pub open spec fn spec_method(i: int) -> Method {
    if i == 0 {
        Method::Get
    } else if i == 1 {
        Method::Post
    } else if i == 2 {
        Method::Put
    } else if i == 3 {
        Method::Delete
    } else if i == 4 {
        Method::Patch
    } else if i == 5 {
        Method::Options
    } else {
        Method::Head
    }
}

/// The canonical upper-case name of a method.
pub open spec fn spec_method_name(m: Method) -> Seq<char> {
    match m {
        Method::Get => "GET"@,
        Method::Post => "POST"@,
        Method::Put => "PUT"@,
        Method::Delete => "DELETE"@,
        Method::Patch => "PATCH"@,
        Method::Options => "OPTIONS"@,
        Method::Head => "HEAD"@,
    }
}

impl Method {
    /// The method at position `i` of the fixed candidate list.
    pub fn from_index(i: usize) -> (r: Method)
        requires
            i < METHOD_COUNT,
        ensures
            r == spec_method(i as int),
    {
        if i == 0 {
            Method::Get
        } else if i == 1 {
            Method::Post
        } else if i == 2 {
            Method::Put
        } else if i == 3 {
            Method::Delete
        } else if i == 4 {
            Method::Patch
        } else if i == 5 {
            Method::Options
        } else {
            Method::Head
        }
    }

    /// The canonical upper-case name of the method.
    pub fn name(&self) -> (r: &'static str)
        ensures
            r@ == spec_method_name(*self),
    {
        match self {
            Method::Get => "GET",
            Method::Post => "POST",
            Method::Put => "PUT",
            Method::Delete => "DELETE",
            Method::Patch => "PATCH",
            Method::Options => "OPTIONS",
            Method::Head => "HEAD",
        }
    }
}

/// Selects a method uniformly at random from the seven candidates.
pub fn random_method() -> (r: Method)
    ensures
        exists|i: int| 0 <= i < METHOD_COUNT && r == spec_method(i),
{
    let i = random_index(METHOD_COUNT);
    Method::from_index(i)
}

/// The number of header candidates a request can draw from.
pub const HEADER_COUNT: usize = 4;

/// The name standing at position `i` of the fixed header candidate list.
pub open spec fn spec_header_name(i: int) -> Seq<char> {
    if i == 0 {
        "User-Agent"@
    } else if i == 1 {
        "X-Fuzz"@
    } else if i == 2 {
        "Accept"@
    } else {
        "Cookie"@
    }
}

/// The value paired with the header name at position `i`.
pub open spec fn spec_header_value(i: int) -> Seq<char> {
    if i == 0 {
        "Mozilla/5.0"@
    } else if i == 1 {
        "true"@
    } else if i == 2 {
        "*/*"@
    } else {
        "ID=deadbeef"@
    }
}

/// Holds when `name` and `value` form one of the four fixed header
/// candidates.
pub open spec fn is_header_candidate(name: Seq<char>, value: Seq<char>) -> bool {
    exists|i: int| 0 <= i < HEADER_COUNT && name == spec_header_name(i) && value == spec_header_value(i)
}

/// The four candidate names are pairwise distinct.
pub proof fn lemma_header_names_distinct(i: int, j: int)
    requires
        0 <= i < HEADER_COUNT,
        0 <= j < HEADER_COUNT,
        i != j,
    ensures
        spec_header_name(i) != spec_header_name(j),
{
    reveal_strlit("User-Agent");
    reveal_strlit("X-Fuzz");
    reveal_strlit("Accept");
    reveal_strlit("Cookie");
    assert(spec_header_name(0).len() == 10);
    assert(spec_header_name(1)[0] == 'X');
    assert(spec_header_name(2)[0] == 'A');
    assert(spec_header_name(3)[0] == 'C');
}

/// The header candidate standing at position `i`.
pub fn header_pair(i: usize) -> (r: (String, String))
    requires
        i < HEADER_COUNT,
    ensures
        r.0@ == spec_header_name(i as int),
        r.1@ == spec_header_value(i as int),
{
    if i == 0 {
        (String::from_str("User-Agent"), String::from_str("Mozilla/5.0"))
    } else if i == 1 {
        (String::from_str("X-Fuzz"), String::from_str("true"))
    } else if i == 2 {
        (String::from_str("Accept"), String::from_str("*/*"))
    } else {
        (String::from_str("Cookie"), String::from_str("ID=deadbeef"))
    }
}

/// Selects 1 to 4 header pairs without replacement from the fixed
/// candidate list, in the order they were sampled. Every returned pair is
/// a candidate and no name repeats.
pub fn random_headers() -> (r: Vec<(String, String)>)
    ensures
        1 <= r@.len() <= HEADER_COUNT,
        forall|k: int|
            0 <= k < r@.len() ==> is_header_candidate(#[trigger] r@[k].0@, r@[k].1@),
        forall|a: int, b: int| 0 <= a < b < r@.len() ==> r@[a].0@ != r@[b].0@,
{
    let count = random_index(HEADER_COUNT) + 1;
    let mut pool: Vec<usize> = Vec::new();
    pool.push(0);
    pool.push(1);
    pool.push(2);
    pool.push(3);
    let mut chosen: Vec<usize> = Vec::new();
    while chosen.len() < count
        invariant
            count <= HEADER_COUNT,
            chosen@.len() + pool@.len() == HEADER_COUNT,
            chosen@.len() <= count,
            forall|a: int| 0 <= a < pool@.len() ==> #[trigger] pool@[a] < HEADER_COUNT,
            forall|a: int| 0 <= a < chosen@.len() ==> #[trigger] chosen@[a] < HEADER_COUNT,
            forall|a: int, b: int| 0 <= a < b < pool@.len() ==> pool@[a] != pool@[b],
            forall|a: int, b: int| 0 <= a < b < chosen@.len() ==> chosen@[a] != chosen@[b],
            forall|a: int, b: int|
                0 <= a < chosen@.len() && 0 <= b < pool@.len() ==> chosen@[a] != pool@[b],
        decreases count - chosen.len(),
    {
        let k = random_index(pool.len());
        let i = pool.swap_remove(k);
        chosen.push(i);
    }
    let mut out: Vec<(String, String)> = Vec::new();
    let mut j: usize = 0;
    while j < chosen.len()
        invariant
            j <= chosen@.len(),
            1 <= chosen@.len() <= HEADER_COUNT,
            out@.len() == j,
            forall|a: int| 0 <= a < chosen@.len() ==> #[trigger] chosen@[a] < HEADER_COUNT,
            forall|a: int, b: int| 0 <= a < b < chosen@.len() ==> chosen@[a] != chosen@[b],
            forall|a: int| 0 <= a < j ==> #[trigger] out@[a].0@ == spec_header_name(chosen@[a] as int),
            forall|a: int| 0 <= a < j ==> #[trigger] out@[a].1@ == spec_header_value(chosen@[a] as int),
            forall|a: int|
                0 <= a < j ==> is_header_candidate(#[trigger] out@[a].0@, out@[a].1@),
            forall|a: int, b: int| 0 <= a < b < j ==> out@[a].0@ != out@[b].0@,
        decreases chosen.len() - j,
    {
        let ghost old_out = out@;
        let p = header_pair(chosen[j]);
        out.push(p);
        proof {
            assert(out@ =~= old_out.push(p));
            let jj = j as int;
            assert(out@[jj].0@ == spec_header_name(chosen@[jj] as int));
            assert(out@[jj].1@ == spec_header_value(chosen@[jj] as int));
            assert(is_header_candidate(out@[jj].0@, out@[jj].1@));
            assert forall|a: int, b: int|
                0 <= a < b < j + 1 implies out@[a].0@ != out@[b].0@ by {
                if b == jj {
                    lemma_header_names_distinct(chosen@[a] as int, chosen@[b] as int);
                }
            }
        }
        j += 1;
    }
    out
}

/// The shortest body length the generator produces.
pub const BODY_MIN_LEN: usize = 5;

/// The exclusive upper bound on generated body lengths.
pub const BODY_MAX_LEN: usize = 30;

/// Holds for ASCII lowercase letters, uppercase letters and digits.
pub open spec fn is_alphanumeric_char(c: char) -> bool {
    (97 <= c as u32 <= 122) || (65 <= c as u32 <= 90) || (48 <= c as u32 <= 57)
}

/// Holds for a generated body: length in the configured range, every
/// character alphanumeric.
pub open spec fn is_valid_body(s: Seq<char>) -> bool {
    &&& BODY_MIN_LEN <= s.len() < BODY_MAX_LEN
    &&& forall|j: int| 0 <= j < s.len() ==> is_alphanumeric_char(#[trigger] s[j])
}

/// Builds the optional body once the coin has been tossed: no body when
/// the toss came up `false`, an alphanumeric body of random length in
/// `[BODY_MIN_LEN, BODY_MAX_LEN)` when it came up `true`.
pub fn body_given_flip(flip: bool) -> (r: Option<String>)
    ensures
        r is Some <==> flip,
        r is Some ==> is_valid_body(r->0@),
{
    if flip {
        let len = BODY_MIN_LEN + random_index(BODY_MAX_LEN - BODY_MIN_LEN);
        let mut bytes: Vec<u8> = Vec::new();
        let mut j: usize = 0;
        while j < len
            invariant
                j <= len,
                len < BODY_MAX_LEN,
                bytes@.len() == j,
                forall|a: int| 0 <= a < j ==> is_alphanumeric_byte(#[trigger] bytes@[a]),
            decreases len - j,
        {
            let b = random_alphanumeric_byte();
            bytes.push(b);
            j += 1;
        }
        let s = string_from_ascii(bytes);
        proof {
            assert forall|a: int| 0 <= a < s@.len() implies is_alphanumeric_char(#[trigger] s@[a]) by {
                assert(is_alphanumeric_byte(bytes@[a]));
            }
        }
        Some(s)
    } else {
        None
    }
}

/// Generates the optional request body: with probability one half no body,
/// otherwise an alphanumeric body of random length in
/// `[BODY_MIN_LEN, BODY_MAX_LEN)`.
pub fn random_body() -> (r: Option<String>)
    ensures
        r is Some ==> is_valid_body(r->0@),
{
    body_given_flip(coin_flip())
}

} // verus!
