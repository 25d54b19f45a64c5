//! Identifiers: farm ids (`exchange@pool_id#farm_id`), seed ids, multi-token ids
//! (`:pool_id`) and account ids.
use vstd::prelude::*;

verus! {

/// Index of the first occurrence of `c` in `s`, or `-1`.
pub open spec fn first_index(s: Seq<char>, c: char) -> int
    decreases s.len(),
{
    if s.len() == 0 {
        -1
    } else if s[0] == c {
        0
    } else {
        let r = first_index(s.drop_first(), c);
        if r < 0 {
            -1
        } else {
            r + 1
        }
    }
}

/// The part of `s` before the first `c` (all of `s` if there is none).
pub open spec fn before_first(s: Seq<char>, c: char) -> Seq<char> {
    if first_index(s, c) < 0 {
        s
    } else {
        s.take(first_index(s, c))
    }
}

/// The part of `s` after the first `c`; only meaningful where `c` occurs.
pub open spec fn after_first(s: Seq<char>, c: char) -> Seq<char> {
    s.skip(first_index(s, c) + 1)
}

pub proof fn lemma_first_index_found(s: Seq<char>, c: char, k: int)
    requires
        0 <= k < s.len(),
        s[k] == c,
        forall|j: int| 0 <= j < k ==> s[j] != c,
    ensures
        first_index(s, c) == k,
    decreases k,
{
    if k > 0 {
        lemma_first_index_found(s.drop_first(), c, k - 1);
    }
}

pub proof fn lemma_first_index_absent(s: Seq<char>, c: char)
    requires
        forall|j: int| 0 <= j < s.len() ==> s[j] != c,
    ensures
        first_index(s, c) == -1,
    decreases s.len(),
{
    if s.len() > 0 {
        lemma_first_index_absent(s.drop_first(), c);
    }
}

pub proof fn lemma_first_index_bounds(s: Seq<char>, c: char)
    ensures
        -1 <= first_index(s, c) < s.len(),
        first_index(s, c) >= 0 ==> s[first_index(s, c)] == c,
        first_index(s, c) >= 0 ==> forall|j: int| 0 <= j < first_index(s, c) ==> s[j] != c,
        first_index(s, c) < 0 ==> forall|j: int| 0 <= j < s.len() ==> s[j] != c,
    decreases s.len(),
{
    if s.len() > 0 {
        lemma_first_index_bounds(s.drop_first(), c);
        if s[0] != c {
            assert forall|j: int| 1 <= j < s.len() implies s[j] == s.drop_first()[j - 1] by {}
        }
    }
}

/// Position of the first `c` in `s`.
pub fn index_of_char(s: &str, c: char) -> (res: Option<usize>)
    ensures
        match res {
            Some(i) => i as int == first_index(s@, c),
            None => first_index(s@, c) == -1,
        },
{
    let n = s.unicode_len();
    let mut i: usize = 0;
    while i < n
        invariant
            n == s@.len(),
            i <= n,
            forall|j: int| 0 <= j < i ==> s@[j] != c,
        decreases n - i,
    {
        if s.get_char(i) == c {
            proof {
                lemma_first_index_found(s@, c, i as int);
            }
            return Some(i);
        }
        i = i + 1;
    }
    proof {
        lemma_first_index_absent(s@, c);
    }
    None
}

/// A farm id string holds a `#`, and an `@` before it.
pub open spec fn is_farm_id_spec(s: Seq<char>) -> bool {
    first_index(s, '#') >= 0 && first_index(before_first(s, '#'), '@') >= 0
}

/// The seed id of a farm id string: the text before the first `#`.
pub open spec fn farm_seed_id(s: Seq<char>) -> Seq<char> {
    before_first(s, '#')
}

/// The farm id of a farm id string: the text between the first and the second `#`.
pub open spec fn farm_farm_id(s: Seq<char>) -> Seq<char> {
    before_first(after_first(s, '#'), '#')
}

/// The pool id of a farm id string: the text between the first and the second `@`
/// of its seed id.
pub open spec fn farm_pool_id(s: Seq<char>) -> Seq<char> {
    before_first(after_first(farm_seed_id(s), '@'), '@')
}

/// Whether `s` can be split into seed id, token id and farm id.
pub fn is_farm_id(s: &str) -> (res: bool)
    ensures
        res == is_farm_id_spec(s@),
{
    match index_of_char(s, '#') {
        None => false,
        Some(h) => {
            proof {
                lemma_first_index_bounds(s@, '#');
            }
            let seed = s.substring_char(0, h);
            assert(seed@ =~= before_first(s@, '#'));
            index_of_char(seed, '@').is_some()
        },
    }
}

/// The text of `s` before the first `c`.
fn prefix_before(s: &str, c: char) -> (res: String)
    ensures
        res@ == before_first(s@, c),
{
    proof {
        lemma_first_index_bounds(s@, c);
    }
    match index_of_char(s, c) {
        Some(i) => {
            let p = s.substring_char(0, i);
            p.to_owned()
        },
        None => {
            s.to_owned()
        },
    }
}

/// The text of `s` after the first `c`, which must occur in `s`.
fn suffix_after(s: &str, c: char) -> (res: String)
    requires
        first_index(s@, c) >= 0,
    ensures
        res@ == after_first(s@, c),
{
    proof {
        lemma_first_index_bounds(s@, c);
    }
    let i = index_of_char(s, c).unwrap();
    let n = s.unicode_len();
    let p = s.substring_char(i + 1, n);
    p.to_owned()
}

/// Splits a farm id string `exchange@pool_id#farm_id` into its seed id
/// (`exchange@pool_id`), its multi-token id (`:pool_id`) and its farm id.
pub fn get_ids_from_farm(farm_id_str: String) -> (res: (String, String, String))
    requires
        is_farm_id_spec(farm_id_str@),
    ensures
        res.0@ == farm_seed_id(farm_id_str@),
        res.1@ == wrapped_token_id(farm_pool_id(farm_id_str@)),
        res.2@ == farm_farm_id(farm_id_str@),
{
    let seed = prefix_before(farm_id_str.as_str(), '#');
    let rest = suffix_after(farm_id_str.as_str(), '#');
    let farm = prefix_before(rest.as_str(), '#');
    let after_at = suffix_after(seed.as_str(), '@');
    let pool = prefix_before(after_at.as_str(), '@');
    let token = wrap_mft_token_id(pool.as_str());
    (seed, token, farm)
}

/// `:` followed by the pool id.
pub open spec fn wrapped_token_id(pool_id: Seq<char>) -> Seq<char> {
    seq![':'] + pool_id
}

/// A token id with its first character dropped.
pub open spec fn unwrapped_token_id(token_id: Seq<char>) -> Seq<char> {
    if token_id.len() == 0 {
        token_id
    } else {
        token_id.drop_first()
    }
}

/// Wraps a pool id into the multi-token id format: `:pool_id`.
pub fn wrap_mft_token_id(pool_id: &str) -> (res: String)
    ensures
        res@ == wrapped_token_id(pool_id@),
{
    let mut res = String::from_str(":");
    proof {
        reveal_strlit(":");
    }
    res.append(pool_id);
    res
}

/// Drops the first character of a multi-token id: `:pool_id` gives `pool_id`.
pub fn unwrap_token_id(token_id: &str) -> (res: String)
    ensures
        res@ == unwrapped_token_id(token_id@),
{
    let n = token_id.unicode_len();
    if n == 0 {
        token_id.to_owned()
    } else {
        let s = token_id.substring_char(1, n);
        assert(s@ =~= token_id@.drop_first());
        s.to_owned()
    }
}

/// Wrapping a pool id and unwrapping it gives the pool id back.
pub proof fn lemma_unwrap_wrap(pool_id: Seq<char>)
    ensures
        unwrapped_token_id(wrapped_token_id(pool_id)) == pool_id,
{
    assert((seq![':'] + pool_id).drop_first() =~= pool_id);
}

proof fn lemma_first_index_concat(a: Seq<char>, c: char, b: Seq<char>)
    requires
        forall|j: int| 0 <= j < a.len() ==> a[j] != c,
    ensures
        first_index(a + seq![c] + b, c) == a.len(),
{
    let s = a + seq![c] + b;
    assert(s[a.len() as int] == c);
    assert forall|j: int| 0 <= j < a.len() implies s[j] != c by {
        assert(s[j] == a[j]);
    }
    lemma_first_index_found(s, c, a.len() as int);
}

/// The text `a`, then `c`, then `b`.
pub open spec fn joined(a: Seq<char>, c: char, b: Seq<char>) -> Seq<char> {
    a + seq![c] + b
}

/// Splitting `exchange@pool_id#farm_id` gives back the parts it was built from,
/// provided that none of them holds a `#` and that the exchange and the pool id
/// hold no `@`.
pub proof fn lemma_farm_ids_of_joined(exchange: Seq<char>, pool_id: Seq<char>, farm_id: Seq<char>)
    requires
        forall|j: int| 0 <= j < exchange.len() ==> exchange[j] != '#' && exchange[j] != '@',
        forall|j: int| 0 <= j < pool_id.len() ==> pool_id[j] != '#' && pool_id[j] != '@',
        forall|j: int| 0 <= j < farm_id.len() ==> farm_id[j] != '#',
    ensures
        is_farm_id_spec(joined(joined(exchange, '@', pool_id), '#', farm_id)),
        farm_seed_id(joined(joined(exchange, '@', pool_id), '#', farm_id)) == joined(
            exchange,
            '@',
            pool_id,
        ),
        farm_pool_id(joined(joined(exchange, '@', pool_id), '#', farm_id)) == pool_id,
        farm_farm_id(joined(joined(exchange, '@', pool_id), '#', farm_id)) == farm_id,
{
    let seed = joined(exchange, '@', pool_id);
    let s = joined(seed, '#', farm_id);
    assert forall|j: int| 0 <= j < seed.len() implies seed[j] != '#' by {
        if j < exchange.len() {
            assert(seed[j] == exchange[j]);
        } else if j > exchange.len() {
            assert(seed[j] == pool_id[j - exchange.len() - 1]);
        }
    }
    lemma_first_index_concat(seed, '#', farm_id);
    assert(s.take(seed.len() as int) =~= seed);
    lemma_first_index_concat(exchange, '@', pool_id);
    assert(seed.take(exchange.len() as int) =~= exchange);
    assert(s.skip(seed.len() as int + 1) =~= farm_id);
    lemma_first_index_absent(farm_id, '#');
    assert(seed.skip(exchange.len() as int + 1) =~= pool_id);
    lemma_first_index_absent(pool_id, '@');
}

/// Seed id of a pool: `exchange@pool_id`.
pub fn seed_id_of(exchange: &str, pool_id: u64) -> (res: String)
    ensures
        res@ == joined(exchange@, '@', decimal(pool_id as nat)),
{
    let mut res = String::from_str(exchange);
    let at = "@";
    proof {
        reveal_strlit("@");
    }
    res.append(at);
    let digits = u128_to_string(pool_id as u128);
    res.append(digits.as_str());
    assert(res@ =~= joined(exchange@, '@', decimal(pool_id as nat)));
    res
}

/// Farm id string of a farm of a seed: `seed_id#farm_id`.
pub fn farm_id_str_of(seed_id: &str, farm_id: &str) -> (res: String)
    ensures
        res@ == joined(seed_id@, '#', farm_id@),
{
    let mut res = String::from_str(seed_id);
    proof {
        reveal_strlit("#");
    }
    res.append("#");
    res.append(farm_id);
    assert(res@ =~= joined(seed_id@, '#', farm_id@));
    res
}

/// The decimal digit `d`.
pub open spec fn digit_char(d: nat) -> char {
    if d == 0 {
        '0'
    } else if d == 1 {
        '1'
    } else if d == 2 {
        '2'
    } else if d == 3 {
        '3'
    } else if d == 4 {
        '4'
    } else if d == 5 {
        '5'
    } else if d == 6 {
        '6'
    } else if d == 7 {
        '7'
    } else if d == 8 {
        '8'
    } else {
        '9'
    }
}

/// The decimal notation of `n`, without leading zeros.
pub open spec fn decimal(n: nat) -> Seq<char>
    decreases n,
{
    if n < 10 {
        seq![digit_char(n)]
    } else {
        decimal(n / 10).push(digit_char(n % 10))
    }
}

/// `n.to_string()`: std's `Display` for unsigned integers writes the decimal
/// notation without leading zeros or sign.
#[verifier::external_body]
pub(crate) fn u128_to_string(n: u128) -> (res: String)
    ensures
        res@ == decimal(n as nat),
{
    n.to_string()
}

/// Whether a string is a valid NEAR account id: 2 to 64 characters from
/// `a-z`, `0-9`, `-`, `_` and `.`, where the separators `-`, `_` and `.` never
/// start or end the id and never follow one another.
pub open spec fn is_valid_account_id(s: Seq<char>) -> bool {
    &&& 2 <= s.len() <= 64
    &&& forall|i: int| 0 <= i < s.len() ==> is_account_char(#[trigger] s[i])
    &&& !is_separator(s[0])
    &&& !is_separator(s[s.len() - 1])
    &&& forall|i: int| 0 <= i < s.len() - 1 ==> !(is_separator(#[trigger] s[i]) && is_separator(s[i + 1]))
}

/// A separator of account id parts.
pub open spec fn is_separator(c: char) -> bool {
    c == '-' || c == '_' || c == '.'
}

/// A character allowed in an account id.
pub open spec fn is_account_char(c: char) -> bool {
    ('a' <= c && c <= 'z') || ('0' <= c && c <= '9') || is_separator(c)
}

/// `s.parse::<near_sdk::AccountId>().is_ok()`: `near-account-id`'s validation
/// accepts exactly the ids described by [`is_valid_account_id`].
#[verifier::external_body]
fn account_id_parses(s: &str) -> (res: bool)
    ensures
        res == is_valid_account_id(s@),
{
    s.parse::<near_sdk::AccountId>().is_ok()
}

/// Whether `value` is a valid account id.
pub fn is_account_id(value: &str) -> (res: bool)
    ensures
        res == is_valid_account_id(value@),
{
    account_id_parses(value)
}

/// The account id written in `value`, which must be valid.
pub fn to_account_id(value: &str) -> (res: String)
    requires
        is_valid_account_id(value@),
    ensures
        res@ == value@,
{
    value.to_owned()
}

} // verus!
