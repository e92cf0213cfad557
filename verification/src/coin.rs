//! Coin literals of the token-transfer boundary. A coin literal is a decimal
//! amount followed by a denomination: the amount is one or more digits, the
//! denomination starts with a letter and continues with letters, digits or
//! one of `/ : . _ - \`. Lists of coins are comma-separated.

use vstd::prelude::*;

use crate::errors::TokenTransferError;
use crate::identifier::{dec_str, digit_char, lemma_dec_str_valid, u64_to_dec, ChannelId, PortId};

verus! {

pub open spec fn digit(c: char) -> bool {
    ('0' as u32) <= c as u32 <= ('9' as u32)
}

pub open spec fn letter(c: char) -> bool {
    (('a' as u32) <= c as u32 <= ('z' as u32)) || (('A' as u32) <= c as u32 <= ('Z' as u32))
}

pub open spec fn denom_char(c: char) -> bool {
    letter(c) || digit(c) || c as u32 == ('/' as u32) || c as u32 == (':' as u32) || c as u32 == (
    '.' as u32) || c as u32 == ('_' as u32) || c as u32 == ('-' as u32) || c as u32 == (
    '\\' as u32)
}

pub open spec fn all_digits(s: Seq<char>) -> bool {
    forall|i: int| 0 <= i < s.len() ==> digit(#[trigger] s[i])
}

/// A canonical decimal amount: nonempty, only digits, and no leading zero
/// unless the amount is exactly `0`.
pub open spec fn canonical_amount(s: Seq<char>) -> bool {
    s.len() >= 1 && all_digits(s) && (s.len() > 1 ==> s[0] != '0')
}

/// A valid denomination: nonempty, starts with a letter, and every character
/// is drawn from the denomination alphabet.
pub open spec fn valid_denom(s: Seq<char>) -> bool {
    s.len() >= 1 && letter(s[0]) && (forall|i: int| 0 <= i < s.len() ==> denom_char(#[trigger] s[i]))
}

/// `k` is the end of the maximal digit prefix of `s`.
pub open spec fn is_digit_prefix_end(s: Seq<char>, k: int) -> bool {
    &&& 0 <= k <= s.len()
    &&& (forall|i: int| 0 <= i < k ==> digit(#[trigger] s[i]))
    &&& (k < s.len() ==> !digit(s[k]))
}

pub proof fn lemma_digit_prefix_end_unique(s: Seq<char>, k1: int, k2: int)
    requires
        is_digit_prefix_end(s, k1),
        is_digit_prefix_end(s, k2),
    ensures
        k1 == k2,
{
    if k1 < k2 {
        assert(digit(s[k1]));
    }
    if k2 < k1 {
        assert(digit(s[k2]));
    }
}

/// Where the amount of a coin literal ends and its denomination starts.
pub open spec fn coin_split_at(s: Seq<char>) -> int {
    choose|k: int| is_digit_prefix_end(s, k)
}

/// Whether `s` is a coin literal: at least one digit, then a valid
/// denomination.
pub open spec fn coin_grammar(s: Seq<char>) -> bool {
    let k = coin_split_at(s);
    1 <= k < s.len() && valid_denom(s.subrange(k, s.len() as int))
}

/// Drops leading zeros, keeping at least one digit.
pub open spec fn strip_zeros(s: Seq<char>) -> Seq<char>
    decreases s.len(),
{
    if s.len() > 1 && s[0] == '0' {
        strip_zeros(s.drop_first())
    } else {
        s
    }
}

/// The canonical amount denoted by a coin literal.
pub open spec fn coin_amount_part(s: Seq<char>) -> Seq<char> {
    strip_zeros(s.subrange(0, coin_split_at(s)))
}

/// The denomination of a coin literal.
pub open spec fn coin_denom_part(s: Seq<char>) -> Seq<char> {
    s.subrange(coin_split_at(s), s.len() as int)
}

proof fn lemma_strip_zeros_at(t: Seq<char>, z: int)
    requires
        0 <= z < t.len(),
        forall|j: int| 0 <= j < z ==> t[j] == '0',
        z < t.len() - 1 ==> t[z] != '0',
    ensures
        strip_zeros(t) =~= t.subrange(z, t.len() as int),
    decreases z,
{
    if z == 0 {
        if t.len() > 1 && t[0] == '0' {
            // then z == 0 < t.len() - 1, contradiction with t[z] != '0'
            assert(false);
        }
        assert(t.subrange(0, t.len() as int) =~= t);
    } else {
        assert(t.len() > 1 && t[0] == '0');
        let u = t.drop_first();
        assert(forall|j: int| 0 <= j < z - 1 ==> #[trigger] u[j] == '0');
        lemma_strip_zeros_at(u, z - 1);
        assert(u.subrange(z - 1, u.len() as int) =~= t.subrange(z, t.len() as int));
    }
}

proof fn lemma_strip_zeros_canonical(t: Seq<char>)
    requires
        t.len() >= 1,
        all_digits(t),
    ensures
        canonical_amount(strip_zeros(t)),
    decreases t.len(),
{
    if t.len() > 1 && t[0] == '0' {
        lemma_strip_zeros_canonical(t.drop_first());
    }
}

/// Stripping a canonical amount changes nothing.
proof fn lemma_strip_zeros_id(t: Seq<char>)
    requires
        canonical_amount(t),
    ensures
        strip_zeros(t) == t,
{
}

/// An arbitrary-precision non-negative integer, kept as its canonical
/// decimal rendering.
#[derive(Debug, PartialEq, Eq, Hash)]
pub struct Amount {
    pub digits: String,
}

impl Clone for Amount {
    fn clone(&self) -> (r: Self)
        ensures
            r.digits@ == self.digits@,
    {
        Amount { digits: self.digits.clone() }
    }
}

impl View for Amount {
    type V = Seq<char>;

    open spec fn view(&self) -> Seq<char> {
        self.digits@
    }
}

impl Amount {
    pub open spec fn well_formed(&self) -> bool {
        canonical_amount(self@)
    }

    /// The canonical amount for a machine word.
    pub fn from_u64(n: u64) -> (r: Amount)
        ensures
            r@ == dec_str(n as nat),
            r.well_formed(),
    {
        proof {
            lemma_dec_str_valid(n as nat);
            lemma_dec_str_leading(n as nat);
        }
        Amount { digits: u64_to_dec(n) }
    }
}

proof fn lemma_dec_str_leading(n: nat)
    ensures
        canonical_amount(dec_str(n)),
        n >= 1 ==> dec_str(n)[0] != '0',
        dec_str(n).len() > 1 ==> dec_str(n)[0] != '0',
    decreases n,
{
    lemma_dec_str_valid(n);
    if n >= 10 {
        assert(n / 10 < n) by (nonlinear_arith)
            requires
                n >= 10,
        ;
        lemma_dec_str_leading(n / 10);
        assert(dec_str(n)[0] == dec_str(n / 10)[0]);
    } else {
        assert(dec_str(n) =~= seq![digit_char(n)]);
    }
}

/// A token: a denomination and an amount.
#[derive(Debug, PartialEq, Eq, Hash)]
pub struct Coin {
    /// Denomination
    pub denom: String,
    /// Amount
    pub amount: Amount,
}

impl Clone for Coin {
    fn clone(&self) -> (r: Self)
        ensures
            r.denom@ == self.denom@,
            r.amount@ == self.amount@,
    {
        Coin { denom: self.denom.clone(), amount: self.amount.clone() }
    }
}

pub fn is_digit_char(c: char) -> (r: bool)
    ensures
        r == digit(c),
{
    let u = c as u32;
    ('0' as u32) <= u && u <= ('9' as u32)
}

pub fn is_letter_char(c: char) -> (r: bool)
    ensures
        r == letter(c),
{
    let u = c as u32;
    (('a' as u32) <= u && u <= ('z' as u32)) || (('A' as u32) <= u && u <= ('Z' as u32))
}

pub fn is_denom_char(c: char) -> (r: bool)
    ensures
        r == denom_char(c),
{
    let u = c as u32;
    is_letter_char(c) || is_digit_char(c) || u == ('/' as u32) || u == (':' as u32) || u == (
    '.' as u32) || u == ('_' as u32) || u == ('-' as u32) || u == ('\\' as u32)
}

impl Coin {
    pub open spec fn well_formed(&self) -> bool {
        canonical_amount(self.amount@) && valid_denom(self.denom@)
    }

    /// Parses a coin literal: a maximal run of digits, then a denomination.
    /// The amount is canonicalized by dropping leading zeros.
    pub fn from_str(coin_str: &str) -> (r: Result<Coin, TokenTransferError>)
        ensures
            r is Ok <==> coin_grammar(coin_str@),
            r matches Ok(c) ==> {
                &&& c.well_formed()
                &&& c.amount@ == coin_amount_part(coin_str@)
                &&& c.denom@ == coin_denom_part(coin_str@)
            },
            r matches Err(e) ==> e matches TokenTransferError::InvalidCoin { coin } && coin@
                == coin_str@,
    {
        let n = coin_str.unicode_len();
        let ghost sv = coin_str@;

        // Maximal digit prefix.
        let mut k: usize = 0;
        while k < n && is_digit_char(coin_str.get_char(k))
            invariant
                n == sv.len(),
                k <= n,
                sv == coin_str@,
                forall|i: int| 0 <= i < k ==> digit(#[trigger] sv[i]),
            decreases n - k,
        {
            k += 1;
        }
        proof {
            assert(is_digit_prefix_end(sv, k as int));
        }

        if k == 0 || k == n {
            proof {
                if coin_grammar(sv) {
                    lemma_digit_prefix_end_unique(sv, k as int, coin_split_at(sv));
                }
            }
            return Err(TokenTransferError::InvalidCoin { coin: coin_str.to_owned() });
        }

        // The remainder must be a valid denomination.
        let mut ok = is_letter_char(coin_str.get_char(k));
        let mut i: usize = k;
        while ok && i < n
            invariant
                n == sv.len(),
                sv == coin_str@,
                k <= i <= n,
                0 < k < n,
                ok ==> letter(sv[k as int]),
                ok ==> forall|j: int| k <= j < i ==> denom_char(#[trigger] sv[j]),
                !ok ==> !valid_denom(sv.subrange(k as int, n as int)),
            decreases n - i,
        {
            if !is_denom_char(coin_str.get_char(i)) {
                proof {
                    let d = sv.subrange(k as int, n as int);
                    assert(d[i - k as int] == sv[i as int]);
                    assert(!denom_char(d[i - k as int]));
                }
                ok = false;
            }
            i += 1;
        }
        if !ok {
            proof {
                if coin_grammar(sv) {
                    lemma_digit_prefix_end_unique(sv, k as int, coin_split_at(sv));
                }
            }
            return Err(TokenTransferError::InvalidCoin { coin: coin_str.to_owned() });
        }
        proof {
            let d = sv.subrange(k as int, n as int);
            assert(letter(d[0]));
            assert(forall|j: int| 0 <= j < d.len() ==> denom_char(#[trigger] d[j]));
            assert(valid_denom(d));
        }

        // Canonicalize the amount.
        let mut z: usize = 0;
        while z < k - 1 && coin_str.get_char(z) == '0'
            invariant
                n == sv.len(),
                sv == coin_str@,
                0 < k < n,
                z <= k - 1,
                forall|j: int| 0 <= j < z ==> #[trigger] sv[j] == '0',
            decreases k - z,
        {
            z += 1;
        }

        let amount_str = coin_str.substring_char(z, k);
        let denom_str = coin_str.substring_char(k, n);

        proof {
            let t = sv.subrange(0, k as int);
            assert(forall|j: int| 0 <= j < z ==> #[trigger] t[j] == '0');
            assert(z < k - 1 ==> t[z as int] != '0');
            lemma_strip_zeros_at(t, z as int);
            lemma_strip_zeros_canonical(t);
            assert(amount_str@ =~= t.subrange(z as int, t.len() as int));
            lemma_digit_prefix_end_unique(sv, k as int, coin_split_at(sv));
        }

        Ok(Coin { denom: denom_str.to_owned(), amount: Amount { digits: amount_str.to_owned() } })
    }

    /// Renders the coin back to its literal: the amount directly followed by
    /// the denomination.
    pub fn format(&self) -> (r: String)
        ensures
            r@ == self.amount@ + self.denom@,
    {
        let mut s = self.amount.digits.clone();
        s.append(self.denom.as_str());
        s
    }
}

/// Formatting a well-formed coin and parsing the literal back yields the
/// same coin: the grammar accepts the literal, the amount part is the coin's
/// amount, and the denomination part is the coin's denomination.
pub proof fn lemma_coin_round_trip(amount: Seq<char>, denom: Seq<char>)
    requires
        canonical_amount(amount),
        valid_denom(denom),
    ensures
        coin_grammar(amount + denom),
        coin_amount_part(amount + denom) == amount,
        coin_denom_part(amount + denom) == denom,
{
    let s = amount + denom;
    let k = amount.len() as int;
    assert(!digit(s[k]));
    assert(forall|i: int| 0 <= i < k ==> digit(#[trigger] s[i]));
    assert(is_digit_prefix_end(s, k));
    lemma_digit_prefix_end_unique(s, k, coin_split_at(s));
    assert(s.subrange(k, s.len() as int) =~= denom);
    assert(s.subrange(0, k) =~= amount);
    lemma_strip_zeros_id(amount);
}

/// The index of the first comma at or after `i`, or the length of `s` if
/// there is none.
pub open spec fn next_comma(s: Seq<char>, i: int) -> int
    decreases s.len() - i,
        when 0 <= i <= s.len()
{
    if i >= s.len() {
        s.len() as int
    } else if s[i] == ',' {
        i
    } else {
        next_comma(s, i + 1)
    }
}

pub proof fn lemma_next_comma(s: Seq<char>, i: int)
    requires
        0 <= i <= s.len(),
    ensures
        i <= next_comma(s, i) <= s.len(),
        next_comma(s, i) < s.len() ==> s[next_comma(s, i)] == ',',
        forall|j: int| i <= j < next_comma(s, i) ==> s[j] != ',',
    decreases s.len() - i,
{
    if i < s.len() && s[i] != ',' {
        lemma_next_comma(s, i + 1);
    }
}

/// The comma-separated segments of `s` starting at `i`.
pub open spec fn split_from(s: Seq<char>, i: int) -> Seq<Seq<char>>
    decreases s.len() - i,
        when 0 <= i <= s.len()
        via split_from_decreases
{
    let j = next_comma(s, i);
    if j >= s.len() {
        seq![s.subrange(i, s.len() as int)]
    } else {
        seq![s.subrange(i, j)] + split_from(s, j + 1)
    }
}

#[via_fn]
proof fn split_from_decreases(s: Seq<char>, i: int) {
    lemma_next_comma(s, i);
}

/// The comma-separated segments of a whole string.
pub open spec fn split_commas(s: Seq<char>) -> Seq<Seq<char>> {
    split_from(s, 0)
}

/// Finds the first comma at or after `from`.
fn find_comma(s: &str, from: usize) -> (r: usize)
    requires
        from <= s@.len(),
    ensures
        r == next_comma(s@, from as int),
{
    let n = s.unicode_len();
    let mut i: usize = from;
    while i < n
        invariant
            from <= i <= n,
            n == s@.len(),
            forall|j: int| from <= j < i ==> s@[j] != ',',
            next_comma(s@, from as int) == next_comma(s@, i as int),
        decreases n - i,
    {
        if s.get_char(i) == ',' {
            return i;
        }
        i += 1;
    }
    i
}

impl Coin {
    /// Parses a comma-separated list of coin literals; fails if any segment
    /// is not a coin literal.
    pub fn from_string_list(coin_str: &str) -> (r: Result<Vec<Coin>, TokenTransferError>)
        ensures
            r is Ok <==> (forall|i: int|
                0 <= i < split_commas(coin_str@).len() ==> coin_grammar(
                    #[trigger] split_commas(coin_str@)[i],
                )),
            r matches Ok(coins) ==> {
                &&& coins@.len() == split_commas(coin_str@).len()
                &&& forall|i: int|
                    0 <= i < coins@.len() ==> {
                        &&& (#[trigger] coins@[i]).well_formed()
                        &&& coins@[i].amount@ == coin_amount_part(split_commas(coin_str@)[i])
                        &&& coins@[i].denom@ == coin_denom_part(split_commas(coin_str@)[i])
                    }
            },
            r matches Err(e) ==> (exists|i: int|
                {
                    &&& 0 <= i < split_commas(coin_str@).len()
                    &&& !coin_grammar(#[trigger] split_commas(coin_str@)[i])
                    &&& (forall|j: int|
                        0 <= j < i ==> coin_grammar(#[trigger] split_commas(coin_str@)[j]))
                    &&& e matches TokenTransferError::InvalidCoin { coin } && coin@ == split_commas(
                        coin_str@,
                    )[i]
                }),
    {
        let n = coin_str.unicode_len();
        let ghost sv = coin_str@;
        let ghost segs = split_commas(sv);

        let mut coins: Vec<Coin> = Vec::new();
        let mut start: usize = 0;

        loop
            invariant
                n == sv.len(),
                sv == coin_str@,
                start <= n,
                segs == split_commas(sv),
                segs =~= split_from(sv, 0),
                coins@.len() <= segs.len(),
                segs =~= split_from(sv, 0).subrange(0, coins@.len() as int) + split_from(
                    sv,
                    start as int,
                ) || coins@.len() > 0,
                split_from(sv, 0) =~= split_from(sv, 0).subrange(0, coins@.len() as int)
                    + split_from(sv, start as int),
                forall|i: int|
                    0 <= i < coins@.len() ==> {
                        &&& (#[trigger] coins@[i]).well_formed()
                        &&& coins@[i].amount@ == coin_amount_part(segs[i])
                        &&& coins@[i].denom@ == coin_denom_part(segs[i])
                        &&& coin_grammar(segs[i])
                    },
            decreases n - start + 1,
        {
            let j = find_comma(coin_str, start);
            proof {
                lemma_next_comma(sv, start as int);
            }
            let seg = coin_str.substring_char(start, j);
            let ghost segv = sv.subrange(start as int, j as int);
            match Coin::from_str(seg) {
                Ok(c) => {
                    proof {
                        let done = split_from(sv, 0).subrange(0, coins@.len() as int);
                        if j < n {
                            assert(split_from(sv, start as int) =~= seq![segv] + split_from(
                                sv,
                                j + 1,
                            ));
                        } else {
                            assert(split_from(sv, start as int) =~= seq![segv]);
                        }
                        assert(split_from(sv, start as int)[0] == segv);
                        assert(segs[coins@.len() as int] == segv);
                        assert(split_from(sv, 0) =~= done.push(segv) + split_from(
                            sv,
                            start as int,
                        ).drop_first());
                        assert(done.push(segv) =~= split_from(sv, 0).subrange(
                            0,
                            coins@.len() as int + 1,
                        ));
                    }
                    let ghost prev = coins@;
                    coins.push(c);
                    proof {
                        assert forall|i: int| 0 <= i < coins@.len() implies {
                            &&& (#[trigger] coins@[i]).well_formed()
                            &&& coins@[i].amount@ == coin_amount_part(segs[i])
                            &&& coins@[i].denom@ == coin_denom_part(segs[i])
                            &&& coin_grammar(segs[i])
                        } by {
                            if i == coins@.len() - 1 {
                                assert(coins@[i] == c);
                                assert(segs[i] == segv);
                            } else {
                                assert(coins@[i] == prev[i]);
                            }
                        }
                    }
                },
                Err(e) => {
                    // The first failing segment's error is surfaced.
                    proof {
                        let idx = coins@.len() as int;
                        assert(split_from(sv, start as int)[0] == segv);
                        assert(segs[idx] == segv);
                        assert(!coin_grammar(segs[idx]));
                        assert forall|j: int| 0 <= j < idx implies coin_grammar(
                            #[trigger] segs[j],
                        ) by {
                            assert(coins@[j].well_formed());
                        }
                    }
                    return Err(e);
                },
            }
            if j >= n {
                proof {
                    assert(split_from(sv, start as int) =~= seq![segv]);
                    let done = split_from(sv, 0).subrange(0, coins@.len() as int - 1);
                    assert(split_from(sv, 0) =~= done.push(segv) + split_from(
                        sv,
                        start as int,
                    ).drop_first());
                    assert(split_from(sv, start as int).drop_first() =~= Seq::<
                        Seq<char>,
                    >::empty());
                    assert(split_from(sv, 0) =~= done.push(segv));
                    assert(coins@.len() == segs.len());
                    assert forall|i: int| 0 <= i < segs.len() implies coin_grammar(
                        #[trigger] segs[i],
                    ) by {
                        assert(coins@[i].well_formed());
                    }
                }
                return Ok(coins);
            }
            start = j + 1;
        }
    }
}

/// The wire form of a coin: denomination and amount, both strings.
#[derive(Clone, Debug, PartialEq, Eq)]
pub struct ProtoCoin {
    pub denom: String,
    pub amount: String,
}

impl Coin {
    /// Validates a wire coin: the amount must be one or more digits; it is
    /// canonicalized. The denomination is carried through unchecked, as it
    /// may be a prefixed path rather than a base denomination.
    pub fn try_from_proto(proto: ProtoCoin) -> (r: Result<Coin, TokenTransferError>)
        ensures
            r is Ok <==> (proto.amount@.len() > 0 && all_digits(proto.amount@)),
            r matches Ok(c) ==> {
                &&& c.denom@ == proto.denom@
                &&& c.amount@ == strip_zeros(proto.amount@)
                &&& canonical_amount(c.amount@)
            },
            r is Err ==> r == Err::<Coin, TokenTransferError>(TokenTransferError::InvalidAmount),
    {
        let s = proto.amount.as_str();
        let n = s.unicode_len();
        let ghost sv = s@;
        if n == 0 {
            return Err(TokenTransferError::InvalidAmount);
        }
        let mut i: usize = 0;
        while i < n
            invariant
                i <= n,
                n == sv.len(),
                sv == s@,
                sv == proto.amount@,
                forall|j: int| 0 <= j < i ==> digit(#[trigger] sv[j]),
            decreases n - i,
        {
            if !is_digit_char(s.get_char(i)) {
                proof {
                    assert(!digit(sv[i as int]));
                    assert(!all_digits(proto.amount@)) by {
                        assert(proto.amount@[i as int] == sv[i as int]);
                    }
                }
                return Err(TokenTransferError::InvalidAmount);
            }
            i += 1;
        }
        let mut z: usize = 0;
        while z < n - 1 && s.get_char(z) == '0'
            invariant
                n == sv.len(),
                sv == s@,
                0 < n,
                z <= n - 1,
                forall|j: int| 0 <= j < z ==> #[trigger] sv[j] == '0',
            decreases n - z,
        {
            z += 1;
        }
        let amount_str = s.substring_char(z, n);
        proof {
            let t = sv.subrange(0, n as int);
            assert(t =~= sv);
            lemma_strip_zeros_at(sv, z as int);
            lemma_strip_zeros_canonical(sv);
        }
        Ok(Coin { denom: proto.denom, amount: Amount { digits: amount_str.to_owned() } })
    }

    /// Renders the coin to its wire form.
    pub fn into_proto(self) -> (r: ProtoCoin)
        ensures
            r.denom@ == self.denom@,
            r.amount@ == self.amount@,
    {
        ProtoCoin { denom: self.denom, amount: self.amount.digits }
    }
}

/// The trace prefix a transfer prepends on receive:
/// `{port}/{channel}/`.
pub open spec fn trace_prefix(port_id: Seq<char>, channel_id: Seq<char>) -> Seq<char> {
    port_id + "/"@ + channel_id + "/"@
}

/// Prepends the `{port}/{channel}/` trace prefix to a denomination, as a
/// transfer does when it receives a token.
pub fn prepend_trace_prefix(port_id: &PortId, channel_id: &ChannelId, denom: &str) -> (r: String)
    ensures
        r@ == trace_prefix(port_id@, channel_id@) + denom@,
{
    let mut s = String::from_str(port_id.as_str());
    s.append("/");
    s.append(channel_id.as_str());
    s.append("/");
    s.append(denom);
    proof {
        assert(s@ =~= trace_prefix(port_id@, channel_id@) + denom@);
    }
    s
}

/// Strips the `{port}/{channel}/` trace prefix from a denomination, as a
/// transfer does when a token returns to its origin; fails when the
/// denomination does not start with that prefix.
pub fn strip_trace_prefix(port_id: &PortId, channel_id: &ChannelId, denom: &str) -> (r: Option<
    String,
>)
    ensures
        r is Some <==> (denom@.len() >= trace_prefix(port_id@, channel_id@).len() && denom@.subrange(
            0,
            trace_prefix(port_id@, channel_id@).len() as int,
        ) == trace_prefix(port_id@, channel_id@)),
        r matches Some(rest) ==> rest@ == denom@.subrange(
            trace_prefix(port_id@, channel_id@).len() as int,
            denom@.len() as int,
        ),
{
    let prefix = prepend_trace_prefix(port_id, channel_id, "");
    let ghost pv = trace_prefix(port_id@, channel_id@);
    proof {
        reveal_strlit("");
        assert(prefix@ =~= pv);
    }
    let n = denom.unicode_len();
    let p = prefix.as_str().unicode_len();
    if n < p {
        proof {
            assert(denom@.len() < pv.len());
        }
        return None;
    }
    let mut i: usize = 0;
    while i < p
        invariant
            i <= p,
            p == pv.len(),
            p <= n == denom@.len(),
            pv == trace_prefix(port_id@, channel_id@),
            prefix@ == pv,
            forall|j: int| 0 <= j < i ==> denom@[j] == pv[j],
        decreases p - i,
    {
        if denom.get_char(i) != prefix.as_str().get_char(i) {
            proof {
                assert(denom@.subrange(0, pv.len() as int)[i as int] == denom@[i as int]);
            }
            return None;
        }
        i += 1;
    }
    let rest = denom.substring_char(p, n);
    proof {
        assert(denom@.subrange(0, pv.len() as int) =~= pv);
    }
    Some(rest.to_owned())
}

} // verus!
