//! Typed identifiers: opaque printable strings with domain-specific
//! validation, and the `Sequence` counter newtype.

use vstd::prelude::*;

use crate::errors::{IdentifierError, PacketError};

verus! {

/// The allowed identifier alphabet: letters, digits, and
/// `. _ + - # [ ] < >`.
pub open spec fn valid_id_char(c: char) -> bool {
    let u = c as u32;
    (('a' as u32) <= u && u <= ('z' as u32)) || (('A' as u32) <= u && u <= ('Z' as u32)) || ((
    '0' as u32) <= u && u <= ('9' as u32)) || u == ('.' as u32) || u == ('_' as u32) || u == (
    '+' as u32) || u == ('-' as u32) || u == ('#' as u32) || u == ('[' as u32) || u == (
    ']' as u32) || u == ('<' as u32) || u == ('>' as u32)
}

pub open spec fn valid_id_chars(s: Seq<char>) -> bool {
    forall|i: int| 0 <= i < s.len() ==> valid_id_char(#[trigger] s[i])
}

/// An identifier is valid when its length lies in the given range and every
/// character is drawn from the allowed alphabet.
pub open spec fn valid_identifier(s: Seq<char>, min: int, max: int) -> bool {
    min <= s.len() && s.len() <= max && valid_id_chars(s)
}

pub fn is_valid_id_char(c: char) -> (r: bool)
    ensures
        r == valid_id_char(c),
{
    let u = c as u32;
    (('a' as u32) <= u && u <= ('z' as u32)) || (('A' as u32) <= u && u <= ('Z' as u32)) || ((
    '0' as u32) <= u && u <= ('9' as u32)) || u == ('.' as u32) || u == ('_' as u32) || u == (
    '+' as u32) || u == ('-' as u32) || u == ('#' as u32) || u == ('[' as u32) || u == (
    ']' as u32) || u == ('<' as u32) || u == ('>' as u32)
}

pub fn all_valid_id_chars(s: &str) -> (r: bool)
    ensures
        r == valid_id_chars(s@),
{
    let n = s.unicode_len();
    let mut i: usize = 0;
    while i < n
        invariant
            n == s@.len(),
            i <= n,
            forall|j: int| 0 <= j < i ==> valid_id_char(#[trigger] s@[j]),
        decreases n - i,
    {
        let c = s.get_char(i);
        if !is_valid_id_char(c) {
            assert(!valid_id_char(s@[i as int]));
            return false;
        }
        i += 1;
    }
    true
}

/// Checks length bounds and the identifier alphabet.
pub fn validate_identifier(s: &str, min: usize, max: usize) -> (r: Result<(), IdentifierError>)
    ensures
        r matches Ok(()) <==> valid_identifier(s@, min as int, max as int),
        !(min <= s@.len() <= max) ==> r == Err::<(), IdentifierError>(
            IdentifierError::InvalidLength,
        ),
        (min <= s@.len() <= max && !valid_id_chars(s@)) ==> r == Err::<(), IdentifierError>(
            IdentifierError::InvalidCharacter,
        ),
{
    let n = s.unicode_len();
    if n < min || n > max {
        return Err(IdentifierError::InvalidLength);
    }
    if !all_valid_id_chars(s) {
        return Err(IdentifierError::InvalidCharacter);
    }
    Ok(())
}

pub open spec fn digit_char(d: nat) -> char {
    if d == 0 {
        '0'
    } else if d == 1 {
        '1'
    } else if d == 2 {
        '2'
    } else if d == 3 {
        '3'
    } else if d == 4 {
        '4'
    } else if d == 5 {
        '5'
    } else if d == 6 {
        '6'
    } else if d == 7 {
        '7'
    } else if d == 8 {
        '8'
    } else {
        '9'
    }
}

/// The canonical decimal rendering of a number, without leading zeros.
pub open spec fn dec_str(n: nat) -> Seq<char>
    decreases n,
{
    if n < 10 {
        seq![digit_char(n)]
    } else {
        dec_str(n / 10).push(digit_char(n % 10))
    }
}

/// Every character of a decimal rendering is a digit, hence a valid
/// identifier character.
pub proof fn lemma_dec_str_valid(n: nat)
    ensures
        1 <= dec_str(n).len(),
        valid_id_chars(dec_str(n)),
        forall|i: int|
            0 <= i < dec_str(n).len() ==> ('0' as u32) <= (#[trigger] dec_str(n)[i]) as u32 <= (
            '9' as u32),
    decreases n,
{
    if n >= 10 {
        lemma_dec_str_valid(n / 10);
        assert(n / 10 < n) by (nonlinear_arith)
            requires
                n >= 10,
        ;
    }
}

/// A `u64` renders to at most 20 decimal digits.
pub proof fn lemma_dec_str_len20(n: nat)
    requires
        n <= u64::MAX,
    ensures
        dec_str(n).len() <= 20,
{
    lemma_pow10_20();
    lemma_dec_str_len_bound(n, 20);
}

proof fn lemma_pow10_20()
    ensures
        pow10(20) == 100000000000000000000,
{
    assert(pow10(0) == 1);
    assert(pow10(1) == 10);
    assert(pow10(2) == 100);
    assert(pow10(3) == 1000);
    assert(pow10(4) == 10000);
    assert(pow10(5) == 100000);
    assert(pow10(6) == 1000000);
    assert(pow10(7) == 10000000);
    assert(pow10(8) == 100000000);
    assert(pow10(9) == 1000000000);
    assert(pow10(10) == 10000000000);
    assert(pow10(11) == 100000000000);
    assert(pow10(12) == 1000000000000);
    assert(pow10(13) == 10000000000000);
    assert(pow10(14) == 100000000000000);
    assert(pow10(15) == 1000000000000000);
    assert(pow10(16) == 10000000000000000);
    assert(pow10(17) == 100000000000000000);
    assert(pow10(18) == 1000000000000000000);
    assert(pow10(19) == 10000000000000000000);
    assert(pow10(20) == 100000000000000000000);
}

proof fn lemma_dec_str_len_bound(n: nat, k: nat)
    requires
        n < pow10(k),
    ensures
        dec_str(n).len() <= k || k == 0,
    decreases n,
{
    if n >= 10 {
        assert(n / 10 < pow10((k - 1) as nat)) by (nonlinear_arith)
            requires
                n < pow10(k),
                pow10(k) == 10 * pow10((k - 1) as nat),
                n >= 10,
                k >= 1,
        ;
        lemma_dec_str_len_bound(n / 10, (k - 1) as nat);
        assert(n / 10 >= 1);
    }
}

pub open spec fn pow10(k: nat) -> nat
    decreases k,
{
    if k == 0 {
        1
    } else {
        10 * pow10((k - 1) as nat)
    }
}

proof fn lemma_prefix_chars_valid()
    ensures
        valid_id_chars("connection-"@),
        valid_id_chars("channel-"@),
{
    reveal_strlit("connection-");
    reveal_strlit("channel-");
    assert forall|i: int| 0 <= i < "connection-"@.len() implies valid_id_char(
        #[trigger] "connection-"@[i],
    ) by {
        let c = "connection-"@[i];
        assert(valid_id_char(c));
    }
    assert forall|i: int| 0 <= i < "channel-"@.len() implies valid_id_char(
        #[trigger] "channel-"@[i],
    ) by {
        let c = "channel-"@[i];
        assert(valid_id_char(c));
    }
}

fn digit_str(d: u64) -> (r: &'static str)
    requires
        d < 10,
    ensures
        r@ == seq![digit_char(d as nat)],
{
    proof {
        reveal_strlit("0");
        reveal_strlit("1");
        reveal_strlit("2");
        reveal_strlit("3");
        reveal_strlit("4");
        reveal_strlit("5");
        reveal_strlit("6");
        reveal_strlit("7");
        reveal_strlit("8");
        reveal_strlit("9");
    }
    let r = if d == 0 {
        "0"
    } else if d == 1 {
        "1"
    } else if d == 2 {
        "2"
    } else if d == 3 {
        "3"
    } else if d == 4 {
        "4"
    } else if d == 5 {
        "5"
    } else if d == 6 {
        "6"
    } else if d == 7 {
        "7"
    } else if d == 8 {
        "8"
    } else {
        "9"
    };
    proof {
        assert(r@ =~= seq![digit_char(d as nat)]);
    }
    r
}

/// Renders `n` in decimal, matching `dec_str`.
pub fn u64_to_dec(n: u64) -> (s: String)
    ensures
        s@ == dec_str(n as nat),
    decreases n,
{
    if n < 10 {
        String::from_str(digit_str(n))
    } else {
        let mut s = u64_to_dec(n / 10);
        s.append(digit_str(n % 10));
        proof {
            assert(s@ =~= dec_str(n as nat));
        }
        s
    }
}

/// Identifier of an on-chain light client: `{client-type}-{counter}`,
/// 9 to 64 characters in the identifier alphabet.
#[derive(Debug, PartialEq, Eq, Hash)]
pub struct ClientId {
    pub id: String,
}

impl Clone for ClientId {
    fn clone(&self) -> (r: Self)
        ensures
            r@ == self@,
    {
        ClientId { id: self.id.clone() }
    }
}

impl View for ClientId {
    type V = Seq<char>;

    open spec fn view(&self) -> Seq<char> {
        self.id@
    }
}

impl DeepView for ClientId {
    type V = Seq<char>;

    open spec fn deep_view(&self) -> Seq<char> {
        self.id@
    }
}

impl ClientId {
    pub open spec fn well_formed(&self) -> bool {
        valid_identifier(self@, 9, 64)
    }

    /// Validates a client identifier taken off the wire.
    pub fn from_str(s: &str) -> (r: Result<ClientId, IdentifierError>)
        ensures
            r is Ok <==> valid_identifier(s@, 9, 64),
            r matches Ok(id) ==> id@ == s@ && id.well_formed(),
            !(9 <= s@.len() <= 64) ==> r == Err::<ClientId, IdentifierError>(
                IdentifierError::InvalidLength,
            ),
            (9 <= s@.len() <= 64 && !valid_id_chars(s@)) ==> r == Err::<ClientId,
                IdentifierError,
            >(IdentifierError::InvalidCharacter),
    {
        match validate_identifier(s, 9, 64) {
            Ok(()) => Ok(ClientId { id: s.to_owned() }),
            Err(e) => Err(e),
        }
    }

    pub fn as_str(&self) -> (r: &str)
        ensures
            r@ == self@,
    {
        self.id.as_str()
    }

    pub fn clone_string(&self) -> (r: String)
        ensures
            r@ == self@,
    {
        self.id.clone()
    }
}

/// Identifier of a connection end: `connection-{counter}`.
#[derive(Debug, PartialEq, Eq, Hash)]
pub struct ConnectionId {
    pub id: String,
}

impl Clone for ConnectionId {
    fn clone(&self) -> (r: Self)
        ensures
            r@ == self@,
    {
        ConnectionId { id: self.id.clone() }
    }
}

impl View for ConnectionId {
    type V = Seq<char>;

    open spec fn view(&self) -> Seq<char> {
        self.id@
    }
}

impl DeepView for ConnectionId {
    type V = Seq<char>;

    open spec fn deep_view(&self) -> Seq<char> {
        self.id@
    }
}

impl ConnectionId {
    pub open spec fn well_formed(&self) -> bool {
        valid_identifier(self@, 10, 64)
    }

    /// The canonical identifier for the `n`-th connection allocated on a
    /// chain.
    pub fn new(n: u64) -> (r: ConnectionId)
        ensures
            r@ == "connection-"@ + dec_str(n as nat),
            r.well_formed(),
    {
        proof {
            reveal_strlit("connection-");
        }
        let mut s = String::from_str("connection-");
        s.append(u64_to_dec(n).as_str());
        proof {
            lemma_dec_str_valid(n as nat);
            lemma_dec_str_len20(n as nat);
            lemma_prefix_chars_valid();
            assert forall|i: int| 0 <= i < s@.len() implies valid_id_char(#[trigger] s@[i]) by {
                if i < 11 {
                    assert(s@[i] == "connection-"@[i]);
                } else {
                    assert(s@[i] == dec_str(n as nat)[i - 11]);
                }
            }
        }
        ConnectionId { id: s }
    }

    pub fn from_str(s: &str) -> (r: Result<ConnectionId, IdentifierError>)
        ensures
            r is Ok <==> valid_identifier(s@, 10, 64),
            r matches Ok(id) ==> id@ == s@ && id.well_formed(),
            !(10 <= s@.len() <= 64) ==> r == Err::<ConnectionId, IdentifierError>(
                IdentifierError::InvalidLength,
            ),
            (10 <= s@.len() <= 64 && !valid_id_chars(s@)) ==> r == Err::<ConnectionId,
                IdentifierError,
            >(IdentifierError::InvalidCharacter),
    {
        match validate_identifier(s, 10, 64) {
            Ok(()) => Ok(ConnectionId { id: s.to_owned() }),
            Err(e) => Err(e),
        }
    }

    pub fn as_str(&self) -> (r: &str)
        ensures
            r@ == self@,
    {
        self.id.as_str()
    }

    pub fn eq_id(&self, other: &ConnectionId) -> (r: bool)
        ensures
            r == (self@ == other@),
    {
        self.id == other.id
    }
}

impl Default for ConnectionId {
    /// The identifier of the first connection, `connection-0`.
    fn default() -> (r: ConnectionId)
        ensures
            r@ == "connection-"@ + dec_str(0),
    {
        ConnectionId::new(0)
    }
}

/// Identifier of a channel end: `channel-{counter}`.
#[derive(Debug, PartialEq, Eq, Hash)]
pub struct ChannelId {
    pub id: String,
}

impl Clone for ChannelId {
    fn clone(&self) -> (r: Self)
        ensures
            r@ == self@,
    {
        ChannelId { id: self.id.clone() }
    }
}

impl View for ChannelId {
    type V = Seq<char>;

    open spec fn view(&self) -> Seq<char> {
        self.id@
    }
}

impl DeepView for ChannelId {
    type V = Seq<char>;

    open spec fn deep_view(&self) -> Seq<char> {
        self.id@
    }
}

impl ChannelId {
    pub open spec fn well_formed(&self) -> bool {
        valid_identifier(self@, 8, 64)
    }

    /// The canonical identifier for the `n`-th channel allocated on a chain.
    pub fn new(n: u64) -> (r: ChannelId)
        ensures
            r@ == "channel-"@ + dec_str(n as nat),
            r.well_formed(),
    {
        proof {
            reveal_strlit("channel-");
        }
        let mut s = String::from_str("channel-");
        s.append(u64_to_dec(n).as_str());
        proof {
            lemma_dec_str_valid(n as nat);
            lemma_dec_str_len20(n as nat);
            lemma_prefix_chars_valid();
            assert forall|i: int| 0 <= i < s@.len() implies valid_id_char(#[trigger] s@[i]) by {
                if i < 8 {
                    assert(s@[i] == "channel-"@[i]);
                } else {
                    assert(s@[i] == dec_str(n as nat)[i - 8]);
                }
            }
        }
        ChannelId { id: s }
    }

    pub fn from_str(s: &str) -> (r: Result<ChannelId, IdentifierError>)
        ensures
            r is Ok <==> valid_identifier(s@, 8, 64),
            r matches Ok(id) ==> id@ == s@ && id.well_formed(),
            !(8 <= s@.len() <= 64) ==> r == Err::<ChannelId, IdentifierError>(
                IdentifierError::InvalidLength,
            ),
            (8 <= s@.len() <= 64 && !valid_id_chars(s@)) ==> r == Err::<ChannelId,
                IdentifierError,
            >(IdentifierError::InvalidCharacter),
    {
        match validate_identifier(s, 8, 64) {
            Ok(()) => Ok(ChannelId { id: s.to_owned() }),
            Err(e) => Err(e),
        }
    }

    pub fn as_str(&self) -> (r: &str)
        ensures
            r@ == self@,
    {
        self.id.as_str()
    }

    pub fn eq_id(&self, other: &ChannelId) -> (r: bool)
        ensures
            r == (self@ == other@),
    {
        self.id == other.id
    }
}

impl Default for ChannelId {
    /// The identifier of the first channel, `channel-0`.
    fn default() -> (r: ChannelId)
        ensures
            r@ == "channel-"@ + dec_str(0),
    {
        ChannelId::new(0)
    }
}

/// Identifier of a port: 2 to 128 characters in the identifier alphabet.
#[derive(Debug, PartialEq, Eq, Hash)]
pub struct PortId {
    pub id: String,
}

impl Clone for PortId {
    fn clone(&self) -> (r: Self)
        ensures
            r@ == self@,
    {
        PortId { id: self.id.clone() }
    }
}

impl View for PortId {
    type V = Seq<char>;

    open spec fn view(&self) -> Seq<char> {
        self.id@
    }
}

impl DeepView for PortId {
    type V = Seq<char>;

    open spec fn deep_view(&self) -> Seq<char> {
        self.id@
    }
}

impl PortId {
    pub open spec fn well_formed(&self) -> bool {
        valid_identifier(self@, 2, 128)
    }

    pub fn from_str(s: &str) -> (r: Result<PortId, IdentifierError>)
        ensures
            r is Ok <==> valid_identifier(s@, 2, 128),
            r matches Ok(id) ==> id@ == s@ && id.well_formed(),
            !(2 <= s@.len() <= 128) ==> r == Err::<PortId, IdentifierError>(
                IdentifierError::InvalidLength,
            ),
            (2 <= s@.len() <= 128 && !valid_id_chars(s@)) ==> r == Err::<PortId,
                IdentifierError,
            >(IdentifierError::InvalidCharacter),
    {
        match validate_identifier(s, 2, 128) {
            Ok(()) => Ok(PortId { id: s.to_owned() }),
            Err(e) => Err(e),
        }
    }

    pub fn as_str(&self) -> (r: &str)
        ensures
            r@ == self@,
    {
        self.id.as_str()
    }

    pub fn eq_id(&self, other: &PortId) -> (r: bool)
        ensures
            r == (self@ == other@),
    {
        self.id == other.id
    }
}

impl Default for PortId {
    /// The conventional default port.
    fn default() -> (r: PortId)
        ensures
            r@ == "defaultPort"@,
    {
        PortId { id: String::from_str("defaultPort") }
    }
}

/// A per-channel monotonic `u64` counter. Overflow is a protocol fault and
/// must abort the handler.
#[derive(Clone, Copy, Debug, PartialEq, Eq, Structural, Hash)]
pub struct Sequence {
    pub value: u64,
}

impl Sequence {
    pub fn new(value: u64) -> (r: Sequence)
        ensures
            r.value == value,
    {
        Sequence { value }
    }

    pub fn value(&self) -> (r: u64)
        ensures
            r == self.value,
    {
        self.value
    }

    pub fn increment(&self) -> (r: Result<Sequence, PacketError>)
        ensures
            self.value < u64::MAX ==> r == Ok::<Sequence, PacketError>(Sequence {
                value: (self.value + 1) as u64,
            }),
            self.value == u64::MAX ==> r == Err::<Sequence, PacketError>(
                PacketError::ZeroPacketSequence,
            ),
    {
        if self.value == u64::MAX {
            Err(PacketError::ZeroPacketSequence)
        } else {
            Ok(Sequence { value: self.value + 1 })
        }
    }
}

} // verus!
