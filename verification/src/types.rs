//! The identities of sockets and channels.

use crate::text::{same_text, share, shared};
use std::str::FromStr;
use std::sync::Arc;
use vstd::prelude::*;
use vstd::utf8::*;

verus! {

/// The identity of a connected socket.
#[derive(Hash, Debug, Clone, Copy, Eq, PartialEq, Structural)]
pub struct Token(pub usize);

impl From<usize> for Token {
    fn from(id: usize) -> (token: Self) {
        Token(id)
    }
}

impl vstd::std_specs::convert::FromSpecImpl<usize> for Token {
    open spec fn obeys_from_spec() -> bool {
        true
    }

    open spec fn from_spec(id: usize) -> Self {
        Token(id)
    }
}

/// The decimal digit `d`.
pub open spec fn digit(d: int) -> char {
    if d == 0 {
        '0'
    } else if d == 1 {
        '1'
    } else if d == 2 {
        '2'
    } else if d == 3 {
        '3'
    } else if d == 4 {
        '4'
    } else if d == 5 {
        '5'
    } else if d == 6 {
        '6'
    } else if d == 7 {
        '7'
    } else if d == 8 {
        '8'
    } else {
        '9'
    }
}

/// A number in decimal digits, without leading zeros.
pub open spec fn decimal(n: nat) -> Seq<char>
    decreases n,
{
    if n < 10 {
        seq![digit(n as int)]
    } else {
        decimal(n / 10).push(digit((n % 10) as int))
    }
}

fn digit_text(d: usize) -> (text: &'static str)
    requires
        d < 10,
    ensures
        text@ == seq![digit(d as int)],
{
    proof {
        reveal_strlit("0");
        reveal_strlit("1");
        reveal_strlit("2");
        reveal_strlit("3");
        reveal_strlit("4");
        reveal_strlit("5");
        reveal_strlit("6");
        reveal_strlit("7");
        reveal_strlit("8");
        reveal_strlit("9");
    }
    let text: &'static str = match d {
        0 => "0",
        1 => "1",
        2 => "2",
        3 => "3",
        4 => "4",
        5 => "5",
        6 => "6",
        7 => "7",
        8 => "8",
        _ => "9",
    };
    assert(text@ =~= seq![digit(d as int)]);
    text
}

fn append_decimal(out: &mut String, n: usize)
    ensures
        final(out)@ == old(out)@ + decimal(n as nat),
    decreases n,
{
    if n >= 10 {
        append_decimal(out, n / 10);
    }
    out.append(digit_text(n % 10));
    assert(out@ =~= old(out)@ + decimal(n as nat));
}

impl Token {
    /// The token in angle brackets, as it stands in task names and logs.
    pub fn to_string(&self) -> (text: String)
        ensures
            text@ == seq!['<'] + decimal(self.0 as nat) + seq!['>'],
    {
        proof {
            reveal_strlit("<");
            reveal_strlit(">");
        }
        let mut text = String::new();
        text.append("<");
        append_decimal(&mut text, self.0);
        text.append(">");
        assert(text@ =~= seq!['<'] + decimal(self.0 as nat) + seq!['>']);
        text
    }
}

/// Where a counter stands after it has handed out a number.
pub open spec fn next_id(counter: usize) -> usize {
    if counter == usize::MAX {
        0
    } else {
        (counter + 1) as usize
    }
}

/// Hands out the number that the counter stands at, and moves the counter on; after the
/// largest number it starts over at zero.
pub fn get_id(counter: &mut usize) -> (id: usize)
    ensures
        id == *old(counter),
        *final(counter) == next_id(*old(counter)),
{
    let id: usize = *counter;
    *counter = counter.wrapping_add(1);
    id
}

/// The token of the next socket.
pub fn get_token(counter: &mut usize) -> (token: Token)
    ensures
        token == Token(*old(counter)),
        *final(counter) == next_id(*old(counter)),
{
    get_id(counter).into()
}

/// `i` is where the first `:` of `s` stands.
pub open spec fn is_delimiter(s: Seq<char>, i: int) -> bool {
    &&& 0 <= i < s.len()
    &&& s[i] == ':'
    &&& !s.take(i).contains(':')
}

/// The part of a channel name before its first `:`.
pub open spec fn key_of(s: Seq<char>) -> Option<Seq<char>> {
    if s.contains(':') {
        Some(s.take(choose|i: int| is_delimiter(s, i)))
    } else {
        None
    }
}

/// The part of a channel name after its first `:`.
pub open spec fn value_of(s: Seq<char>) -> Option<Seq<char>> {
    if s.contains(':') {
        Some(s.skip((choose|i: int| is_delimiter(s, i)) + 1))
    } else {
        None
    }
}

/// A name with a `:` has a first one, and only one.
pub proof fn lemma_delimiter(s: Seq<char>, i: int)
    requires
        is_delimiter(s, i),
    ensures
        s.contains(':'),
        key_of(s) == Some(s.take(i)),
        value_of(s) == Some(s.skip(i + 1)),
{
    let d = choose|d: int| is_delimiter(s, d);
    assert(is_delimiter(s, d));
    if d < i {
        assert(s.take(i)[d] == ':');
    } else if i < d {
        assert(s.take(d)[i] == ':');
    }
}

/// A character other than `:` is encoded without the byte of `:`.
proof fn lemma_scalar_bytes(c: char)
    ensures
        encode_scalar(c as u32).len() > 0,
        c == ':' ==> encode_scalar(c as u32) == seq![0x3au8],
        c != ':' ==> forall|j: int|
            0 <= j < encode_scalar(c as u32).len() ==> #[trigger] encode_scalar(c as u32)[j] != 0x3au8,
{
    let v = c as u32;
    char_is_scalar(c);
    assert(v <= 0x7f ==> (v & 0x7f) as u8 == v) by (bit_vector);
    assert((0xC0 | ((v >> 6) & 0x1F) as u8) != 0x3a) by (bit_vector);
    assert((0xE0 | ((v >> 12) & 0x0F) as u8) != 0x3a) by (bit_vector);
    assert((0xF0 | ((v >> 18) & 0x7) as u8) != 0x3a) by (bit_vector);
    assert((0x80 | (v & 0x3F) as u8) != 0x3a) by (bit_vector);
    assert((0x80 | ((v >> 6) & 0x3F) as u8) != 0x3a) by (bit_vector);
    assert((0x80 | ((v >> 12) & 0x3F) as u8) != 0x3a) by (bit_vector);
}

/// Without the byte of `:` in its encoding, a text holds no `:`.
proof fn lemma_no_colon_byte(chars: Seq<char>)
    requires
        forall|j: int|
            0 <= j < encode_utf8(chars).len() ==> #[trigger] encode_utf8(chars)[j] != 0x3au8,
    ensures
        !chars.contains(':'),
    decreases chars.len(),
{
    if chars.len() > 0 {
        let head = encode_scalar(chars[0] as u32);
        let rest = encode_utf8(chars.drop_first());
        lemma_scalar_bytes(chars[0]);
        if chars[0] == ':' {
            assert(encode_utf8(chars)[0] == 0x3au8);
        }
        assert forall|j: int| 0 <= j < rest.len() implies #[trigger] rest[j] != 0x3au8 by {
            assert(encode_utf8(chars)[head.len() + j] == rest[j]);
        }
        lemma_no_colon_byte(chars.drop_first());
        assert forall|k: int| 0 <= k < chars.len() implies chars[k] != ':' by {
            if k > 0 {
                assert(chars.drop_first()[k - 1] == chars[k]);
            }
        }
    }
}

/// The first byte of `:` in the encoding of a text is its first `:`; what is encoded
/// before and after that byte is what stands before and after that character.
proof fn lemma_colon_byte(chars: Seq<char>, i: int) -> (n: int)
    requires
        0 <= i < encode_utf8(chars).len(),
        encode_utf8(chars)[i] == 0x3au8,
        forall|j: int| 0 <= j < i ==> #[trigger] encode_utf8(chars)[j] != 0x3au8,
    ensures
        is_delimiter(chars, n),
        encode_utf8(chars.take(n)) == encode_utf8(chars).take(i),
        encode_utf8(chars.skip(n + 1)) == encode_utf8(chars).skip(i + 1),
        encode_utf8(chars.skip(n)) == encode_utf8(chars).skip(i),
    decreases chars.len(),
{
    let bytes = encode_utf8(chars);
    let head = encode_scalar(chars[0] as u32);
    let tail = chars.drop_first();
    let rest = encode_utf8(tail);
    lemma_scalar_bytes(chars[0]);
    assert(bytes == head + rest);
    if chars[0] == ':' {
        assert(bytes[0] == 0x3au8);
        assert(i == 0);
        assert(chars.take(0) =~= seq![]);
        assert(bytes.take(0) =~= seq![]);
        assert(chars.skip(1) =~= tail);
        assert(bytes.skip(1) =~= rest);
        assert(chars.skip(0) =~= chars);
        assert(bytes.skip(0) =~= bytes);
        0
    } else {
        if i < head.len() {
            assert(bytes[i] == head[i]);
        }
        let i2 = i - head.len();
        assert(rest[i2] == bytes[i]);
        assert forall|j: int| 0 <= j < i2 implies #[trigger] rest[j] != 0x3au8 by {
            assert(rest[j] == bytes[head.len() + j]);
        }
        let n2 = lemma_colon_byte(tail, i2);
        let n = n2 + 1;
        assert(chars.take(n).drop_first() =~= tail.take(n2));
        assert(encode_utf8(chars.take(n)) =~= bytes.take(i));
        assert(chars.skip(n + 1) =~= tail.skip(n2 + 1));
        assert(bytes.skip(i + 1) =~= rest.skip(i2 + 1));
        assert(chars.skip(n) =~= tail.skip(n2));
        assert(bytes.skip(i) =~= rest.skip(i2));
        assert(!chars.take(n).contains(':')) by {
            if chars.take(n).contains(':') {
                let k = choose|k: int| 0 <= k < n && chars.take(n)[k] == ':';
                assert(tail.take(n2)[k - 1] == ':');
            }
        }
        n
    }
}

/// Where the byte `delimiter_idx` of a text is its first `:`.
spec fn delimiter_at(s: Seq<char>, delimiter_idx: Option<usize>) -> bool {
    let bytes = encode_utf8(s);
    match delimiter_idx {
        Some(idx) => {
            &&& idx < bytes.len()
            &&& bytes[idx as int] == 0x3au8
            &&& forall|j: int| 0 <= j < idx ==> #[trigger] bytes[j] != 0x3au8
        },
        None => forall|j: int| 0 <= j < bytes.len() ==> #[trigger] bytes[j] != 0x3au8,
    }
}

/// The name of a channel: an optional key and value around the first `:`.
#[derive(Debug, Hash)]
pub struct ChannelId {
    raw: Arc<str>,
    delimiter_idx: Option<usize>,
}

impl View for ChannelId {
    type V = Seq<char>;

    closed spec fn view(&self) -> Seq<char> {
        self.raw@
    }
}

impl ChannelId {
    #[verifier::type_invariant]
    spec fn well_formed(self) -> bool {
        delimiter_at(self.raw@, self.delimiter_idx)
    }

    /// The name before the first `:`, if there is one.
    pub fn key(&self) -> (key: Option<&str>)
        ensures
            match key {
                Some(k) => key_of(self@) == Some(k@),
                None => key_of(self@) is None,
            },
    {
        proof {
            use_type_invariant(self);
        }
        match self.delimiter_idx {
            Some(idx) => {
                let ghost n = lemma_colon_byte(self.raw@, idx as int);
                proof {
                    encode_utf8_valid_utf8(self@);
                    is_char_boundary_iff_not_is_continuation_byte(encode_utf8(self@), idx as int);
                }
                let (key, _) = self.raw.split_at(idx);
                proof {
                    lemma_delimiter(self@, n);
                    encode_utf8_decode_utf8(key@);
                    encode_utf8_decode_utf8(self@.take(n));
                }
                Some(key)
            },
            None => {
                proof {
                    lemma_no_colon_byte(self@);
                }
                None
            },
        }
    }

    /// The name after the first `:`, if there is one.
    pub fn value(&self) -> (value: Option<&str>)
        ensures
            match value {
                Some(v) => value_of(self@) == Some(v@),
                None => value_of(self@) is None,
            },
    {
        proof {
            use_type_invariant(self);
        }
        match self.delimiter_idx {
            Some(idx) => {
                let ghost n = lemma_colon_byte(self.raw@, idx as int);
                proof {
                    encode_utf8_valid_utf8(self@);
                    is_char_boundary_iff_not_is_continuation_byte(encode_utf8(self@), idx as int);
                }
                let (_, rest) = self.raw.split_at(idx);
                proof {
                    let bytes = encode_utf8(rest@);
                    assert(bytes =~= encode_utf8(self@.skip(n)));
                    encode_utf8_decode_utf8(rest@);
                    encode_utf8_decode_utf8(self@.skip(n));
                    assert(rest@ == self@.skip(n));
                    encode_utf8_valid_utf8(rest@);
                    encode_utf8_first_scalar(rest@);
                    lemma_scalar_bytes(rest@[0]);
                    assert(pop_first_scalar(bytes) =~= encode_utf8(rest@.drop_first()));
                    encode_utf8_valid_utf8(rest@.drop_first());
                    reveal_with_fuel(is_char_boundary, 2);
                    assert(is_char_boundary(bytes, 1));
                }
                let (_, value) = rest.split_at(1);
                proof {
                    lemma_delimiter(self@, n);
                    assert(encode_utf8(value@) =~= encode_utf8(self@.skip(n + 1)));
                    encode_utf8_decode_utf8(value@);
                    encode_utf8_decode_utf8(self@.skip(n + 1));
                }
                Some(value)
            },
            None => {
                proof {
                    lemma_no_colon_byte(self@);
                }
                None
            },
        }
    }

    /// The whole name.
    pub fn id(&self) -> (id: &str)
        ensures
            id@ == self@,
    {
        &*self.raw
    }

    /// The whole name, shared.
    pub(crate) fn shared_id(&self) -> (id: Arc<str>)
        ensures
            id@ == self@,
    {
        share(&self.raw)
    }

    /// The name with its sort, as it stands in task names and logs.
    pub fn to_string(&self) -> (text: String)
        ensures
            text@ == "Channel<"@ + self@ + seq!['>'],
    {
        proof {
            reveal_strlit(">");
        }
        let mut text = String::new();
        text.append("Channel<");
        text.append(self.id());
        text.append(">");
        assert(text@ =~= "Channel<"@ + self@ + seq!['>']);
        text
    }

    /// The name of a channel; every text is one.
    pub fn new(name: &str) -> (channel_id: Self)
        ensures
            channel_id@ == name@,
    {
        let bytes = name.as_bytes();
        let mut i: usize = 0;
        while i < bytes.len()
            invariant
                bytes@ == encode_utf8(name@),
                i <= bytes@.len(),
                forall|j: int| 0 <= j < i ==> #[trigger] bytes@[j] != 0x3au8,
            decreases bytes@.len() - i,
        {
            if bytes[i] == 0x3au8 {
                return ChannelId { raw: shared(name), delimiter_idx: Some(i) };
            }
            i = i + 1;
        }
        ChannelId { raw: shared(name), delimiter_idx: None }
    }
}

impl Clone for ChannelId {
    fn clone(&self) -> (other: Self)
        ensures
            other == *self,
    {
        proof {
            use_type_invariant(self);
        }
        ChannelId { raw: share(&self.raw), delimiter_idx: self.delimiter_idx }
    }
}

impl PartialEq for ChannelId {
    fn eq(&self, other: &Self) -> (equal: bool) {
        same_text(self.id(), other.id())
    }
}

impl vstd::std_specs::cmp::PartialEqSpecImpl for ChannelId {
    open spec fn obeys_eq_spec() -> bool {
        true
    }

    open spec fn eq_spec(&self, other: &Self) -> bool {
        self@ == other@
    }
}

impl Eq for ChannelId {
}

impl<'a> From<&'a str> for ChannelId {
    fn from(s: &'a str) -> (channel_id: Self)
        ensures
            channel_id@ == s@,
    {
        ChannelId::new(s)
    }
}

impl<'a> vstd::std_specs::convert::FromSpecImpl<&'a str> for ChannelId {
    /// What `from` returns is said by its own `ensures`: the text that it holds, not
    /// which allocation holds it.
    open spec fn obeys_from_spec() -> bool {
        false
    }

    open spec fn from_spec(s: &'a str) -> Self {
        arbitrary()
    }
}

impl FromStr for ChannelId {
    type Err = std::convert::Infallible;

    fn from_str(s: &str) -> (parsed: Result<Self, Self::Err>)
        ensures
            parsed matches Ok(channel_id) && channel_id@ == s@,
    {
        Ok(ChannelId::new(s))
    }
}

} // verus!
