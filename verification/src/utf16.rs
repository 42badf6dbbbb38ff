//! UTF-16 text: verified encoding and lossy decoding, and [`Utf16Writer`], which
//! writes text into fixed-size, nul-terminated UTF-16 buffers.
use vstd::prelude::*;
use crate::text::str_to_chars;

verus! {

/// Whether `u` is a leading (high) surrogate.
pub open spec fn is_high_surrogate(u: u16) -> bool {
    0xD800 <= u < 0xDC00
}

/// Whether `u` is a trailing (low) surrogate.
pub open spec fn is_low_surrogate(u: u16) -> bool {
    0xDC00 <= u < 0xE000
}

/// The character that a surrogate pair stands for.
pub open spec fn surrogate_pair_value(high: u16, low: u16) -> nat {
    (0x10000 + (high - 0xD800) * 0x400 + (low - 0xDC00)) as nat
}

/// Lossy UTF-16 decoding: every well-formed code unit or surrogate pair becomes
/// its character, and every unpaired surrogate becomes U+FFFD.
pub open spec fn decode_utf16_lossy_spec(s: Seq<u16>) -> Seq<char>
    decreases s.len(),
{
    if s.len() == 0 {
        Seq::empty()
    } else if !is_high_surrogate(s[0]) && !is_low_surrogate(s[0]) {
        seq![(s[0] as nat) as char] + decode_utf16_lossy_spec(s.skip(1))
    } else if is_high_surrogate(s[0]) && s.len() >= 2 && is_low_surrogate(s[1]) {
        seq![surrogate_pair_value(s[0], s[1]) as char] + decode_utf16_lossy_spec(s.skip(2))
    } else {
        seq!['\u{FFFD}'] + decode_utf16_lossy_spec(s.skip(1))
    }
}

/// Whether `s` is well-formed UTF-16: every surrogate belongs to a pair.
pub open spec fn is_valid_utf16(s: Seq<u16>) -> bool
    decreases s.len(),
{
    if s.len() == 0 {
        true
    } else if !is_high_surrogate(s[0]) && !is_low_surrogate(s[0]) {
        is_valid_utf16(s.skip(1))
    } else if is_high_surrogate(s[0]) && s.len() >= 2 && is_low_surrogate(s[1]) {
        is_valid_utf16(s.skip(2))
    } else {
        false
    }
}

/// The UTF-16 code units of one character.
pub open spec fn encode_char_spec(c: char) -> Seq<u16> {
    let v = (c as u32) as nat;
    if v < 0x10000 {
        seq![v as u16]
    } else {
        seq![(0xD800 + (v - 0x10000) / 0x400) as u16, (0xDC00 + (v - 0x10000) % 0x400) as u16]
    }
}

/// The UTF-16 encoding of a character sequence.
pub open spec fn encode_utf16_spec(s: Seq<char>) -> Seq<u16>
    decreases s.len(),
{
    if s.len() == 0 {
        Seq::empty()
    } else {
        encode_utf16_spec(s.drop_last()) + encode_char_spec(s.last())
    }
}

/// `s` with every nul character removed.
pub open spec fn without_nul(s: Seq<char>) -> Seq<char>
    decreases s.len(),
{
    if s.len() == 0 {
        s
    } else if s.last() == '\0' {
        without_nul(s.drop_last())
    } else {
        without_nul(s.drop_last()).push(s.last())
    }
}

/// The character with the given scalar value, if there is one.
#[verifier::external_body]
pub(crate) fn char_from_u32(v: u32) -> (c: Option<char>)
    ensures
        c is Some <==> (v < 0xD800 || (0xE000 <= v && v <= 0x10FFFF)),
        c matches Some(ch) ==> ch == (v as nat) as char,
{
    char::from_u32(v)
}

/// Decodes UTF-16, replacing unpaired surrogates with U+FFFD.
pub fn decode_utf16_lossy(units: &[u16]) -> (chars: Vec<char>)
    ensures
        chars@ == decode_utf16_lossy_spec(units@),
{
    let mut out: Vec<char> = Vec::new();
    let mut i: usize = 0;
    assert(units@.skip(0) == units@);
    while i < units.len()
        invariant
            i <= units.len(),
            decode_utf16_lossy_spec(units@) == out@ + decode_utf16_lossy_spec(units@.skip(i as int)),
        decreases units.len() - i,
    {
        let u = units[i];
        let ghost rest = units@.skip(i as int);
        assert(rest[0] == u);
        if u < 0xD800 || u >= 0xE000 {
            let c = match char_from_u32(u as u32) {
                Some(c) => c,
                None => '\u{FFFD}',
            };
            assert(rest.skip(1) == units@.skip(i + 1));
            out.push(c);
            i = i + 1;
        } else if u < 0xDC00 && i + 1 < units.len() && units[i + 1] >= 0xDC00 && units[i + 1] < 0xE000 {
            let low = units[i + 1];
            assert(rest[1] == low && rest.len() >= 2);
            let v: u32 = 0x10000 + ((u - 0xD800) as u32) * 0x400 + ((low - 0xDC00) as u32);
            let c = match char_from_u32(v) {
                Some(c) => c,
                None => '\u{FFFD}',
            };
            assert(rest.skip(2) == units@.skip(i + 2));
            out.push(c);
            i = i + 2;
        } else {
            assert(rest.skip(1) == units@.skip(i + 1));
            out.push('\u{FFFD}');
            i = i + 1;
        }
    }
    assert(out@ + Seq::<char>::empty() == out@);
    out
}

/// Encodes characters as UTF-16.
pub fn encode_utf16(chars: &[char]) -> (units: Vec<u16>)
    ensures
        units@ == encode_utf16_spec(chars@),
{
    let mut out: Vec<u16> = Vec::new();
    let mut i: usize = 0;
    while i < chars.len()
        invariant
            i <= chars.len(),
            out@ == encode_utf16_spec(chars@.take(i as int)),
        decreases chars.len() - i,
    {
        let c = chars[i];
        let v = c as u32;
        assert(chars@.take(i + 1).last() == c);
        if v < 0x10000 {
            out.push(v as u16);
        } else {
            let w = v - 0x10000;
            out.push((0xD800 + w / 0x400) as u16);
            out.push((0xDC00 + w % 0x400) as u16);
        }
        assert(chars@.take(i + 1).drop_last() == chars@.take(i as int));
        i = i + 1;
    }
    assert(chars@.take(chars.len() as int) == chars@);
    out
}

/// Removes every nul character.
pub fn remove_nul(chars: &[char]) -> (out: Vec<char>)
    ensures
        out@ == without_nul(chars@),
{
    let mut out: Vec<char> = Vec::new();
    let mut i: usize = 0;
    while i < chars.len()
        invariant
            i <= chars.len(),
            out@ == without_nul(chars@.take(i as int)),
        decreases chars.len() - i,
    {
        assert(chars@.take(i + 1).drop_last() == chars@.take(i as int));
        if chars[i] != '\0' {
            out.push(chars[i]);
        }
        i = i + 1;
    }
    assert(chars@.take(chars.len() as int) == chars@);
    out
}

/// The buffer contents after a write of `units` at `index` into a buffer of
/// capacity `len - 1` (the last slot being reserved for the terminator): as many
/// units as fit are written, followed by a nul.
pub open spec fn written_buffer(buf: Seq<u16>, index: nat, units: Seq<u16>) -> Seq<u16> {
    let k = written_count(buf.len(), index, units.len());
    buf.take(index as int) + units.take(k as int) + seq![0u16] + buf.skip((index + k + 1) as int)
}

/// How many units of a write fit: the remaining capacity before the last slot, at most.
pub open spec fn written_count(len: nat, index: nat, n: nat) -> nat {
    let room = (len - 1 - index) as nat;
    if n <= room {
        n
    } else {
        room
    }
}

/// A helper type for writing string data into `[u16]` buffers.
///
/// The text is written in-bounds and nul-terminated. Subsequent writes append to
/// the buffer. If a write reaches the end of the capacity, everything up to the end
/// of the capacity is still written and the write reports an error.
pub struct Utf16Writer {
    buf: Vec<u16>,
    index: usize,
}

impl Utf16Writer {
    /// The buffer.
    pub closed spec fn buffer(self) -> Seq<u16> {
        self.buf@
    }

    /// The position at which the next write starts.
    pub closed spec fn position(self) -> nat {
        self.index as nat
    }

    /// The writer's invariant: the position is in the buffer (if the buffer is not empty).
    pub open spec fn wf(self) -> bool {
        self.buffer().len() == 0 || self.position() < self.buffer().len()
    }

    /// Creates a new writer that writes its output into the provided buffer.
    pub fn new(buf: Vec<u16>) -> (w: Utf16Writer)
        ensures
            w.wf(),
            w.buffer() == buf@,
            w.position() == 0,
    {
        Utf16Writer { buf, index: 0 }
    }

    /// The buffer, with what was written into it.
    pub fn into_inner(self) -> (buf: Vec<u16>)
        ensures
            buf@ == self.buffer(),
    {
        self.buf
    }

    /// Writes `s` as UTF-16 followed by a nul terminator. Returns `Err(())` when the
    /// text did not fit; the part that fits is written anyway, and the buffer stays
    /// nul-terminated.
    pub fn write_str(&mut self, s: &str) -> (r: Result<(), ()>)
        requires
            old(self).wf(),
            old(self).buffer().len() > 0,
        ensures
            final(self).wf(),
            final(self).buffer() == written_buffer(
                old(self).buffer(),
                old(self).position(),
                encode_utf16_spec(s@),
            ),
            final(self).position() == old(self).position() + written_count(
                old(self).buffer().len(),
                old(self).position(),
                encode_utf16_spec(s@).len(),
            ),
            r is Ok <==> encode_utf16_spec(s@).len() + old(self).position() < old(self).buffer().len(),
    {
        let chars = str_to_chars(s);
        let units = encode_utf16(chars.as_slice());
        let max = self.buf.len() - 1;
        let ghost start = self.index as int;
        let ghost orig = self.buf@;
        let mut j: usize = 0;
        while j < units.len()
            invariant
                max == self.buf@.len() - 1,
                orig == old(self).buf@,
                start == old(self).index,
                units@ == encode_utf16_spec(s@),
                self.buf@.len() == orig.len(),
                start <= self.index <= max,
                self.index == start + j,
                j <= units.len(),
                self.buf@ == orig.take(start) + units@.take(j as int) + orig.skip(start + j),
            decreases units.len() - j,
        {
            if self.index == max {
                self.buf.set(self.index, 0);
                assert(written_count(orig.len(), start as nat, units@.len()) == j);
                assert(self.buf@ =~= orig.take(start) + units@.take(j as int) + seq![0u16]
                    + orig.skip(start + j + 1));
                return Err(());
            }
            self.buf.set(self.index, units[j]);
            assert(self.buf@ =~= orig.take(start) + units@.take(j + 1) + orig.skip(start + j + 1));
            self.index = self.index + 1;
            j = j + 1;
        }
        self.buf.set(self.index, 0);
        assert(units@.take(j as int) == units@);
        assert(self.buf@ =~= orig.take(start) + units@.take(j as int) + seq![0u16] + orig.skip(start + j + 1));
        Ok(())
    }
}


/// Decoding a well-formed sequence followed by any other decodes each part in turn.
proof fn lemma_decode_append(a: Seq<u16>, b: Seq<u16>)
    requires
        is_valid_utf16(a),
    ensures
        decode_utf16_lossy_spec(a + b) == decode_utf16_lossy_spec(a) + decode_utf16_lossy_spec(b),
        is_valid_utf16(b) ==> is_valid_utf16(a + b),
    decreases a.len(),
{
    if a.len() == 0 {
        assert(a + b =~= b);
        assert(decode_utf16_lossy_spec(a) + decode_utf16_lossy_spec(b) =~= decode_utf16_lossy_spec(b));
    } else if !is_high_surrogate(a[0]) && !is_low_surrogate(a[0]) {
        lemma_decode_append(a.skip(1), b);
        assert((a + b).skip(1) =~= a.skip(1) + b);
        assert((a + b)[0] == a[0]);
        let x = seq![(a[0] as nat) as char];
        assert(x + (decode_utf16_lossy_spec(a.skip(1)) + decode_utf16_lossy_spec(b)) =~= (x + decode_utf16_lossy_spec(
            a.skip(1),
        )) + decode_utf16_lossy_spec(b));
    } else {
        lemma_decode_append(a.skip(2), b);
        assert((a + b).skip(2) =~= a.skip(2) + b);
        assert((a + b)[0] == a[0] && (a + b)[1] == a[1]);
        let x = seq![surrogate_pair_value(a[0], a[1]) as char];
        assert(x + (decode_utf16_lossy_spec(a.skip(2)) + decode_utf16_lossy_spec(b)) =~= (x + decode_utf16_lossy_spec(
            a.skip(2),
        )) + decode_utf16_lossy_spec(b));
    }
}

/// The units of one character are well-formed and decode to that character.
proof fn lemma_decode_char(c: char)
    ensures
        decode_utf16_lossy_spec(encode_char_spec(c)) == seq![c],
        is_valid_utf16(encode_char_spec(c)),
{
    let v = (c as u32) as nat;
    let units = encode_char_spec(c);
    let empty = Seq::<u16>::empty();
    assert(decode_utf16_lossy_spec(empty) == Seq::<char>::empty());
    assert(is_valid_utf16(empty));
    assert(v < 0xD800 || (0xE000 <= v && v <= 0x10FFFF));
    if v < 0x10000 {
        assert(units.len() == 1);
        assert(units[0] as nat == v);
        assert(!is_high_surrogate(units[0]) && !is_low_surrogate(units[0]));
        assert(units.skip(1) =~= empty);
        assert(((units[0] as nat) as char) == c);
        assert(seq![c] + Seq::<char>::empty() =~= seq![c]);
    } else {
        let w = (v - 0x10000) as nat;
        assert(w <= 0xFFFFF);
        let q = w / 0x400;
        let r = w % 0x400;
        vstd::arithmetic::div_mod::lemma_fundamental_div_mod(w as int, 0x400);
        assert(q <= 0x3FF);
        assert(units[0] == (0xD800 + q) as u16);
        assert(units[1] == (0xDC00 + r) as u16);
        assert(is_high_surrogate(units[0]) && is_low_surrogate(units[1]));
        assert(surrogate_pair_value(units[0], units[1]) == v);
        assert((surrogate_pair_value(units[0], units[1]) as char) == c);
        assert(units.skip(2) =~= empty);
        assert(seq![c] + Seq::<char>::empty() =~= seq![c]);
    }
}

/// Encoding text as UTF-16 gives well-formed UTF-16, and decoding it gives the
/// text back.
pub proof fn utf16_round_trip(s: Seq<char>)
    ensures
        is_valid_utf16(encode_utf16_spec(s)),
        decode_utf16_lossy_spec(encode_utf16_spec(s)) == s,
    decreases s.len(),
{
    if s.len() == 0 {
        assert(encode_utf16_spec(s) =~= Seq::<u16>::empty());
    } else {
        utf16_round_trip(s.drop_last());
        lemma_decode_char(s.last());
        lemma_decode_append(encode_utf16_spec(s.drop_last()), encode_char_spec(s.last()));
        assert(s.drop_last() + seq![s.last()] =~= s);
    }
}

/// A write leaves the buffer's length unchanged and ends what it wrote with a
/// nul, within the buffer.
pub proof fn written_buffer_nul_terminated(buf: Seq<u16>, index: nat, units: Seq<u16>)
    requires
        index < buf.len(),
    ensures
        written_buffer(buf, index, units).len() == buf.len(),
        index + written_count(buf.len(), index, units.len()) < buf.len(),
        written_buffer(buf, index, units)[(index + written_count(buf.len(), index, units.len())) as int] == 0,
        written_buffer(buf, index, units).take(index as int) == buf.take(index as int),
{
    let k = written_count(buf.len(), index, units.len());
    let w = written_buffer(buf, index, units);
    assert(w.take(index as int) =~= buf.take(index as int));
}

/// Encoding two texts one after the other is encoding their concatenation.
pub proof fn encode_utf16_append(a: Seq<char>, b: Seq<char>)
    ensures
        encode_utf16_spec(a + b) == encode_utf16_spec(a) + encode_utf16_spec(b),
    decreases b.len(),
{
    if b.len() == 0 {
        assert(a + b =~= a);
        assert(encode_utf16_spec(b) =~= Seq::<u16>::empty());
        assert(encode_utf16_spec(a) + encode_utf16_spec(b) =~= encode_utf16_spec(a));
    } else {
        encode_utf16_append(a, b.drop_last());
        assert((a + b).drop_last() =~= a + b.drop_last());
        assert((a + b).last() == b.last());
        assert(encode_utf16_spec(a) + (encode_utf16_spec(b.drop_last()) + encode_char_spec(b.last())) =~= (encode_utf16_spec(
            a,
        ) + encode_utf16_spec(b.drop_last())) + encode_char_spec(b.last()));
    }
}

/// A write that fits, followed by another write, leaves the buffer as one write
/// of both texts would: subsequent writes append.
pub proof fn writes_append(buf: Seq<u16>, index: nat, first: Seq<u16>, second: Seq<u16>)
    requires
        index + first.len() < buf.len(),
    ensures
        written_buffer(written_buffer(buf, index, first), index + first.len(), second) == written_buffer(
            buf,
            index,
            first + second,
        ),
        written_count(buf.len(), index, first.len()) + written_count(buf.len(), index + first.len(), second.len())
            == written_count(buf.len(), index, first.len() + second.len()),
{
    let len = buf.len();
    let k1 = written_count(len, index, first.len());
    assert(k1 == first.len());
    let w1 = written_buffer(buf, index, first);
    let i2 = index + first.len();
    let k2 = written_count(len, i2, second.len());
    let k = written_count(len, index, (first + second).len());
    assert(k == k1 + k2);
    assert((first + second).take(k as int) =~= first + second.take(k2 as int));
    assert(w1.take(i2 as int) =~= buf.take(index as int) + first);
    assert(w1.skip((i2 + k2 + 1) as int) =~= buf.skip((index + k + 1) as int));
    assert(written_buffer(w1, i2, second) =~= written_buffer(buf, index, first + second));
}

} // verus!
