//! Bytes read as text: every byte stands for the character with the same
//! code point, so any byte sequence has a text.

use vstd::prelude::*;

verus! {

/// The text that a byte sequence stands for: byte `i` becomes the character
/// whose code point is that byte.
pub open spec fn latin1(bytes: Seq<u8>) -> Seq<char> {
    Seq::new(bytes.len(), |i: int| bytes[i] as char)
}

/// Specifies `String::push` of std, which vstd leaves without a contract:
/// the string afterwards is the string before with `ch` appended, as the
/// method's documentation says.
pub assume_specification[ String::push ](s: &mut String, ch: char)
    ensures
        final(s)@ == old(s)@.push(ch),
;

/// Decodes `bytes` into the characters of its text.
pub fn to_chars(bytes: &[u8]) -> (chars: Vec<char>)
    ensures
        chars@ == latin1(bytes@),
{
    let mut chars: Vec<char> = Vec::new();
    let mut i: usize = 0;
    while i < bytes.len()
        invariant
            i <= bytes.len(),
            chars@ == latin1(bytes@.take(i as int)),
        decreases bytes.len() - i,
    {
        chars.push(bytes[i] as char);
        i += 1;
        assert(chars@ =~= latin1(bytes@.take(i as int)));
    }
    assert(bytes@.take(i as int) =~= bytes@);
    chars
}

/// Collects the characters `chars[from..to]` into a `String`.
pub fn string_of(chars: &[char], from: usize, to: usize) -> (s: String)
    requires
        from <= to <= chars.len(),
    ensures
        s@ == chars@.subrange(from as int, to as int),
{
    let mut s = String::new();
    let mut i: usize = from;
    while i < to
        invariant
            from <= i <= to <= chars.len(),
            s@ == chars@.subrange(from as int, i as int),
        decreases to - i,
    {
        s.push(chars[i]);
        i += 1;
        assert(s@ =~= chars@.subrange(from as int, i as int));
    }
    s
}

} // verus!
