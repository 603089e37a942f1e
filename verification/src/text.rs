//! Small text-building helpers with exact specifications.

use vstd::prelude::*;

verus! {

/// Appending one character to a `String` (std's `String::push`): the
/// contents afterwards are the old contents followed by `ch`.
pub assume_specification[ String::push ](s: &mut String, ch: char)
    ensures
        final(s)@ == old(s)@.push(ch),
;

/// The ASCII digit for `d` (meaningful for `d < 10`).
pub open spec fn digit_char(d: nat) -> char {
    ((d + 48) as u8) as char
}

/// The decimal representation of `n`, without sign or leading zeros.
pub open spec fn decimal(n: nat) -> Seq<char>
    decreases n,
{
    if n < 10 {
        seq![digit_char(n)]
    } else {
        decimal(n / 10).push(digit_char(n % 10))
    }
}

/// Appends the decimal representation of `n` to `s`.
pub fn push_decimal(s: &mut String, n: u64)
    ensures
        final(s)@ == old(s)@ + decimal(n as nat),
    decreases n,
{
    if n >= 10 {
        push_decimal(s, n / 10);
    }
    let d: u8 = (n % 10) as u8;
    s.push((48u8 + d) as char);
}

} // verus!

verus! {

/// The byte `/`, the Unix path separator.
pub const SEPARATOR: u8 = 47;

/// A path (as the raw bytes of its name) with `name` appended as one more
/// component, the way a Unix path is extended: an absolute `name` replaces
/// `base`; otherwise a `/` is put between the two unless `base` is empty or
/// already ends with one.
pub open spec fn path_join(base: Seq<u8>, name: Seq<u8>) -> Seq<u8> {
    if name.len() > 0 && name[0] == SEPARATOR {
        name
    } else if base.len() == 0 || base.last() == SEPARATOR {
        base + name
    } else {
        base.push(SEPARATOR) + name
    }
}

/// Appends the bytes of `tail` to `out`.
fn push_bytes(out: &mut Vec<u8>, tail: &[u8])
    ensures
        final(out)@ == old(out)@ + tail@,
{
    let ghost start = out@;
    let mut i: usize = 0;
    while i < tail.len()
        invariant
            i <= tail@.len(),
            out@ == start + tail@.take(i as int),
        decreases tail@.len() - i,
    {
        out.push(tail[i]);
        proof {
            assert(tail@.take(i as int + 1) == tail@.take(i as int).push(tail@[i as int]));
        }
        i = i + 1;
    }
    proof {
        assert(tail@.take(tail@.len() as int) == tail@);
    }
}

/// Extends the path `base` by the component(s) `name`.
pub fn join_path(base: &[u8], name: &[u8]) -> (joined: Vec<u8>)
    ensures
        joined@ == path_join(base@, name@),
{
    let mut joined: Vec<u8> = Vec::new();
    if name.len() > 0 && name[0] == SEPARATOR {
        push_bytes(&mut joined, name);
        return joined;
    }
    push_bytes(&mut joined, base);
    if base.len() > 0 && base[base.len() - 1] != SEPARATOR {
        joined.push(SEPARATOR);
    }
    push_bytes(&mut joined, name);
    joined
}

} // verus!
