//! Where the GIF made from a source file goes: beside it, under the same
//! name with its extension replaced. Paths are bytes, as the file system
//! holds them.

use vstd::prelude::*;

verus! {

/// Index of the last `c` in `s`, or -1 where there is none.
pub open spec fn last_index_of(s: Seq<u8>, c: u8) -> int
    decreases s.len(),
{
    if s.len() == 0 {
        -1
    } else if s.last() == c {
        s.len() - 1
    } else {
        last_index_of(s.drop_last(), c)
    }
}

/// Where the extension of the last path component starts (its dot), or the
/// length of `s` where that component has none. A component whose only dot
/// is its first byte (`.hidden`) has no extension.
pub open spec fn extension_start(s: Seq<u8>) -> int {
    let dot = last_index_of(s, 0x2e);
    if dot > last_index_of(s, 0x2f) + 1 {
        dot
    } else {
        s.len() as int
    }
}

/// `.gif`
pub open spec fn gif_suffix() -> Seq<u8> {
    seq![0x2eu8, 0x67u8, 0x69u8, 0x66u8]
}

/// `s` with the extension of its last component replaced by `.gif`, or with
/// `.gif` appended where it has none.
pub open spec fn gif_path(s: Seq<u8>) -> Seq<u8> {
    s.subrange(0, extension_start(s)) + gif_suffix()
}

proof fn lemma_last_index_bounds(s: Seq<u8>, c: u8)
    ensures
        -1 <= last_index_of(s, c) < s.len(),
    decreases s.len(),
{
    if s.len() > 0 && s.last() != c {
        lemma_last_index_bounds(s.drop_last(), c);
    }
}

/// The extension of the last component of `s`, without its dot: empty where
/// that component has none.
pub open spec fn extension_spec(s: Seq<u8>) -> Seq<u8> {
    if extension_start(s) < s.len() {
        s.subrange(extension_start(s) + 1, s.len() as int)
    } else {
        Seq::empty()
    }
}

fn find_extension_start(source: &[u8]) -> (r: usize)
    ensures
        r == extension_start(source@),
        r <= source@.len(),
{
    let n = source.len();
    // one past the last dot and the last slash seen so far; 0 for none
    let mut dot_end: usize = 0;
    let mut slash_end: usize = 0;
    let mut i: usize = 0;
    while i < n
        invariant
            n == source@.len(),
            i <= n,
            dot_end == last_index_of(source@.subrange(0, i as int), 0x2e) + 1,
            slash_end == last_index_of(source@.subrange(0, i as int), 0x2f) + 1,
        decreases n - i,
    {
        assert(source@.subrange(0, i + 1).drop_last() == source@.subrange(0, i as int));
        if source[i] == 0x2e {
            dot_end = i + 1;
        } else if source[i] == 0x2f {
            slash_end = i + 1;
        }
        i = i + 1;
    }
    assert(source@.subrange(0, n as int) == source@);
    proof {
        lemma_last_index_bounds(source@, 0x2e);
    }
    if dot_end > slash_end && dot_end - slash_end > 1 {
        dot_end - 1
    } else {
        n
    }
}

fn copy_range(source: &[u8], from: usize, to: usize) -> (r: Vec<u8>)
    requires
        from <= to <= source@.len(),
    ensures
        r@ == source@.subrange(from as int, to as int),
{
    let mut r: Vec<u8> = Vec::new();
    let mut j: usize = from;
    while j < to
        invariant
            from <= j <= to <= source@.len(),
            r@ == source@.subrange(from as int, j as int),
        decreases to - j,
    {
        r.push(source[j]);
        j = j + 1;
        assert(r@ == source@.subrange(from as int, j as int));
    }
    r
}

/// The extension of `source`'s last component, which names its format.
pub fn extension_of(source: &[u8]) -> (r: Vec<u8>)
    ensures
        r@ == extension_spec(source@),
{
    let start = find_extension_start(source);
    if start < source.len() {
        copy_range(source, start + 1, source.len())
    } else {
        Vec::new()
    }
}

/// The output path for `source`: its extension replaced by `gif`.
pub fn output_path(source: &[u8]) -> (r: Vec<u8>)
    ensures
        r@ == gif_path(source@),
{
    let end = find_extension_start(source);
    let mut r = copy_range(source, 0, end);
    r.push(0x2e);
    r.push(0x67);
    r.push(0x69);
    r.push(0x66);
    assert(r@ == source@.subrange(0, end as int) + gif_suffix());
    r
}

} // verus!
