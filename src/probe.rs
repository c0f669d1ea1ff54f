use vstd::prelude::*;
use vstd::string::StringSliceAdditionalSpecFns;

verus! {

/// What the player-state script prints for a player that is running.
pub const RUNNING_WORD: &'static str = "true";
/// What the player-state script prints for a player that is playing.
pub const PLAYING_WORD: &'static str = "playing";

/// ASCII whitespace: space, tab, line feed, vertical tab, form feed,
/// carriage return.
pub open spec fn is_space(b: u8) -> bool {
    b == 32 || (9 <= b && b <= 13)
}

pub open spec fn trim_start(s: Seq<u8>) -> Seq<u8>
    decreases s.len(),
{
    if s.len() > 0 && is_space(s[0]) {
        trim_start(s.drop_first())
    } else {
        s
    }
}

pub open spec fn trim_end(s: Seq<u8>) -> Seq<u8>
    decreases s.len(),
{
    if s.len() > 0 && is_space(s.last()) {
        trim_end(s.drop_last())
    } else {
        s
    }
}

/// Output bytes without surrounding whitespace.
pub open spec fn trimmed(s: Seq<u8>) -> Seq<u8> {
    trim_end(trim_start(s))
}

/// Whether a script's output, without surrounding whitespace, is `word`.
pub open spec fn output_is(output: Seq<u8>, word: Seq<u8>) -> bool {
    trimmed(output) == word
}

/// Reads the output of the "is the player running" script.
pub fn reports_running(output: &str) -> (r: bool)
    ensures
        r == output_is(output.spec_bytes(), RUNNING_WORD.spec_bytes()),
{
    trimmed_equals(output.as_bytes(), RUNNING_WORD.as_bytes())
}

/// Reads the output of the "player state" script.
pub fn reports_playing(output: &str) -> (r: bool)
    ensures
        r == output_is(output.spec_bytes(), PLAYING_WORD.spec_bytes()),
{
    trimmed_equals(output.as_bytes(), PLAYING_WORD.as_bytes())
}

fn space(b: u8) -> (r: bool)
    ensures
        r == is_space(b),
{
    b == 32 || (9 <= b && b <= 13)
}

fn trimmed_equals(out: &[u8], word: &[u8]) -> (r: bool)
    ensures
        r == output_is(out@, word@),
{
    let n = out.len();
    let mut lo: usize = 0;
    assert(out@.subrange(0, n as int) =~= out@);
    while lo < n && space(out[lo])
        invariant
            n == out@.len(),
            lo <= n,
            trim_start(out@) == trim_start(out@.subrange(lo as int, n as int)),
        decreases n - lo,
    {
        assert(out@.subrange(lo as int, n as int).drop_first() =~= out@.subrange(
            lo + 1,
            n as int,
        ));
        lo = lo + 1;
    }
    assert(trim_start(out@) == out@.subrange(lo as int, n as int));
    let mut hi: usize = n;
    while hi > lo && space(out[hi - 1])
        invariant
            n == out@.len(),
            lo <= hi <= n,
            trimmed(out@) == trim_end(out@.subrange(lo as int, hi as int)),
        decreases hi - lo,
    {
        assert(out@.subrange(lo as int, hi as int).drop_last() =~= out@.subrange(
            lo as int,
            hi - 1,
        ));
        hi = hi - 1;
    }
    assert(trimmed(out@) == out@.subrange(lo as int, hi as int));
    if hi - lo != word.len() {
        return false;
    }
    let mut i: usize = 0;
    while i < word.len()
        invariant
            lo <= hi <= n,
            n == out@.len(),
            trimmed(out@) == out@.subrange(lo as int, hi as int),
            hi - lo == word@.len(),
            0 <= i <= word@.len(),
            forall|k: int| 0 <= k < i ==> out@[lo + k] == word@[k],
        decreases word@.len() - i,
    {
        if out[lo + i] != word[i] {
            assert(out@.subrange(lo as int, hi as int)[i as int] != word@[i as int]);
            return false;
        }
        i = i + 1;
    }
    assert(out@.subrange(lo as int, hi as int) =~= word@);
    true
}

} // verus!
