//! Reading the RPC password out of the daemon's configuration text.

use vstd::prelude::*;

verus! {

/// Where the line that starts at `i` ends: at the next line feed, or at the
/// end of the text.
pub open spec fn line_end(s: Seq<char>, i: int) -> int
    decreases s.len() - i,
{
    if i >= s.len() {
        s.len() as int
    } else if s[i] == '\n' {
        i
    } else {
        line_end(s, i + 1)
    }
}

/// The text of the line from `i` to `e`, without the carriage return of a
/// `\r\n` ending.
pub open spec fn line_text(s: Seq<char>, i: int, e: int) -> Seq<char> {
    if e < s.len() && e > i && s[e - 1] == '\r' {
        s.subrange(i, e - 1)
    } else {
        s.subrange(i, e)
    }
}

/// What a password line starts with.
pub open spec fn password_key() -> Seq<char> {
    "rpcpassword="@
}

/// The password set by the first line from `i` on that starts with
/// `rpcpassword=`: the rest of that line.
pub open spec fn password_from(s: Seq<char>, i: int) -> Option<Seq<char>>
    decreases s.len() - i,
    via password_from_decreases
{
    if i < 0 || i >= s.len() {
        None
    } else {
        let e = line_end(s, i);
        let line = line_text(s, i, e);
        if password_key().is_prefix_of(line) {
            Some(line.subrange(password_key().len() as int, line.len() as int))
        } else if e < s.len() {
            password_from(s, e + 1)
        } else {
            None
        }
    }
}

proof fn lemma_line_end_bounds(s: Seq<char>, i: int)
    requires
        0 <= i <= s.len(),
    ensures
        i <= line_end(s, i) <= s.len(),
    decreases s.len() - i,
{
    if i < s.len() && s[i] != '\n' {
        lemma_line_end_bounds(s, i + 1);
    }
}

#[via_fn]
proof fn password_from_decreases(s: Seq<char>, i: int) {
    if 0 <= i < s.len() {
        lemma_line_end_bounds(s, i);
        assert(s.len() - (line_end(s, i) + 1) < s.len() - i);
    }
}

/// Whether the line that starts at `i` and ends at `stop` starts with the password key.
fn starts_with_key(config: &str, i: usize, stop: usize) -> (r: bool)
    requires
        i <= stop <= config@.len(),
    ensures
        r == password_key().is_prefix_of(config@.subrange(i as int, stop as int)),
{
    let key = "rpcpassword=";
    proof {
        reveal_strlit("rpcpassword=");
    }
    let ghost line = config@.subrange(i as int, stop as int);
    if stop - i < 12 {
        return false;
    }
    let mut j: usize = 0;
    while j < 12
        invariant
            j <= 12,
            i + 12 <= stop <= config@.len(),
            key@ == password_key(),
            key@.len() == 12,
            line == config@.subrange(i as int, stop as int),
            forall|k: int| 0 <= k < j ==> line[k] == key@[k],
        decreases 12 - j,
    {
        if key.get_char(j) != config.get_char(i + j) {
            assert(line[j as int] != key@[j as int]);
            return false;
        }
        j = j + 1;
    }
    assert(key@ =~= line.subrange(0, 12));
    true
}

/// The RPC password that a configuration text sets: the rest of the first
/// line that starts with `rpcpassword=`, if there is one.
pub fn password_from_config(config: &str) -> (r: Option<String>)
    ensures
        match r {
            Some(p) => password_from(config@, 0) == Some(p@),
            None => password_from(config@, 0) is None,
        },
{
    let ghost s = config@;
    let n = config.unicode_len();
    let mut i: usize = 0;
    while i < n
        invariant
            s == config@,
            n == s.len(),
            i <= n + 1,
            password_from(s, 0) == password_from(s, i as int),
        decreases n + 1 - i,
    {
        let mut e = i;
        while e < n && config.get_char(e) != '\n'
            invariant
                s == config@,
                n == s.len(),
                i <= e <= n,
                line_end(s, i as int) == line_end(s, e as int),
            decreases n - e,
        {
            e = e + 1;
        }
        assert(line_end(s, e as int) == e);
        let stop = if e < n && e > i && config.get_char(e - 1) == '\r' {
            e - 1
        } else {
            e
        };
        assert(line_text(s, i as int, e as int) == s.subrange(i as int, stop as int));
        proof {
            reveal_strlit("rpcpassword=");
        }
        if starts_with_key(config, i, stop) {
            let p = config.substring_char(i + 12, stop).to_owned();
            proof {
                let line = s.subrange(i as int, stop as int);
                assert(p@ =~= line.subrange(12, line.len() as int));
            }
            return Some(p);
        }
        if e >= n {
            return None;
        }
        i = e + 1;
    }
    None
}

} // verus!
