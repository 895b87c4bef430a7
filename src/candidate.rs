//! ICE candidate attribute lines: finding the connection address (the token
//! numbered 4 from zero), telling whether it is a `.local` host name, and
//! putting a resolved address in its place.
//!
//! The candidate attribute grammar separates its fields by exactly one space
//! character, so a line is cut at each single space, and two spaces in a row
//! delimit an empty token. Cutting this way keeps every character of the line
//! but the address when the resolved address is put in, so the rewritten
//! line differs from the received one in that field alone.
use vstd::prelude::*;
use vstd::string::*;
use crate::protocol::opt_text;

verus! {

/// Index of the first space in `s` at or after `p`, if any.
pub open spec fn next_space(s: Seq<char>, p: int) -> Option<int>
    decreases s.len() - p,
{
    if p < 0 || p >= s.len() {
        None
    } else if s[p] == ' ' {
        Some(p)
    } else {
        next_space(s, p + 1)
    }
}

/// Where the token numbered `k` begins: at 0, or just past the space that
/// ends the token numbered `k - 1`.
pub open spec fn token_start(s: Seq<char>, k: nat) -> Option<int>
    decreases k,
{
    if k == 0 {
        Some(0)
    } else {
        match token_start(s, (k - 1) as nat) {
            Some(p) => match next_space(s, p) {
                Some(q) => Some(q + 1),
                None => None,
            },
            None => None,
        }
    }
}

/// Where the token beginning at `p` ends: at the next space, or at the end of `s`.
pub open spec fn token_end(s: Seq<char>, p: int) -> int {
    match next_space(s, p) {
        Some(q) => q,
        None => s.len() as int,
    }
}

/// Position of the token that holds the connection address.
pub open spec fn address_start(s: Seq<char>) -> Option<int> {
    token_start(s, 4)
}

/// The connection address of a candidate line, if the line has that many tokens.
pub open spec fn address_token(s: Seq<char>) -> Option<Seq<char>> {
    match address_start(s) {
        Some(p) => Some(s.subrange(p, token_end(s, p))),
        None => None,
    }
}

pub open spec fn local_suffix() -> Seq<char> {
    seq!['.', 'l', 'o', 'c', 'a', 'l']
}

/// A host name that only multicast DNS resolves.
pub open spec fn is_mdns_name(t: Seq<char>) -> bool {
    t.len() >= 6 && t.subrange(t.len() - 6, t.len() as int) == local_suffix()
}

/// The `.local` host name that a candidate line names as its address, if any.
pub open spec fn mdns_host_of(s: Seq<char>) -> Option<Seq<char>> {
    match address_token(s) {
        Some(t) => if is_mdns_name(t) {
            Some(t)
        } else {
            None
        },
        None => None,
    }
}

/// The candidate line with its connection address replaced by `addr`.
pub open spec fn with_address_of(s: Seq<char>, addr: Seq<char>) -> Option<Seq<char>> {
    match address_start(s) {
        Some(p) => Some(s.subrange(0, p) + addr + s.subrange(token_end(s, p), s.len() as int)),
        None => None,
    }
}

/// The candidate lines to hand to the media engine for one received candidate:
/// the line itself, then, where its address is a `.local` name that was
/// resolved, the line with the resolved address in its place.
pub open spec fn forwarded_lines(s: Seq<char>, resolved: Option<Seq<char>>) -> Seq<Seq<char>> {
    match (mdns_host_of(s), resolved) {
        (Some(_), Some(addr)) => seq![s, with_address_of(s, addr).unwrap()],
        _ => seq![s],
    }
}

proof fn lemma_next_space_bounds(s: Seq<char>, p: int)
    ensures
        next_space(s, p) matches Some(q) ==> p <= q < s.len() && s[q] == ' ',
    decreases s.len() - p,
{
    if 0 <= p < s.len() && s[p] != ' ' {
        lemma_next_space_bounds(s, p + 1);
    }
}

/// Index of the first space at or after `from`, or the length where there is none.
fn find_space(s: &str, len: usize, from: usize) -> (r: usize)
    requires
        len == s@.len(),
        from <= len,
    ensures
        r == token_end(s@, from as int),
        from <= r <= len,
{
    let mut i: usize = from;
    while i < len
        invariant
            len == s@.len(),
            from <= i <= len,
            next_space(s@, from as int) == next_space(s@, i as int),
        decreases len - i,
    {
        if s.get_char(i) == ' ' {
            return i;
        }
        i = i + 1;
    }
    i
}

/// Start of the connection-address token, if the line has one.
fn find_address(s: &str, len: usize) -> (r: Option<usize>)
    requires
        len == s@.len(),
    ensures
        match r {
            Some(p) => p <= len && address_start(s@) == Some(p as int),
            None => address_start(s@) is None,
        },
{
    let mut k: usize = 0;
    let mut p: usize = 0;
    while k < 4
        invariant
            len == s@.len(),
            k <= 4,
            p <= len,
            token_start(s@, k as nat) == Some(p as int),
        decreases 4 - k,
    {
        let q = find_space(s, len, p);
        proof {
            lemma_next_space_bounds(s@, p as int);
        }
        if q == len {
            proof {
                lemma_none_propagates(s@, (k + 1) as nat, 4);
            }
            return None;
        }
        p = q + 1;
        k = k + 1;
    }
    Some(p)
}

proof fn lemma_none_propagates(s: Seq<char>, k: nat, n: nat)
    requires
        token_start(s, k) is None,
        k <= n,
    ensures
        token_start(s, n) is None,
    decreases n - k,
{
    if k < n {
        lemma_none_propagates(s, k + 1, n);
    }
}

/// Whether `t` ends with `.local`.
fn ends_with_local(t: &str) -> (r: bool)
    ensures
        r == is_mdns_name(t@),
{
    let n = t.unicode_len();
    if n < 6 {
        return false;
    }
    let r = t.get_char(n - 6) == '.' && t.get_char(n - 5) == 'l' && t.get_char(n - 4) == 'o'
        && t.get_char(n - 3) == 'c' && t.get_char(n - 2) == 'a' && t.get_char(n - 1) == 'l';
    proof {
        let tail = t@.subrange(n - 6, n as int);
        if r {
            assert(tail =~= local_suffix());
        } else {
            assert(tail != local_suffix()) by {
                if tail == local_suffix() {
                    assert(tail[0] == '.' && tail[1] == 'l' && tail[2] == 'o');
                    assert(tail[3] == 'c' && tail[4] == 'a' && tail[5] == 'l');
                }
            }
        }
    }
    r
}

/// The `.local` host name that a candidate line gives as its connection
/// address, if it gives one; `None` for any other address or a line too short
/// to have one.
pub fn mdns_host(candidate: &str) -> (r: Option<String>)
    ensures
        match r {
            Some(h) => mdns_host_of(candidate@) == Some(h@),
            None => mdns_host_of(candidate@) is None,
        },
{
    let len = candidate.unicode_len();
    match find_address(candidate, len) {
        None => None,
        Some(p) => {
            let e = find_space(candidate, len, p);
            let t = candidate.substring_char(p, e);
            if ends_with_local(t) {
                Some(String::from_str(t))
            } else {
                None
            }
        },
    }
}

/// The candidate line with its connection address replaced by `address`, or
/// `None` where the line has no connection address.
pub fn with_address(candidate: &str, address: &str) -> (r: Option<String>)
    ensures
        match r {
            Some(line) => with_address_of(candidate@, address@) == Some(line@),
            None => with_address_of(candidate@, address@) is None,
        },
{
    let len = candidate.unicode_len();
    match find_address(candidate, len) {
        None => None,
        Some(p) => {
            let e = find_space(candidate, len, p);
            let mut line = String::from_str(candidate.substring_char(0, p));
            line.append(address);
            line.append(candidate.substring_char(e, len));
            Some(line)
        },
    }
}

/// The extra candidate line to hand to the media engine after the received
/// one, given what resolving its `.local` address gave (`None` where nothing
/// was resolved): the line with the resolved address in place of the host
/// name, or `None` where the address is no `.local` name or was not resolved.
pub fn resolved_candidate(candidate: &str, resolved: Option<String>) -> (r: Option<String>)
    ensures
        match (mdns_host_of(candidate@), opt_text(resolved)) {
            (Some(_), Some(addr)) => opt_text(r) == with_address_of(candidate@, addr),
            _ => r is None,
        },
{
    match resolved {
        None => None,
        Some(addr) => match mdns_host(candidate) {
            None => None,
            Some(_) => with_address(candidate, addr.as_str()),
        },
    }
}

/// The candidate lines to hand to the media engine for one received
/// candidate, in order, given what resolving its `.local` address gave:
/// always the line as received, then the line with the resolved address
/// where there is one.
pub fn forwarded_candidates(candidate: &str, resolved: Option<String>) -> (r: Vec<String>)
    ensures
        r@.map_values(|l: String| l@) == forwarded_lines(candidate@, opt_text(resolved)),
{
    let mut out: Vec<String> = Vec::new();
    out.push(String::from_str(candidate));
    let extra = resolved_candidate(candidate, resolved);
    proof {
        if let (Some(_), Some(addr)) = (mdns_host_of(candidate@), opt_text(resolved)) {
            lemma_mdns_host_has_address(candidate@, addr);
        }
    }
    if let Some(l) = extra {
        out.push(l);
    }
    proof {
        let m = out@.map_values(|l: String| l@);
        assert(m =~= forwarded_lines(candidate@, opt_text(resolved)));
    }
    out
}

proof fn lemma_mdns_host_has_address(s: Seq<char>, addr: Seq<char>)
    requires
        mdns_host_of(s) is Some,
    ensures
        with_address_of(s, addr) is Some,
{
}

} // verus!
