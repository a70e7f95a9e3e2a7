//! Canonical text of an IPv6 address given as eight 16-bit groups: lowercase
//! hex groups joined by colons, the leftmost longest run of two or more zero
//! groups compressed to `::`, and an IPv4-mapped address (`::ffff:a.b.c.d`)
//! rendered with its trailing four bytes in dotted-decimal form.

use vstd::prelude::*;

use crate::text::{format_ipv4, push_hex_u16, spec_hex_text, spec_ipv4_text};

verus! {

/// Length of the run of zero groups starting at index `i`.
pub open spec fn run_len_at(segs: Seq<u16>, i: int) -> int
    recommends
        0 <= i <= segs.len(),
    decreases segs.len() - i,
        when 0 <= i <= segs.len()
{
    if i < segs.len() && segs[i] == 0 {
        1 + run_len_at(segs, i + 1)
    } else {
        0
    }
}

/// Scans indices from `i` upward, keeping the start and length of the best
/// zero run seen so far; a strictly longer run replaces the current best, so
/// the leftmost longest run wins.
pub open spec fn best_run(segs: Seq<u16>, i: int, bs: int, bl: int) -> (int, int)
    decreases segs.len() - i,
        when 0 <= i <= segs.len()
{
    if i < segs.len() {
        if run_len_at(segs, i) > bl {
            best_run(segs, i + 1, i, run_len_at(segs, i))
        } else {
            best_run(segs, i + 1, bs, bl)
        }
    } else {
        (bs, bl)
    }
}

/// Start and length of the leftmost longest run of zero groups
/// (length 0 when there is no zero group at all).
pub open spec fn spec_zero_span(segs: Seq<u16>) -> (int, int) {
    best_run(segs, 0, 0, 0)
}

/// The hex texts of groups `lo .. hi`, joined by single colons.
pub open spec fn spec_join_hex(segs: Seq<u16>, lo: int, hi: int) -> Seq<char>
    recommends
        0 <= lo <= hi <= segs.len(),
    decreases hi - lo,
{
    if lo >= hi {
        Seq::empty()
    } else if lo + 1 == hi {
        spec_hex_text(segs[lo] as int)
    } else {
        spec_hex_text(segs[lo] as int) + seq![':'] + spec_join_hex(segs, lo + 1, hi)
    }
}

/// An IPv4-mapped address: the first five groups zero and the sixth `ffff`.
pub open spec fn spec_ipv4_mapped(segs: Seq<u16>) -> bool {
    &&& segs.len() == 8
    &&& segs[0] == 0
    &&& segs[1] == 0
    &&& segs[2] == 0
    &&& segs[3] == 0
    &&& segs[4] == 0
    &&& segs[5] == 0xffff
}

/// Canonical text of eight 16-bit groups.
pub open spec fn spec_ipv6_text(segs: Seq<u16>) -> Seq<char>
    recommends
        segs.len() == 8,
{
    if spec_ipv4_mapped(segs) {
        seq![':', ':', 'f', 'f', 'f', 'f', ':'] + spec_ipv4_text(
            (segs[6] as int / 256) as u8,
            (segs[6] as int % 256) as u8,
            (segs[7] as int / 256) as u8,
            (segs[7] as int % 256) as u8,
        )
    } else {
        let (start, len) = spec_zero_span(segs);
        if len >= 2 {
            spec_join_hex(segs, 0, start) + seq![':', ':'] + spec_join_hex(segs, start + len, 8)
        } else {
            spec_join_hex(segs, 0, 8)
        }
    }
}

/// Length of the run of zero groups starting at `i`.
fn run_len(segs: &Vec<u16>, i: usize) -> (l: usize)
    requires
        i <= segs@.len(),
    ensures
        l as int == run_len_at(segs@, i as int),
        i + l <= segs@.len(),
{
    let mut j = i;
    while j < segs.len() && segs[j] == 0
        invariant
            i <= j <= segs@.len(),
            run_len_at(segs@, i as int) == j - i + run_len_at(segs@, j as int),
        decreases segs@.len() - j,
    {
        proof {
            assert(run_len_at(segs@, j as int) == 1 + run_len_at(segs@, j as int + 1));
        }
        j = j + 1;
    }
    proof {
        assert(run_len_at(segs@, j as int) == 0);
    }
    j - i
}

/// Start and length of the leftmost longest run of zero groups.
fn zero_span(segs: &Vec<u16>) -> (r: (usize, usize))
    ensures
        (r.0 as int, r.1 as int) == spec_zero_span(segs@),
        r.0 + r.1 <= segs@.len(),
{
    let mut bs: usize = 0;
    let mut bl: usize = 0;
    let mut i: usize = 0;
    while i < segs.len()
        invariant
            i <= segs@.len(),
            bs + bl <= segs@.len(),
            best_run(segs@, i as int, bs as int, bl as int) == spec_zero_span(segs@),
        decreases segs@.len() - i,
    {
        let l = run_len(segs, i);
        proof {
            assert(best_run(segs@, i as int, bs as int, bl as int) == if l > bl {
                best_run(segs@, i as int + 1, i as int, l as int)
            } else {
                best_run(segs@, i as int + 1, bs as int, bl as int)
            });
        }
        if l > bl {
            bs = i;
            bl = l;
        }
        i = i + 1;
    }
    (bs, bl)
}

/// Appends the colon-joined hex texts of groups `lo .. hi` to `s`.
fn push_join_hex(s: &mut String, segs: &Vec<u16>, lo: usize, hi: usize)
    requires
        lo <= hi <= segs@.len(),
    ensures
        final(s)@ == old(s)@ + spec_join_hex(segs@, lo as int, hi as int),
    decreases hi - lo,
{
    if lo < hi {
        push_hex_u16(s, segs[lo]);
        if lo + 1 < hi {
            s.append(":");
            push_join_hex(s, segs, lo + 1, hi);
            proof {
                reveal_strlit(":");
                assert(s@ =~= old(s)@ + spec_join_hex(segs@, lo as int, hi as int));
            }
        }
    }
}

/// The canonical compressed colon-hex text of an IPv6 address given as
/// eight big-endian 16-bit groups.
pub fn format_ipv6(segs: &Vec<u16>) -> (r: String)
    requires
        segs@.len() == 8,
    ensures
        r@ == spec_ipv6_text(segs@),
{
    if segs[0] == 0 && segs[1] == 0 && segs[2] == 0 && segs[3] == 0 && segs[4] == 0 && segs[5]
        == 0xffff {
        let mut s = String::new();
        s.append("::ffff:");
        let ip = format_ipv4(
            (segs[6] / 256) as u8,
            (segs[6] % 256) as u8,
            (segs[7] / 256) as u8,
            (segs[7] % 256) as u8,
        );
        s.append(ip.as_str());
        proof {
            reveal_strlit("::ffff:");
            assert(s@ =~= spec_ipv6_text(segs@));
        }
        s
    } else {
        let span = zero_span(segs);
        let mut s = String::new();
        if span.1 >= 2 {
            push_join_hex(&mut s, segs, 0, span.0);
            s.append("::");
            push_join_hex(&mut s, segs, span.0 + span.1, 8);
            proof {
                reveal_strlit("::");
                assert(s@ =~= spec_ipv6_text(segs@));
            }
        } else {
            push_join_hex(&mut s, segs, 0, 8);
            proof {
                assert(s@ =~= spec_ipv6_text(segs@));
            }
        }
        s
    }
}

} // verus!
