//! IPv6 addresses. They have no redaction rule of their own: nothing of an
//! address is shown.

use crate::address::ipv4::{ipv4_text, Ipv4Address};
use crate::numeral::{
    hexadecimal, hexadecimal_text, is_hexadecimal_digit, lemma_hexadecimal_notation,
};
use crate::redact::{keeps_generic_rule, mask, Redactable};
use crate::render::Render;
use vstd::prelude::*;

verus! {

/// The segments in lower-case hexadecimal, with a colon between neighbours.
pub open spec fn colon_hex(segments: Seq<u16>) -> Seq<char>
    decreases segments.len(),
{
    if segments.len() == 0 {
        Seq::empty()
    } else if segments.len() == 1 {
        hexadecimal(segments[0] as nat)
    } else {
        colon_hex(segments.drop_last()) + seq![':'] + hexadecimal(segments.last() as nat)
    }
}

/// The `len` segments from `start` on are all zero.
pub open spec fn is_zero_run(segments: Seq<u16>, start: int, len: int) -> bool {
    &&& 0 <= start
    &&& 0 <= len
    &&& start + len <= segments.len()
    &&& forall|i: int| start <= i < start + len ==> segments[i] == 0
}

/// Among the runs of zero segments that end at or before `end`, the `len`
/// segments from `start` on are a longest, and the leftmost of the longest.
pub open spec fn is_longest_zero_run_before(
    segments: Seq<u16>,
    end: int,
    start: int,
    len: int,
) -> bool {
    &&& is_zero_run(segments, start, len)
    &&& start + len <= end
    &&& forall|other_start: int, other_len: int| #[trigger]
        is_zero_run(segments, other_start, other_len) && other_start + other_len <= end
            ==> other_len < len || (other_len == len && start <= other_start)
}

/// The `len` segments from `start` on are a longest run of zero segments, and
/// the leftmost of the longest.
pub open spec fn is_longest_zero_run(segments: Seq<u16>, start: int, len: int) -> bool {
    is_longest_zero_run_before(segments, segments.len() as int, start, len)
}

/// The `len` segments before `end` are zero, and the segment before them, if
/// there is one, is not.
pub open spec fn is_zero_run_ending(segments: Seq<u16>, end: int, len: int) -> bool {
    &&& is_zero_run(segments, end - len, len)
    &&& len < end ==> segments[end - len - 1] != 0
}

/// The length of the run of zero segments that ends after the segment at
/// `end`, given the length of the run that ends before it.
pub open spec fn extended_zero_run(segments: Seq<u16>, end: int, len: int) -> int {
    if segments[end] == 0 {
        len + 1
    } else {
        0
    }
}

/// One segment further, the leftmost longest run is the run that ends there
/// if that run is longer, and stays what it was if not.
pub proof fn lemma_longest_zero_run_step(
    segments: Seq<u16>,
    end: int,
    best_start: int,
    best_len: int,
    run_len: int,
)
    requires
        0 <= end < segments.len(),
        is_longest_zero_run_before(segments, end, best_start, best_len),
        is_zero_run_ending(segments, end, run_len),
    ensures
        is_zero_run_ending(segments, end + 1, extended_zero_run(segments, end, run_len)),
        extended_zero_run(segments, end, run_len) > best_len ==> is_longest_zero_run_before(
            segments,
            end + 1,
            end + 1 - extended_zero_run(segments, end, run_len),
            extended_zero_run(segments, end, run_len),
        ),
        extended_zero_run(segments, end, run_len) <= best_len ==> is_longest_zero_run_before(
            segments,
            end + 1,
            best_start,
            best_len,
        ),
{
    let extended = extended_zero_run(segments, end, run_len);
    assert forall|start: int, len: int| #[trigger]
        is_zero_run(segments, start, len) && start + len == end + 1 implies len <= extended by {
        if len > 0 {
            // The run ends at the segment at `end`, so that segment is zero, and
            // the run without it ends where the run before `end` does.
            assert(segments[end] == 0);
            assert(is_zero_run(segments, start, len - 1));
            if len - 1 > run_len {
                assert(segments[end - run_len - 1] == 0);
            }
        }
    }
    assert(is_zero_run(segments, 0, 0));
}

/// Among the runs that end at or before `end` there is a leftmost longest one.
proof fn lemma_longest_zero_run_before_exists(segments: Seq<u16>, end: int) -> (found: (
    int,
    int,
    int,
))
    requires
        0 <= end <= segments.len(),
    ensures
        is_longest_zero_run_before(segments, end, found.0, found.1),
        is_zero_run_ending(segments, end, found.2),
    decreases end,
{
    if end == 0 {
        (0, 0, 0)
    } else {
        let (best_start, best_len, run_len) = lemma_longest_zero_run_before_exists(
            segments,
            end - 1,
        );
        lemma_longest_zero_run_step(segments, end - 1, best_start, best_len, run_len);
        let extended = extended_zero_run(segments, end - 1, run_len);
        if extended > best_len {
            (end - extended, extended, extended)
        } else {
            (best_start, best_len, extended)
        }
    }
}

/// Every sequence of segments has a leftmost longest run of zero segments.
pub proof fn lemma_longest_zero_run_exists(segments: Seq<u16>)
    ensures
        exists|start: int, len: int| is_longest_zero_run(segments, start, len),
{
    let found = lemma_longest_zero_run_before_exists(segments, segments.len() as int);
    assert(is_longest_zero_run(segments, found.0, found.1));
}

/// The address stands for an IPv4 address: five zero segments, then `ffff`.
pub open spec fn is_ipv4_mapped(segments: Seq<u16>) -> bool {
    &&& segments.len() == 8
    &&& segments[0] == 0
    &&& segments[1] == 0
    &&& segments[2] == 0
    &&& segments[3] == 0
    &&& segments[4] == 0
    &&& segments[5] == 0xffff
}

/// An IPv6 address in its usual short notation.
///
/// An address that stands for an IPv4 address is written as `::ffff:` and
/// that address in dotted decimal. Any other address is written as its
/// segments in hexadecimal; where two or more neighbouring segments are
/// zero, the leftmost longest run of them is left out and marked by `::`.
pub open spec fn ipv6_text(segments: Seq<u16>) -> Seq<char> {
    if is_ipv4_mapped(segments) {
        seq![':', ':', 'f', 'f', 'f', 'f', ':'] + ipv4_text(
            (segments[6] / 256) as u8,
            (segments[6] % 256) as u8,
            (segments[7] / 256) as u8,
            (segments[7] % 256) as u8,
        )
    } else {
        let (start, len) = choose|start: int, len: int| is_longest_zero_run(segments, start, len);
        if len > 1 {
            colon_hex(segments.subrange(0, start)) + seq![':', ':'] + colon_hex(
                segments.subrange(start + len, segments.len() as int),
            )
        } else {
            colon_hex(segments)
        }
    }
}

/// There is only one leftmost longest run of zero segments.
pub proof fn lemma_longest_zero_run_is_unique(
    segments: Seq<u16>,
    start: int,
    len: int,
    other_start: int,
    other_len: int,
)
    requires
        is_longest_zero_run(segments, start, len),
        is_longest_zero_run(segments, other_start, other_len),
    ensures
        start == other_start,
        len == other_len,
{
}

/// An IPv6 address: eight segments of sixteen bits, the most significant first.
#[derive(Clone, Copy, Debug, PartialEq, Eq)]
pub struct Ipv6Address {
    pub segments: [u16; 8],
}

impl Ipv6Address {
    /// The address `a:b:c:d:e:f:g:h`.
    pub fn new(a: u16, b: u16, c: u16, d: u16, e: u16, f: u16, g: u16, h: u16) -> (address:
        Ipv6Address)
        ensures
            address.segments@ == seq![a, b, c, d, e, f, g, h],
    {
        Ipv6Address { segments: [a, b, c, d, e, f, g, h] }
    }

    /// The eight segments.
    pub fn segments(&self) -> (segments: [u16; 8])
        ensures
            segments == self.segments,
    {
        self.segments
    }

    /// The address in its usual short notation.
    pub open spec fn text(&self) -> Seq<char> {
        ipv6_text(self.segments@)
    }

    /// Finds the leftmost longest run of zero segments: where it starts and
    /// how long it is.
    fn longest_zero_run(&self) -> (run: (usize, usize))
        ensures
            is_longest_zero_run(self.segments@, run.0 as int, run.1 as int),
    {
        let mut best_start: usize = 0;
        let mut best_len: usize = 0;
        let mut run_len: usize = 0;
        let mut i: usize = 0;
        while i < 8
            invariant
                i <= 8,
                run_len <= i,
                is_longest_zero_run_before(
                    self.segments@,
                    i as int,
                    best_start as int,
                    best_len as int,
                ),
                is_zero_run_ending(self.segments@, i as int, run_len as int),
            decreases 8 - i,
        {
            proof {
                lemma_longest_zero_run_step(
                    self.segments@,
                    i as int,
                    best_start as int,
                    best_len as int,
                    run_len as int,
                );
            }
            if self.segments[i] == 0 {
                run_len += 1;
                if run_len > best_len {
                    best_start = i + 1 - run_len;
                    best_len = run_len;
                }
            } else {
                run_len = 0;
            }
            i += 1;
        }
        (best_start, best_len)
    }

    /// Writes the segments from `from` up to `to` in hexadecimal, with a
    /// colon between neighbours.
    fn colon_hex_text(&self, from: usize, to: usize) -> (text: String)
        requires
            from <= to <= 8,
        ensures
            text@ == colon_hex(self.segments@.subrange(from as int, to as int)),
    {
        let mut text = String::new();
        let mut i: usize = from;
        while i < to
            invariant
                from <= i <= to <= 8,
                text@ == colon_hex(self.segments@.subrange(from as int, i as int)),
            decreases to - i,
        {
            let ghost before = text@;
            if i > from {
                proof {
                    reveal_strlit(":");
                }
                text.append(":");
            }
            text.append(hexadecimal_text(self.segments[i] as u128).as_str());
            i += 1;
            proof {
                let written = self.segments@.subrange(from as int, i as int);
                let segment = hexadecimal(self.segments@[i - 1] as nat);
                assert(written.drop_last() =~= self.segments@.subrange(from as int, i - 1));
                assert(written.last() == self.segments@[i - 1]);
                if written.len() == 1 {
                    assert(before =~= Seq::<char>::empty());
                    assert(text@ =~= segment);
                } else {
                    assert(text@ =~= before + seq![':'] + segment);
                }
            }
        }
        text
    }
}

impl Render for Ipv6Address {
    /// Renders the address in its usual short notation.
    fn render(&self) -> (text: String)
        ensures
            text@ == self.text(),
    {
        let s = &self.segments;
        if s[0] == 0 && s[1] == 0 && s[2] == 0 && s[3] == 0 && s[4] == 0 && s[5] == 0xffff {
            proof {
                reveal_strlit("::ffff:");
            }
            let mapped = Ipv4Address::new(
                (s[6] / 256) as u8,
                (s[6] % 256) as u8,
                (s[7] / 256) as u8,
                (s[7] % 256) as u8,
            );
            let mut text = String::from_str("::ffff:");
            text.append(mapped.render().as_str());
            assert(text@ =~= self.text());
            text
        } else {
            let (start, len) = self.longest_zero_run();
            proof {
                let (chosen_start, chosen_len) = choose|start: int, len: int|
                    is_longest_zero_run(self.segments@, start, len);
                lemma_longest_zero_run_is_unique(
                    self.segments@,
                    start as int,
                    len as int,
                    chosen_start,
                    chosen_len,
                );
            }
            if len > 1 {
                proof {
                    reveal_strlit("::");
                }
                let mut text = self.colon_hex_text(0, start);
                text.append("::");
                text.append(self.colon_hex_text(start + len, 8).as_str());
                assert(text@ =~= self.text());
                text
            } else {
                let text = self.colon_hex_text(0, 8);
                assert(self.segments@.subrange(0, 8) =~= self.segments@);
                text
            }
        }
    }
}

/// An IPv6 address has no redaction rule of its own.
impl Redactable for Ipv6Address {
}

/// One segment or more, written with colons between them, start with a
/// hexadecimal digit.
proof fn lemma_colon_hex_starts_with_digit(segments: Seq<u16>)
    requires
        segments.len() >= 1,
    ensures
        colon_hex(segments).len() >= 1,
        is_hexadecimal_digit(colon_hex(segments)[0]),
    decreases segments.len(),
{
    if segments.len() == 1 {
        lemma_hexadecimal_notation(segments[0] as nat);
    } else {
        lemma_colon_hex_starts_with_digit(segments.drop_last());
    }
}

/// The text of an IPv6 address starts with a hexadecimal digit or a colon.
pub proof fn lemma_ipv6_text_start(address: Ipv6Address)
    ensures
        address.text().len() >= 1,
        is_hexadecimal_digit(address.text()[0]) || address.text()[0] == ':',
{
    let segments = address.segments@;
    if !is_ipv4_mapped(segments) {
        lemma_longest_zero_run_exists(segments);
        let (start, len) = choose|start: int, len: int| is_longest_zero_run(segments, start, len);
        if len > 1 {
            if start > 0 {
                lemma_colon_hex_starts_with_digit(segments.subrange(0, start));
            }
        } else {
            lemma_colon_hex_starts_with_digit(segments);
        }
    }
}

/// IPv6 addresses keep the generic rule: every redaction of one is the mask.
pub proof fn lemma_ipv6_keeps_generic_rule()
    ensures
        keeps_generic_rule::<Ipv6Address>(),
{
}

/// An IPv6 address is never redacted to its own rendering.
pub proof fn lemma_ipv6_redaction_differs_from_text(address: Ipv6Address)
    ensures
        mask() != address.text(),
{
    lemma_ipv6_text_start(address);
    assert(mask()[0] == '*');
}

} // verus!
