//! Textual IP addresses, as std's `IpAddr` parser reads them: an IPv4 dotted
//! quad of decimal octets without leading zeros, or an IPv6 address of up to
//! eight hexadecimal groups, with at most one `::` standing for one or more
//! zero groups and an optional dotted quad in place of the last two groups.

use vstd::prelude::*;

use crate::text::chars_of;

verus! {

pub open spec fn is_dec_digit(c: char) -> bool {
    '0' <= c && c <= '9'
}

pub open spec fn is_hex_digit(c: char) -> bool {
    is_dec_digit(c) || ('a' <= c && c <= 'f') || ('A' <= c && c <= 'F')
}

pub open spec fn digit_value(c: char) -> int {
    if is_dec_digit(c) {
        c as int - '0' as int
    } else if 'a' <= c && c <= 'f' {
        c as int - 'a' as int + 10
    } else {
        c as int - 'A' as int + 10
    }
}

/// Value of a string of decimal digits.
pub open spec fn dec_value(s: Seq<char>) -> int
    decreases s.len(),
{
    if s.len() == 0 {
        0
    } else {
        dec_value(s.drop_last()) * 10 + digit_value(s.last())
    }
}

/// Value of a string of hexadecimal digits.
pub open spec fn hex_value(s: Seq<char>) -> int
    decreases s.len(),
{
    if s.len() == 0 {
        0
    } else {
        hex_value(s.drop_last()) * 16 + digit_value(s.last())
    }
}

/// The pieces of `s` between occurrences of `sep`; always at least one piece.
pub open spec fn split(s: Seq<char>, sep: char) -> Seq<Seq<char>>
    decreases s.len(),
{
    if s.len() == 0 {
        seq![Seq::empty()]
    } else {
        let r = split(s.drop_last(), sep);
        if s.last() == sep {
            r.push(Seq::empty())
        } else {
            r.update(r.len() - 1, r.last().push(s.last()))
        }
    }
}

/// A decimal octet: one to three digits, no leading zero, at most 255.
pub open spec fn ipv4_octet(p: Seq<char>) -> Option<u8> {
    if 1 <= p.len() <= 3 && (forall|i: int| 0 <= i < p.len() ==> is_dec_digit(#[trigger] p[i]))
        && !(p.len() > 1 && p[0] == '0') && dec_value(p) <= 255 {
        Some(dec_value(p) as u8)
    } else {
        None
    }
}

/// The four octets of a dotted quad.
pub open spec fn ipv4_octets(s: Seq<char>) -> Option<Seq<u8>> {
    let parts = split(s, '.');
    if parts.len() == 4 && (forall|i: int| 0 <= i < 4 ==> (#[trigger] ipv4_octet(parts[i])) is Some) {
        Some(Seq::new(4, |i: int| ipv4_octet(parts[i])->0))
    } else {
        None
    }
}

/// A hexadecimal group: one to four hexadecimal digits.
pub open spec fn hex_group(p: Seq<char>) -> Option<u16> {
    if 1 <= p.len() <= 4 && (forall|i: int| 0 <= i < p.len() ==> is_hex_digit(#[trigger] p[i])) {
        Some(hex_value(p) as u16)
    } else {
        None
    }
}

/// The two groups that a dotted quad stands for.
pub open spec fn quad_groups(o: Seq<u8>) -> Seq<u16> {
    seq![(o[0] as int * 256 + o[1] as int) as u16, (o[2] as int * 256 + o[3] as int) as u16]
}

/// The groups of colon-separated text without `::`; the empty text has none.
/// Where `allow_quad` holds, the last piece may be a dotted quad, standing for
/// two groups.
pub open spec fn ipv6_groups(s: Seq<char>, allow_quad: bool) -> Option<Seq<u16>> {
    if s.len() == 0 {
        Some(Seq::empty())
    } else {
        let parts = split(s, ':');
        let n = parts.len();
        if forall|i: int| 0 <= i < n - 1 ==> (#[trigger] hex_group(parts[i])) is Some {
            let head = Seq::new((n - 1) as nat, |i: int| hex_group(parts[i])->0);
            match hex_group(parts[n - 1]) {
                Some(g) => Some(head.push(g)),
                None => if allow_quad && ipv4_octets(parts[n - 1]) is Some {
                    Some(head + quad_groups(ipv4_octets(parts[n - 1])->0))
                } else {
                    None
                },
            }
        } else {
            None
        }
    }
}

/// Position of the first `::` at or after `i`.
pub open spec fn find_double_colon(s: Seq<char>, i: int) -> Option<int>
    decreases s.len() - i,
{
    if i < 0 || i + 1 >= s.len() {
        None
    } else if s[i] == ':' && s[i + 1] == ':' {
        Some(i)
    } else {
        find_double_colon(s, i + 1)
    }
}

/// The eight groups of an IPv6 address.
pub open spec fn ipv6_of(s: Seq<char>) -> Option<Seq<u16>> {
    match find_double_colon(s, 0) {
        None => match ipv6_groups(s, true) {
            Some(g) => if g.len() == 8 {
                Some(g)
            } else {
                None
            },
            None => None,
        },
        Some(p) => {
            let head = ipv6_groups(s.take(p), false);
            let tail = ipv6_groups(s.skip(p + 2), true);
            if head is Some && tail is Some && head->0.len() + tail->0.len() <= 7 {
                let h = head->0;
                let t = tail->0;
                Some(h + Seq::new((8 - h.len() - t.len()) as nat, |i: int| 0u16) + t)
            } else {
                None
            }
        },
    }
}

/// An IP address, version 4 or 6.
#[derive(Debug, Clone, Copy, PartialEq, Eq)]
pub enum IpAddress {
    V4([u8; 4]),
    V6([u16; 8]),
}

/// An IP address as its octets or its groups.
pub enum IpAddressView {
    V4(Seq<u8>),
    V6(Seq<u16>),
}

impl View for IpAddress {
    type V = IpAddressView;

    open spec fn view(&self) -> IpAddressView {
        match self {
            IpAddress::V4(o) => IpAddressView::V4(o@),
            IpAddress::V6(g) => IpAddressView::V6(g@),
        }
    }
}

/// The address that a text stands for: a dotted quad first, else IPv6.
pub open spec fn ip_of(s: Seq<char>) -> Option<IpAddressView> {
    match ipv4_octets(s) {
        Some(o) => Some(IpAddressView::V4(o)),
        None => match ipv6_of(s) {
            Some(g) => Some(IpAddressView::V6(g)),
            None => None,
        },
    }
}

proof fn lemma_split_nonempty(s: Seq<char>, sep: char)
    ensures
        split(s, sep).len() >= 1,
    decreases s.len(),
{
    if s.len() > 0 {
        lemma_split_nonempty(s.drop_last(), sep);
    }
}

/// The pieces of `s` between occurrences of `sep`.
fn split_chars(s: &Vec<char>, sep: char) -> (r: Vec<Vec<char>>)
    ensures
        r.deep_view() == split(s@, sep),
{
    let mut parts: Vec<Vec<char>> = Vec::new();
    let mut cur: Vec<char> = Vec::new();
    let mut i: usize = 0;
    assert(s@.take(0) =~= Seq::<char>::empty());
    assert(cur.deep_view() =~= Seq::<char>::empty());
    assert(parts.deep_view() =~= Seq::<Seq<char>>::empty());
    assert(parts.deep_view().push(cur.deep_view()) =~= split(s@.take(0), sep));
    while i < s.len()
        invariant
            i <= s.len(),
            parts.deep_view().push(cur.deep_view()) == split(s@.take(i as int), sep),
        decreases s.len() - i,
    {
        let c = s[i];
        let ghost before = parts.deep_view();
        let ghost cur_before = cur.deep_view();
        assert(s@.take(i + 1).drop_last() =~= s@.take(i as int));
        assert(s@.take(i + 1).last() == c);
        if c == sep {
            parts.push(cur);
            cur = Vec::new();
            assert(cur.deep_view() =~= Seq::<char>::empty());
            assert(parts.deep_view() =~= before.push(cur_before));
            assert(parts.deep_view().push(cur.deep_view()) =~= before.push(cur_before).push(
                Seq::empty(),
            ));
        } else {
            cur.push(c);
            assert(cur.deep_view() =~= cur_before.push(c));
            assert(parts.deep_view().push(cur.deep_view()) =~= before.push(cur_before).update(
                before.len() as int,
                cur_before.push(c),
            ));
        }
        i = i + 1;
    }
    assert(s@.take(i as int) =~= s@);
    let ghost before = parts.deep_view();
    let ghost cur_view = cur.deep_view();
    parts.push(cur);
    assert(parts.deep_view() =~= before.push(cur_view));
    parts
}

fn decimal_octet(p: &Vec<char>) -> (r: Option<u8>)
    ensures
        r == ipv4_octet(p@),
{
    if p.len() < 1 || p.len() > 3 {
        return None;
    }
    if p.len() > 1 && p[0] == '0' {
        return None;
    }
    let mut v: u32 = 0;
    let mut i: usize = 0;
    while i < p.len()
        invariant
            1 <= p.len() <= 3,
            i <= p.len(),
            forall|j: int| 0 <= j < i ==> is_dec_digit(#[trigger] p@[j]),
            v == dec_value(p@.take(i as int)),
            v < pow10(i as nat),
        decreases p.len() - i,
    {
        let c = p[i];
        if !('0' <= c && c <= '9') {
            return None;
        }
        assert(p@.take(i + 1).drop_last() =~= p@.take(i as int));
        assert(pow10((i + 1) as nat) == 10 * pow10(i as nat));
        assert(pow10(i as nat) <= 100) by {
            assert(pow10(0) == 1);
            assert(pow10(1) == 10);
            assert(pow10(2) == 100);
        }
        v = v * 10 + (c as u32 - '0' as u32);
        i = i + 1;
    }
    assert(p@.take(i as int) =~= p@);
    if v > 255 {
        return None;
    }
    Some(v as u8)
}

spec fn pow10(n: nat) -> int
    decreases n,
{
    if n == 0 {
        1
    } else {
        10 * pow10((n - 1) as nat)
    }
}

fn hex_group_of(p: &Vec<char>) -> (r: Option<u16>)
    ensures
        r == hex_group(p@),
{
    if p.len() < 1 || p.len() > 4 {
        return None;
    }
    let mut v: u32 = 0;
    let mut i: usize = 0;
    while i < p.len()
        invariant
            1 <= p.len() <= 4,
            i <= p.len(),
            forall|j: int| 0 <= j < i ==> is_hex_digit(#[trigger] p@[j]),
            v == hex_value(p@.take(i as int)),
            v < pow16(i as nat),
        decreases p.len() - i,
    {
        let c = p[i];
        let d: u32 = if '0' <= c && c <= '9' {
            c as u32 - '0' as u32
        } else if 'a' <= c && c <= 'f' {
            c as u32 - 'a' as u32 + 10
        } else if 'A' <= c && c <= 'F' {
            c as u32 - 'A' as u32 + 10
        } else {
            return None;
        };
        assert(p@.take(i + 1).drop_last() =~= p@.take(i as int));
        assert(pow16((i + 1) as nat) == 16 * pow16(i as nat));
        assert(pow16(i as nat) <= 4096) by {
            assert(pow16(0) == 1);
            assert(pow16(1) == 16);
            assert(pow16(2) == 256);
            assert(pow16(3) == 4096);
        }
        v = v * 16 + d;
        i = i + 1;
    }
    assert(p@.take(i as int) =~= p@);
    Some(v as u16)
}

spec fn pow16(n: nat) -> int
    decreases n,
{
    if n == 0 {
        1
    } else {
        16 * pow16((n - 1) as nat)
    }
}

proof fn lemma_find_double_colon_bounds(s: Seq<char>, i: int)
    ensures
        find_double_colon(s, i) matches Some(p) ==> i <= p && p + 1 < s.len() && s[p] == ':' && s[p
            + 1] == ':',
    decreases s.len() - i,
{
    if i >= 0 && i + 1 < s.len() && !(s[i] == ':' && s[i + 1] == ':') {
        lemma_find_double_colon_bounds(s, i + 1);
    }
}

fn four_octets(a: u8, b: u8, c: u8, d: u8) -> (r: [u8; 4])
    ensures
        r@ == seq![a, b, c, d],
{
    let r = [a, b, c, d];
    assert(r@ =~= seq![a, b, c, d]);
    r
}

fn eight_groups(v: &Vec<u16>) -> (r: [u16; 8])
    requires
        v.len() == 8,
    ensures
        r@ == v@,
{
    let r = [v[0], v[1], v[2], v[3], v[4], v[5], v[6], v[7]];
    assert(r@ =~= v@);
    r
}

fn parse_ipv4(s: &Vec<char>) -> (r: Option<[u8; 4]>)
    ensures
        match r {
            Some(o) => ipv4_octets(s@) == Some(o@),
            None => ipv4_octets(s@) is None,
        },
{
    let parts = split_chars(s, '.');
    let ghost pv = split(s@, '.');
    assert(parts.deep_view().len() == parts@.len());
    if parts.len() != 4 {
        return None;
    }
    proof {
        assert forall|i: int| 0 <= i < 4 implies #[trigger] pv[i] == parts@[i]@ by {
            assert(parts@[i].deep_view() =~= parts@[i]@);
        }
    }
    let a = match decimal_octet(&parts[0]) {
        Some(x) => x,
        None => {
            assert(ipv4_octet(pv[0]) is None);
            return None;
        },
    };
    let b = match decimal_octet(&parts[1]) {
        Some(x) => x,
        None => {
            assert(ipv4_octet(pv[1]) is None);
            return None;
        },
    };
    let c = match decimal_octet(&parts[2]) {
        Some(x) => x,
        None => {
            assert(ipv4_octet(pv[2]) is None);
            return None;
        },
    };
    let d = match decimal_octet(&parts[3]) {
        Some(x) => x,
        None => {
            assert(ipv4_octet(pv[3]) is None);
            return None;
        },
    };
    let r = four_octets(a, b, c, d);
    proof {
        assert(forall|i: int| 0 <= i < 4 ==> (#[trigger] ipv4_octet(pv[i])) is Some);
        assert(r@ =~= Seq::new(4, |i: int| ipv4_octet(pv[i])->0));
    }
    Some(r)
}

fn parse_groups(s: &Vec<char>, allow_quad: bool) -> (r: Option<Vec<u16>>)
    ensures
        match r {
            Some(g) => ipv6_groups(s@, allow_quad) == Some(g@),
            None => ipv6_groups(s@, allow_quad) is None,
        },
{
    if s.len() == 0 {
        let out: Vec<u16> = Vec::new();
        assert(out@ =~= Seq::<u16>::empty());
        return Some(out);
    }
    let parts = split_chars(s, ':');
    let ghost pv = split(s@, ':');
    proof {
        lemma_split_nonempty(s@, ':');
        assert forall|i: int| 0 <= i < pv.len() implies #[trigger] pv[i] == parts@[i]@ by {
            assert(parts@[i].deep_view() =~= parts@[i]@);
        }
    }
    let n = parts.len();
    let mut out: Vec<u16> = Vec::new();
    let mut i: usize = 0;
    while i < n - 1
        invariant
            n == parts.len() == pv.len() >= 1,
            s@.len() != 0,
            pv == split(s@, ':'),
            forall|j: int| 0 <= j < pv.len() ==> #[trigger] pv[j] == parts@[j]@,
            i <= n - 1,
            forall|j: int| 0 <= j < i ==> (#[trigger] hex_group(pv[j])) is Some,
            out@ =~= Seq::new(i as nat, |j: int| hex_group(pv[j])->0),
        decreases n - 1 - i,
    {
        match hex_group_of(&parts[i]) {
            Some(g) => {
                out.push(g);
            },
            None => {
                assert(hex_group(pv[i as int]) is None);
                assert(!(forall|j: int| 0 <= j < pv.len() - 1 ==> (#[trigger] hex_group(pv[j])) is Some));
                return None;
            },
        }
        i = i + 1;
    }
    assert(forall|j: int| 0 <= j < n - 1 ==> (#[trigger] hex_group(pv[j])) is Some);
    match hex_group_of(&parts[n - 1]) {
        Some(g) => {
            out.push(g);
            Some(out)
        },
        None => {
            if allow_quad {
                match parse_ipv4(&parts[n - 1]) {
                    Some(o) => {
                        let ghost head = out@;
                        let hi: u16 = o[0] as u16 * 256 + o[1] as u16;
                        let lo: u16 = o[2] as u16 * 256 + o[3] as u16;
                        out.push(hi);
                        out.push(lo);
                        assert(out@ =~= head + quad_groups(o@));
                        Some(out)
                    },
                    None => None,
                }
            } else {
                None
            }
        },
    }
}

fn find_double_colon_in(s: &Vec<char>) -> (r: Option<usize>)
    ensures
        match r {
            Some(p) => find_double_colon(s@, 0) == Some(p as int),
            None => find_double_colon(s@, 0) is None,
        },
{
    let mut i: usize = 0;
    while s.len() > 1 && i < s.len() - 1
        invariant
            i <= s.len(),
            find_double_colon(s@, 0) == find_double_colon(s@, i as int),
        decreases s.len() - i,
    {
        if s[i] == ':' && s[i + 1] == ':' {
            return Some(i);
        }
        i = i + 1;
    }
    None
}

fn sub_chars(s: &Vec<char>, lo: usize, hi: usize) -> (r: Vec<char>)
    requires
        lo <= hi <= s.len(),
    ensures
        r@ == s@.subrange(lo as int, hi as int),
{
    let mut out: Vec<char> = Vec::new();
    let mut i = lo;
    while i < hi
        invariant
            lo <= i <= hi <= s.len(),
            out@ =~= s@.subrange(lo as int, i as int),
        decreases hi - i,
    {
        out.push(s[i]);
        i = i + 1;
    }
    out
}

fn parse_ipv6(s: &Vec<char>) -> (r: Option<[u16; 8]>)
    ensures
        match r {
            Some(g) => ipv6_of(s@) == Some(g@),
            None => ipv6_of(s@) is None,
        },
{
    match find_double_colon_in(s) {
        None => match parse_groups(s, true) {
            Some(g) => if g.len() == 8 {
                Some(eight_groups(&g))
            } else {
                None
            },
            None => None,
        },
        Some(p) => {
            proof {
                lemma_find_double_colon_bounds(s@, 0);
            }
            let head_text = sub_chars(s, 0, p);
            assert(find_double_colon(s@, 0) == Some(p as int));
            let len = s.len();
            assert(p + 1 < len);
            let tail_text = sub_chars(s, p + 2, len);
            assert(head_text@ =~= s@.take(p as int));
            assert(tail_text@ =~= s@.skip(p + 2));
            let h = match parse_groups(&head_text, false) {
                Some(g) => g,
                None => return None,
            };
            let t = match parse_groups(&tail_text, true) {
                Some(g) => g,
                None => return None,
            };
            if h.len() > 7 || t.len() > 7 || h.len() + t.len() > 7 {
                return None;
            }
            let zeros = 8 - h.len() - t.len();
            let mut all = h;
            let mut k: usize = 0;
            while k < zeros
                invariant
                    k <= zeros,
                    all@ =~= h@ + Seq::new(k as nat, |i: int| 0u16),
                decreases zeros - k,
            {
                all.push(0);
                k = k + 1;
            }
            let mut j: usize = 0;
            while j < t.len()
                invariant
                    j <= t.len(),
                    all@ =~= h@ + Seq::new(zeros as nat, |i: int| 0u16) + t@.take(j as int),
                decreases t.len() - j,
            {
                all.push(t[j]);
                assert(t@.take(j + 1) =~= t@.take(j as int).push(t@[j as int]));
                j = j + 1;
            }
            assert(t@.take(j as int) =~= t@);
            Some(eight_groups(&all))
        },
    }
}

impl IpAddress {
    /// Reads an IP address from text: a dotted quad, or else an IPv6 address.
    pub fn parse(text: &str) -> (r: Option<IpAddress>)
        ensures
            match r {
                Some(a) => ip_of(text@) == Some(a@),
                None => ip_of(text@) is None,
            },
    {
        let chars = chars_of(text);
        match parse_ipv4(&chars) {
            Some(o) => Some(IpAddress::V4(o)),
            None => match parse_ipv6(&chars) {
                Some(g) => Some(IpAddress::V6(g)),
                None => None,
            },
        }
    }
}

} // verus!
