//! Percent-encoding of URI parts and builders for `path?query` strings.

use vstd::prelude::*;
use vstd::string::StringSliceAdditionalSpecFns;

verus! {

/// RFC 3986 unreserved characters: `A-Z a-z 0-9 - _ . ~`.
pub open spec fn is_unreserved_byte(b: u8) -> bool {
    ||| 0x41 <= b <= 0x5a
    ||| 0x61 <= b <= 0x7a
    ||| 0x30 <= b <= 0x39
    ||| b == 0x2d
    ||| b == 0x5f
    ||| b == 0x2e
    ||| b == 0x7e
}

/// Upper-case hexadecimal digit of a nibble.
pub open spec fn hex_digit(d: u8) -> u8 {
    if d < 10 {
        (0x30 + d) as u8
    } else {
        (0x41 + d - 10) as u8
    }
}

/// Whether a byte is copied unchanged. Path mode (`omit_slash`) also keeps `/`.
pub open spec fn is_kept(b: u8, omit_slash: bool) -> bool {
    is_unreserved_byte(b) || (b == 0x2f && omit_slash)
}

/// The one or three bytes that stand for `b` in the encoded text.
pub open spec fn encode_byte(b: u8, omit_slash: bool) -> Seq<u8> {
    if is_kept(b, omit_slash) {
        seq![b]
    } else {
        seq![0x25u8, hex_digit(b / 16), hex_digit(b % 16)]
    }
}

/// Percent-encoding of a byte string.
pub open spec fn encode(s: Seq<u8>, omit_slash: bool) -> Seq<u8>
    decreases s.len(),
{
    if s.len() == 0 {
        Seq::empty()
    } else {
        encode_byte(s[0], omit_slash) + encode(s.drop_first(), omit_slash)
    }
}

pub const UNRESERVED_LOW: u64 = 0x3FF600000000000;

pub const UNRESERVED_HIGH: u64 = 0x47FFFFFE87FFFFFE;

pub enum UriEncodingIteratorState {
    Null,
    C2(u8, u8),
    C1(u8),
}

/// Bytes of the state that are still to be handed out before the next source byte.
pub open spec fn pending(s: UriEncodingIteratorState) -> Seq<u8> {
    match s {
        UriEncodingIteratorState::Null => Seq::empty(),
        UriEncodingIteratorState::C2(b0, b1) => seq![b0, b1],
        UriEncodingIteratorState::C1(b) => seq![b],
    }
}

/// Hands out the percent-encoding of a byte string one byte at a time.
pub struct UriEncodingIterator<'s> {
    s: UriEncodingIteratorState,
    i: &'s [u8],
    pos: usize,
    omit_slash: bool,
}

impl<'s> UriEncodingIterator<'s> {
    #[verifier::type_invariant]
    spec fn inv(self) -> bool {
        self.pos <= self.i@.len()
    }

    /// The bytes that `next` has yet to hand out, in order.
    pub closed spec fn remaining(self) -> Seq<u8> {
        pending(self.s) + encode(self.i@.subrange(self.pos as int, self.i@.len() as int), self.omit_slash)
    }

    pub fn is_unreserved(ch: u8) -> (r: bool)
        ensures
            r == is_unreserved_byte(ch),
    {
        if ch < 64 {
            let w: u64 = ch as u64;
            assert(((UNRESERVED_LOW >> w) & 1 != 0) == ((0x30 <= w && w <= 0x39) || w == 0x2d || w == 0x2e)) by (bit_vector)
                requires
                    w < 64,
                    UNRESERVED_LOW == 0x3FF600000000000u64,
            ;
            (UNRESERVED_LOW >> w) & 1 != 0
        } else if ch < 128 {
            let w: u64 = (ch - 64) as u64;
            assert(((UNRESERVED_HIGH >> w) & 1 != 0) == ((1 <= w && w <= 26) || (33 <= w && w <= 58) || w == 31 || w == 62)) by (bit_vector)
                requires
                    w < 64,
                    UNRESERVED_HIGH == 0x47FFFFFE87FFFFFEu64,
            ;
            (UNRESERVED_HIGH >> w) & 1 != 0
        } else {
            false
        }
    }

    pub fn hex_from_digit(d: u8) -> (r: u8)
        requires
            d < 16,
        ensures
            r == hex_digit(d),
    {
        if d < 10 {
            0x30 + d
        } else {
            0x41 + d - 10
        }
    }

    pub fn new(i: &'s [u8], omit_slash: bool) -> (r: Self)
        ensures
            r.remaining() == encode(i@, omit_slash),
    {
        let r = Self { i, pos: 0, s: UriEncodingIteratorState::Null, omit_slash };
        assert(i@.subrange(0, i@.len() as int) =~= i@);
        r
    }

    /// Hands out the next byte of the encoded text, or `None` once it is exhausted.
    pub fn next(&mut self) -> (r: Option<u8>)
        ensures
            old(self).remaining().len() == 0 ==> r is None
                && final(self).remaining() == old(self).remaining(),
            old(self).remaining().len() > 0 ==> r == Some(old(self).remaining()[0])
                && final(self).remaining() == old(self).remaining().drop_first(),
    {
        proof {
            use_type_invariant(&*self);
        }
        let ghost rest = self.i@.subrange(self.pos as int, self.i@.len() as int);
        match self.s {
            UriEncodingIteratorState::C2(b0, b1) => {
                self.s = UriEncodingIteratorState::C1(b1);
                assert(final(self).remaining() =~= old(self).remaining().drop_first());
                Some(b0)
            },
            UriEncodingIteratorState::C1(b) => {
                self.s = UriEncodingIteratorState::Null;
                assert(final(self).remaining() =~= old(self).remaining().drop_first());
                Some(b)
            },
            UriEncodingIteratorState::Null => {
                if self.pos < self.i.len() {
                    let b = self.i[self.pos];
                    self.pos = self.pos + 1;
                    let ghost tail = self.i@.subrange(self.pos as int, self.i@.len() as int);
                    assert(rest.drop_first() =~= tail);
                    assert(rest[0] == b);
                    if !Self::is_unreserved(b) && !(b == 0x2f && self.omit_slash) {
                        assert(b >> 4 == b / 16 && b & 0x0f == b % 16) by (bit_vector);
                        self.s = UriEncodingIteratorState::C2(
                            Self::hex_from_digit(b >> 4),
                            Self::hex_from_digit(b & 0x0f),
                        );
                        assert(final(self).remaining() =~= old(self).remaining().drop_first());
                        Some(0x25)
                    } else {
                        assert(final(self).remaining() =~= old(self).remaining().drop_first());
                        Some(b)
                    }
                } else {
                    None
                }
            },
        }
    }

    /// Drains the iterator into a vector.
    pub fn collect(self) -> (r: Vec<u8>)
        ensures
            r@ == self.remaining(),
    {
        let mut out: Vec<u8> = Vec::new();
        extend_encoded(&mut out, self);
        assert(Seq::<u8>::empty() + self.remaining() =~= self.remaining());
        out
    }
}

/// Appends everything the iterator still holds to `buf`.
pub fn extend_encoded(buf: &mut Vec<u8>, it: UriEncodingIterator<'_>)
    ensures
        final(buf)@ == old(buf)@ + it.remaining(),
{
    let mut it = it;
    let ghost all = it.remaining();
    loop
        invariant
            old(buf)@ + all == buf@ + it.remaining(),
        ensures
            old(buf)@ + all == buf@ + it.remaining(),
            it.remaining().len() == 0,
        decreases it.remaining().len(),
    {
        let ghost before = it.remaining();
        match it.next() {
            Some(b) => {
                buf.push(b);
                assert(buf@ + it.remaining() =~= old(buf)@ + all) by {
                    assert(before =~= seq![b] + it.remaining());
                }
            },
            None => {
                break ;
            },
        }
    }
    assert(buf@ + it.remaining() =~= buf@);
}

/// Iterator over the percent-encoding of `arg`; `omit_slash` leaves `/` as it is.
pub fn uri_part_encoder_iter(arg: &str, omit_slash: bool) -> (r: UriEncodingIterator<'_>)
    ensures
        r.remaining() == encode(arg.spec_bytes(), omit_slash),
{
    UriEncodingIterator::new(arg.as_bytes(), omit_slash)
}

/// Value of a hexadecimal digit, in either case.
pub open spec fn hex_value(c: u8) -> int {
    if 0x30 <= c <= 0x39 {
        c - 0x30
    } else if 0x41 <= c <= 0x46 {
        c - 0x41 + 10
    } else {
        c - 0x61 + 10
    }
}

pub open spec fn is_hex_digit(c: u8) -> bool {
    0x30 <= c <= 0x39 || 0x41 <= c <= 0x46 || 0x61 <= c <= 0x66
}

/// Percent-decoding: every `%XY` with two hexadecimal digits becomes one byte,
/// every other byte stands for itself.
pub open spec fn decode(s: Seq<u8>) -> Seq<u8>
    decreases s.len(),
{
    if s.len() == 0 {
        Seq::empty()
    } else if s[0] == 0x25 && s.len() >= 3 && is_hex_digit(s[1]) && is_hex_digit(s[2]) {
        seq![(hex_value(s[1]) * 16 + hex_value(s[2])) as u8] + decode(s.subrange(3, s.len() as int))
    } else {
        seq![s[0]] + decode(s.drop_first())
    }
}

/// Decoding undoes encoding, in path mode and in query mode alike.
pub proof fn lemma_decode_encode(s: Seq<u8>, omit_slash: bool)
    ensures
        decode(encode(s, omit_slash)) == s,
    decreases s.len(),
{
    if s.len() > 0 {
        let b = s[0];
        let rest = s.drop_first();
        let tail = encode(rest, omit_slash);
        let e = encode(s, omit_slash);
        lemma_decode_encode(rest, omit_slash);
        if is_kept(b, omit_slash) {
            assert(e =~= seq![b] + tail);
            assert(e.drop_first() =~= tail);
            assert(decode(e) =~= seq![b] + decode(tail));
        } else {
            let h1 = hex_digit(b / 16);
            let h2 = hex_digit(b % 16);
            assert(e =~= seq![0x25u8, h1, h2] + tail);
            assert(e.subrange(3, e.len() as int) =~= tail);
            assert(hex_value(h1) * 16 + hex_value(h2) == b);
            assert(decode(e) =~= seq![b] + decode(tail));
        }
        assert(seq![b] + rest =~= s);
    }
}

/// Decimal digits of a natural number, most significant first.
pub open spec fn decimal_nat(n: nat) -> Seq<u8>
    decreases n,
{
    if n < 10 {
        seq![(0x30 + n) as u8]
    } else {
        decimal_nat(n / 10).push((0x30 + n % 10) as u8)
    }
}

/// Decimal text of an integer, with a leading `-` when it is negative.
pub open spec fn decimal_int(v: int) -> Seq<u8> {
    if v < 0 {
        seq![0x2du8] + decimal_nat((-v) as nat)
    } else {
        decimal_nat(v as nat)
    }
}

/// Appends the decimal digits of `n`.
pub fn push_decimal_u64(buf: &mut Vec<u8>, n: u64)
    ensures
        final(buf)@ == old(buf)@ + decimal_nat(n as nat),
    decreases n,
{
    if n >= 10 {
        push_decimal_u64(buf, n / 10);
    }
    let d: u8 = (n % 10) as u8;
    buf.push(0x30 + d);
    assert(buf@ =~= old(buf)@ + decimal_nat(n as nat));
}

/// Appends the decimal text of `v`.
pub fn push_decimal_i64(buf: &mut Vec<u8>, v: i64)
    ensures
        final(buf)@ == old(buf)@ + decimal_int(v as int),
{
    if v < 0 {
        buf.push(0x2d);
        let m: u64 = ((-(v + 1)) as u64) + 1;
        push_decimal_u64(buf, m);
        assert(buf@ =~= old(buf)@ + decimal_int(v as int));
    } else {
        push_decimal_u64(buf, v as u64);
    }
}

/// The three octal digits of the low nine bits of `v`.
pub open spec fn octal3(v: u16) -> Seq<u8> {
    seq![
        (0x30 + (v / 64) % 8) as u8,
        (0x30 + (v / 8) % 8) as u8,
        (0x30 + v % 8) as u8,
    ]
}

pub open spec fn bool_text(v: bool) -> Seq<u8> {
    if v {
        seq![0x74u8, 0x72, 0x75, 0x65]
    } else {
        seq![0x66u8, 0x61, 0x6c, 0x73, 0x65]
    }
}

/// `?` before the first parameter, `&` before every later one.
pub open spec fn separator(qm_added: bool) -> Seq<u8> {
    if qm_added {
        seq![0x26u8]
    } else {
        seq![0x3fu8]
    }
}

/// `sep key =`, the key percent-encoded in query mode.
pub open spec fn param_head(qm_added: bool, p: Seq<u8>) -> Seq<u8> {
    separator(qm_added) + encode(p, false) + seq![0x3du8]
}

/// Accumulates `path?k=v&k=v...`.
pub struct QueryEncoder {
    path_and_query: Vec<u8>,
    qm_added: bool,
}

impl QueryEncoder {
    /// The text accumulated so far.
    pub closed spec fn bytes(self) -> Seq<u8> {
        self.path_and_query@
    }

    /// Whether `?` has been emitted.
    pub closed spec fn qm_added(self) -> bool {
        self.qm_added
    }

    fn pfx(&mut self)
        ensures
            final(self).path_and_query@ == old(self).path_and_query@ + separator(old(self).qm_added),
            final(self).qm_added,
    {
        if !self.qm_added {
            self.qm_added = true;
            self.path_and_query.push(0x3f);
        } else {
            self.path_and_query.push(0x26);
        }
        assert(self.path_and_query@ =~= old(self).path_and_query@ + separator(old(self).qm_added));
    }

    fn head(&mut self, p: &str)
        ensures
            final(self).path_and_query@ == old(self).path_and_query@ + param_head(
                old(self).qm_added,
                p.spec_bytes(),
            ),
            final(self).qm_added,
    {
        self.pfx();
        extend_encoded(&mut self.path_and_query, uri_part_encoder_iter(p, false));
        self.path_and_query.push(0x3d);
        assert(self.path_and_query@ =~= old(self).path_and_query@ + param_head(
            old(self).qm_added,
            p.spec_bytes(),
        ));
    }

    /// Adds `p=v`, both percent-encoded in query mode.
    pub fn add_pv(self, p: &str, v: &str) -> (r: QueryEncoder)
        ensures
            r.bytes() == self.bytes() + param_head(self.qm_added(), p.spec_bytes()) + encode(
                v.spec_bytes(),
                false,
            ),
            r.qm_added(),
    {
        let mut q = self;
        q.head(p);
        extend_encoded(&mut q.path_and_query, uri_part_encoder_iter(v, false));
        q
    }

    /// Adds `p=v` with `v` in decimal.
    pub fn add_pi(self, p: &str, v: i64) -> (r: QueryEncoder)
        ensures
            r.bytes() == self.bytes() + param_head(self.qm_added(), p.spec_bytes()) + decimal_int(
                v as int,
            ),
            r.qm_added(),
    {
        let mut q = self;
        q.head(p);
        push_decimal_i64(&mut q.path_and_query, v);
        q
    }

    /// Adds `p=true` or `p=false`.
    pub fn add_pb(self, p: &str, v: bool) -> (r: QueryEncoder)
        ensures
            r.bytes() == self.bytes() + param_head(self.qm_added(), p.spec_bytes()) + bool_text(v),
            r.qm_added(),
    {
        let mut q = self;
        q.head(p);
        let ghost before = q.path_and_query@;
        if v {
            q.path_and_query.push(0x74);
            q.path_and_query.push(0x72);
            q.path_and_query.push(0x75);
            q.path_and_query.push(0x65);
        } else {
            q.path_and_query.push(0x66);
            q.path_and_query.push(0x61);
            q.path_and_query.push(0x6c);
            q.path_and_query.push(0x73);
            q.path_and_query.push(0x65);
        }
        assert(q.path_and_query@ =~= before + bool_text(v));
        q
    }

    /// Adds `p=` and three octal digits (HDFS permissions).
    pub fn add_po(self, p: &str, v: u16) -> (r: QueryEncoder)
        ensures
            r.bytes() == self.bytes() + param_head(self.qm_added(), p.spec_bytes()) + octal3(v),
            r.qm_added(),
    {
        let mut q = self;
        q.head(p);
        let ghost before = q.path_and_query@;
        let d2: u16 = (v & 0o0700) >> 6;
        let d1: u16 = (v & 0o0070) >> 3;
        let d0: u16 = v & 0o0007;
        assert(d2 == (v / 64) % 8 && d1 == (v / 8) % 8 && d0 == v % 8) by (bit_vector)
            requires
                d2 == (v & 0o0700) >> 6,
                d1 == (v & 0o0070) >> 3,
                d0 == v & 0o0007,
        ;
        q.path_and_query.push(0x30 + d2 as u8);
        q.path_and_query.push(0x30 + d1 as u8);
        q.path_and_query.push(0x30 + d0 as u8);
        assert(q.path_and_query@ =~= before + octal3(v));
        q
    }

    pub fn result(self) -> (r: Vec<u8>)
        ensures
            r@ == self.bytes(),
    {
        self.path_and_query
    }

    /// The text accumulated so far.
    pub fn as_bytes(&self) -> (r: &[u8])
        ensures
            r@ == self.bytes(),
    {
        self.path_and_query.as_slice()
    }

    /// The accumulated text, followed by `#` and the encoded fragment unless `f` is empty.
    pub fn result_with_fragment(self, f: &str) -> (r: Vec<u8>)
        ensures
            r@ == self.bytes() + if f@.len() == 0 {
                Seq::<u8>::empty()
            } else {
                seq![0x23u8] + encode(f.spec_bytes(), false)
            },
    {
        let mut q = self;
        if !f.is_empty() {
            q.path_and_query.push(0x23);
            extend_encoded(&mut q.path_and_query, uri_part_encoder_iter(f, false));
            assert(q.path_and_query@ =~= self.bytes() + (seq![0x23u8] + encode(f.spec_bytes(), false)));
        } else {
            assert(q.path_and_query@ =~= self.bytes() + Seq::<u8>::empty());
        }
        q.path_and_query
    }
}

/// `acc` extended by the path segment `seg`: one `/` between them, never two,
/// and `seg` percent-encoded in path mode.
pub open spec fn join_path(acc: Seq<u8>, seg: Seq<u8>) -> Seq<u8> {
    if acc.len() > 0 && seg.len() > 0 && acc.last() == 0x2f && seg[0] == 0x2f {
        acc.drop_last() + encode(seg, true)
    } else if acc.len() > 0 && seg.len() > 0 && acc.last() != 0x2f && seg[0] != 0x2f {
        acc.push(0x2f) + encode(seg, true)
    } else {
        acc + encode(seg, true)
    }
}

/// A path without the `/` at its end, if it has one.
pub open spec fn without_trailing_slash(acc: Seq<u8>) -> Seq<u8> {
    if acc.len() > 0 && acc.last() == 0x2f {
        acc.drop_last()
    } else {
        acc
    }
}

/// A segment without the `/` at its start, if it has one.
pub open spec fn without_leading_slash(seg: Seq<u8>) -> Seq<u8> {
    if seg.len() > 0 && seg[0] == 0x2f {
        seg.drop_first()
    } else {
        seg
    }
}

/// Where a path and a segment meet there is exactly one `/`, whether the
/// path ends with one, the segment starts with one, both or neither.
pub proof fn lemma_join_single_slash(acc: Seq<u8>, seg: Seq<u8>)
    requires
        acc.len() > 0,
        seg.len() > 0,
    ensures
        join_path(acc, seg) == without_trailing_slash(acc) + seq![0x2fu8] + encode(
            without_leading_slash(seg),
            true,
        ),
{
    let r = without_trailing_slash(acc) + seq![0x2fu8] + encode(without_leading_slash(seg), true);
    if seg[0] == 0x2f {
        assert(encode(seg, true) =~= seq![0x2fu8] + encode(seg.drop_first(), true));
    }
    if acc.last() == 0x2f {
        assert(acc =~= acc.drop_last() + seq![0x2fu8]);
    }
    assert(join_path(acc, seg) =~= r);
}

/// Accumulates a percent-encoded path.
pub struct PathEncoder {
    path_and_query: Vec<u8>,
}

impl PathEncoder {
    /// The path accumulated so far.
    pub closed spec fn bytes(self) -> Seq<u8> {
        self.path_and_query@
    }

    pub fn empty() -> (r: Self)
        ensures
            r.bytes() == Seq::<u8>::empty(),
    {
        PathEncoder { path_and_query: Vec::new() }
    }

    /// Appends a segment, normalising the `/` at the joint.
    pub fn extend(self, path_seg: &str) -> (r: Self)
        ensures
            r.bytes() == join_path(self.bytes(), path_seg.spec_bytes()),
    {
        let mut e = self;
        let seg = path_seg.as_bytes();
        let n = e.path_and_query.len();
        if n > 0 && seg.len() > 0 {
            let c1 = e.path_and_query[n - 1];
            let c2 = seg[0];
            if c1 == 0x2f && c2 == 0x2f {
                e.path_and_query.pop();
            } else if c1 != 0x2f && c2 != 0x2f {
                e.path_and_query.push(0x2f);
            }
        }
        extend_encoded(&mut e.path_and_query, uri_part_encoder_iter(path_seg, true));
        e
    }

    pub fn new(base_path: &str) -> (r: Self)
        ensures
            r.bytes() == join_path(Seq::<u8>::empty(), base_path.spec_bytes()),
    {
        Self::empty().extend(base_path)
    }

    /// The path accumulated so far.
    pub fn as_bytes(&self) -> (r: &[u8])
        ensures
            r@ == self.bytes(),
    {
        self.path_and_query.as_slice()
    }

    /// Starts the query part after the path.
    pub fn query(self) -> (r: QueryEncoder)
        ensures
            r.bytes() == self.bytes(),
            !r.qm_added(),
    {
        QueryEncoder { path_and_query: self.path_and_query, qm_added: false }
    }

    pub fn result(self) -> (r: Vec<u8>)
        ensures
            r@ == self.bytes(),
    {
        self.path_and_query
    }
}

} // verus!
