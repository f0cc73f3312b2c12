use vstd::prelude::*;
use vstd::slice::slice_subrange;
use crate::error::Error;

verus! {

// Byte values of the characters a mode literal may hold.
pub const CH_SPACE: u8 = 0x20;
pub const CH_DASH: u8 = 0x2D;
pub const CH_UNDERSCORE: u8 = 0x5F;
pub const CH_R: u8 = 0x72;
pub const CH_W: u8 = 0x77;
pub const CH_X: u8 = 0x78;
pub const CH_S: u8 = 0x53;
pub const CH_T: u8 = 0x54;

// Permission-mode bit groups: a read/write/execute triplet per domain at bit
// offsets 6, 3 and 0, and the three top bits above them.
pub const MODE_NONE: u32 = 0;
pub const MODE_USER: u32 = 0o700;
pub const MODE_GROUP: u32 = 0o070;
pub const MODE_OTHER: u32 = 0o007;
pub const MODE_READ: u32 = 0b100;
pub const MODE_WRITE: u32 = 0b010;
pub const MODE_EXEC: u32 = 0b001;
pub const MODE_SETUID: u32 = 0o4000;
pub const MODE_SETGID: u32 = 0o2000;
pub const MODE_RESTRICTED: u32 = 0o1000;

/// A file access mode: permission triplets for owner, group and other, plus
/// the set-owner-id, set-group-id and restricted-deletion bits.
#[derive(Clone, Copy, Debug, PartialEq, Eq, Structural)]
pub struct Mode(pub u32);

/// One position of a permission triplet: the expected letter means the bit is
/// set, a dash or underscore means it is clear, and any other character is a
/// parse failure.
pub open spec fn spec_mode_bit(c: u8, expected: u8) -> Option<u32> {
    if c == expected {
        Some(1u32)
    } else if c == CH_DASH || c == CH_UNDERSCORE {
        Some(0u32)
    } else {
        None
    }
}

/// One permission triplet of a mode literal: three letters for read, write
/// and execute placed at the domain's bit offset, and an optional fourth
/// letter for the domain's top bit.
pub open spec fn spec_parse_triplet(s: Seq<u8>, shift: u32, topbit: u32, top: u8) -> Option<u32> {
    if s.len() != 3 && s.len() != 4 {
        None
    } else {
        match (spec_mode_bit(s[0], CH_R), spec_mode_bit(s[1], CH_W), spec_mode_bit(s[2], CH_X)) {
            (Some(r), Some(w), Some(x)) => {
                let t = if s.len() == 4 {
                    spec_mode_bit(s[3], top)
                } else {
                    Some(0u32)
                };
                match t {
                    Some(tb) => Some(
                        (((r << 2) | (w << 1) | x) << shift) | (if tb == 1 {
                            topbit
                        } else {
                            0
                        }),
                    ),
                    None => None,
                }
            },
            _ => None,
        }
    }
}

/// A whole mode from its three triplets: owner, group and other, with the
/// set-owner-id, set-group-id and restricted-deletion letters in the fourth
/// positions.
pub open spec fn spec_parse_mode_parts(u: Seq<u8>, g: Seq<u8>, o: Seq<u8>) -> Option<u32> {
    match (
        spec_parse_triplet(u, 6, MODE_SETUID, CH_S),
        spec_parse_triplet(g, 3, MODE_SETGID, CH_S),
        spec_parse_triplet(o, 0, MODE_RESTRICTED, CH_T),
    ) {
        (Some(a), Some(b), Some(c)) => Some(a | b | c),
        _ => None,
    }
}

/// The first position at or after `from` holding a space, or the sequence's
/// length when there is none.
pub open spec fn spec_first_space(s: Seq<u8>, from: int) -> int
    decreases s.len() - from,
{
    if from < 0 || from >= s.len() {
        s.len() as int
    } else if s[from] == CH_SPACE {
        from
    } else {
        spec_first_space(s, from + 1)
    }
}

/// A whole mode literal: exactly three space-separated triplets.
pub open spec fn spec_parse_mode_literal(s: Seq<u8>) -> Option<u32> {
    let i = spec_first_space(s, 0);
    let j = spec_first_space(s, i + 1);
    let k = spec_first_space(s, j + 1);
    if i < s.len() && j < s.len() && k == s.len() {
        spec_parse_mode_parts(
            s.subrange(0, i),
            s.subrange(i + 1, j),
            s.subrange(j + 1, s.len() as int),
        )
    } else {
        None
    }
}

/// One rendered permission triplet: the three letters of the domain's
/// read, write and execute bits, with a dash for a clear bit, and the
/// domain's top letter appended exactly when the top bit is set.
pub open spec fn spec_render_triplet(m: u32, shift: u32, topbit: u32, top: u8) -> Seq<u8> {
    let base = seq![
        if (m >> shift) & 4 != 0 {
            CH_R
        } else {
            CH_DASH
        },
        if (m >> shift) & 2 != 0 {
            CH_W
        } else {
            CH_DASH
        },
        if (m >> shift) & 1 != 0 {
            CH_X
        } else {
            CH_DASH
        },
    ];
    if m & topbit != 0 {
        base.push(top)
    } else {
        base
    }
}

/// A whole rendered mode literal: the three triplets, space-separated, in
/// the shape the parser reads back.
pub open spec fn spec_render_mode(m: u32) -> Seq<u8> {
    spec_render_triplet(m, 6, MODE_SETUID, CH_S) + seq![CH_SPACE] + spec_render_triplet(
        m,
        3,
        MODE_SETGID,
        CH_S,
    ) + seq![CH_SPACE] + spec_render_triplet(m, 0, MODE_RESTRICTED, CH_T)
}

proof fn lemma_render_triplet_shape(m: u32, shift: u32, topbit: u32, top: u8)
    requires
        top == CH_S || top == CH_T,
    ensures
        3 <= spec_render_triplet(m, shift, topbit, top).len() <= 4,
        forall|i: int|
            0 <= i < spec_render_triplet(m, shift, topbit, top).len() ==> spec_render_triplet(
                m,
                shift,
                topbit,
                top,
            )[i] != CH_SPACE,
{
}

/// A rendered triplet parses back to exactly the bits it rendered: the
/// domain's three permission bits at their offset, and its top bit.
proof fn lemma_triplet_round_trip(m: u32, shift: u32, topbit: u32, top: u8)
    requires
        top == CH_S || top == CH_T,
        shift == 0 || shift == 3 || shift == 6,
    ensures
        spec_parse_triplet(spec_render_triplet(m, shift, topbit, top), shift, topbit, top)
            == Some((((m >> shift) & 7) << shift) | (if m & topbit != 0 {
            topbit
        } else {
            0u32
        })),
{
    let s = spec_render_triplet(m, shift, topbit, top);
    let r: u32 = if (m >> shift) & 4 != 0 {
        1
    } else {
        0
    };
    let w: u32 = if (m >> shift) & 2 != 0 {
        1
    } else {
        0
    };
    let x: u32 = if (m >> shift) & 1 != 0 {
        1
    } else {
        0
    };
    assert(((r << 2) | (w << 1) | x) == ((m >> shift) & 7)) by (bit_vector)
        requires
            r == (if (m >> shift) & 4 != 0 {
                1u32
            } else {
                0u32
            }),
            w == (if (m >> shift) & 2 != 0 {
                1u32
            } else {
                0u32
            }),
            x == (if (m >> shift) & 1 != 0 {
                1u32
            } else {
                0u32
            }),
    ;
}

/// Rendering a mode and parsing the literal back yields the mode's twelve
/// permission and top bits unchanged.
pub proof fn lemma_mode_render_round_trip(m: u32)
    requires
        m <= 0o7777,
    ensures
        spec_parse_mode_literal(spec_render_mode(m)) == Some(m),
{
    let t1 = spec_render_triplet(m, 6, MODE_SETUID, CH_S);
    let t2 = spec_render_triplet(m, 3, MODE_SETGID, CH_S);
    let t3 = spec_render_triplet(m, 0, MODE_RESTRICTED, CH_T);
    let s = spec_render_mode(m);
    lemma_render_triplet_shape(m, 6, MODE_SETUID, CH_S);
    lemma_render_triplet_shape(m, 3, MODE_SETGID, CH_S);
    lemma_render_triplet_shape(m, 0, MODE_RESTRICTED, CH_T);
    let i = t1.len() as int;
    let j = i + 1 + t2.len() as int;
    assert(s.len() == j + 1 + t3.len());
    assert(s[i] == CH_SPACE);
    assert(s[j] == CH_SPACE);
    assert forall|p: int| 0 <= p < i implies s[p] != CH_SPACE by {
        assert(s[p] == t1[p]);
    }
    assert forall|p: int| i + 1 <= p < j implies s[p] != CH_SPACE by {
        assert(s[p] == t2[p - (i + 1)]);
    }
    assert forall|p: int| j + 1 <= p < s.len() implies s[p] != CH_SPACE by {
        assert(s[p] == t3[p - (j + 1)]);
    }
    lemma_first_space_characterize(s, 0, i);
    lemma_first_space_characterize(s, i + 1, j);
    lemma_first_space_characterize(s, j + 1, s.len() as int);
    assert(s.subrange(0, i) =~= t1);
    assert(s.subrange(i + 1, j) =~= t2);
    assert(s.subrange(j + 1, s.len() as int) =~= t3);
    lemma_triplet_round_trip(m, 6, MODE_SETUID, CH_S);
    lemma_triplet_round_trip(m, 3, MODE_SETGID, CH_S);
    lemma_triplet_round_trip(m, 0, MODE_RESTRICTED, CH_T);
    let a = (((m >> 6) & 7) << 6) | (if m & MODE_SETUID != 0 {
        MODE_SETUID
    } else {
        0u32
    });
    let b = (((m >> 3) & 7) << 3) | (if m & MODE_SETGID != 0 {
        MODE_SETGID
    } else {
        0u32
    });
    let c = (((m >> 0) & 7) << 0) | (if m & MODE_RESTRICTED != 0 {
        MODE_RESTRICTED
    } else {
        0u32
    });
    assert(a | b | c == m) by (bit_vector)
        requires
            m <= 0o7777,
            a == ((((m >> 6) & 7) << 6) | (if m & 0o4000 != 0 {
                0o4000u32
            } else {
                0u32
            })),
            b == ((((m >> 3) & 7) << 3) | (if m & 0o2000 != 0 {
                0o2000u32
            } else {
                0u32
            })),
            c == ((((m >> 0) & 7) << 0) | (if m & 0o1000 != 0 {
                0o1000u32
            } else {
                0u32
            })),
    ;
}

/// A triplet holding, at any position, a character outside that position's
/// allowed set fails to parse: the first three positions take only their
/// own letter or a clear mark, and the optional fourth only the domain's
/// top letter or a clear mark.
pub proof fn lemma_triplet_rejects_foreign(s: Seq<u8>, shift: u32, topbit: u32, top: u8, i: int)
    requires
        s.len() == 3 || s.len() == 4,
        0 <= i < s.len(),
        i == 0 ==> s[i] != CH_R,
        i == 1 ==> s[i] != CH_W,
        i == 2 ==> s[i] != CH_X,
        i == 3 ==> s[i] != top,
        s[i] != CH_DASH && s[i] != CH_UNDERSCORE,
    ensures
        spec_parse_triplet(s, shift, topbit, top) is None,
{
}

proof fn lemma_first_space_characterize(s: Seq<u8>, from: int, i: int)
    requires
        0 <= from <= i <= s.len(),
        forall|k: int| from <= k < i ==> s[k] != CH_SPACE,
        i == s.len() || s[i] == CH_SPACE,
    ensures
        spec_first_space(s, from) == i,
    decreases i - from,
{
    if from < i {
        lemma_first_space_characterize(s, from + 1, i);
    }
}

/// The first position at or after `from` holding a space, or the length when
/// there is none.
fn first_space(s: &[u8], from: usize) -> (r: usize)
    requires
        from <= s@.len(),
    ensures
        r == spec_first_space(s@, from as int),
        from <= r <= s@.len(),
        r < s@.len() ==> s@[r as int] == CH_SPACE,
{
    let n = s.len();
    let mut i = from;
    while i < n && *vstd::slice::slice_index_get(s, i) != CH_SPACE
        invariant
            from <= i <= n,
            n == s@.len(),
            forall|k: int| from <= k < i ==> s@[k] != CH_SPACE,
        decreases n - i,
    {
        i += 1;
    }
    proof {
        lemma_first_space_characterize(s@, from as int, i as int);
    }
    i
}

fn mode_bit(c: u8, expected: u8) -> (r: Result<u32, Error>)
    ensures
        (match spec_mode_bit(c, expected) {
            Some(v) => r == Ok::<u32, Error>(v),
            None => r == Err::<u32, Error>(Error::EINVAL),
        }),
{
    if c == expected {
        Ok(1)
    } else if c == CH_DASH || c == CH_UNDERSCORE {
        Ok(0)
    } else {
        Err(Error::EINVAL)
    }
}

fn parse_triplet(s: &[u8], shift: u32, topbit: u32, top: u8) -> (r: Result<u32, Error>)
    requires
        shift <= 6,
    ensures
        (match spec_parse_triplet(s@, shift, topbit, top) {
            Some(v) => r == Ok::<u32, Error>(v),
            None => r == Err::<u32, Error>(Error::EINVAL),
        }),
{
    let n = s.len();
    if n != 3 && n != 4 {
        return Err(Error::EINVAL);
    }
    let rb = match mode_bit(*vstd::slice::slice_index_get(s, 0), CH_R) {
        Ok(v) => v,
        Err(e) => {
            return Err(e);
        },
    };
    let wb = match mode_bit(*vstd::slice::slice_index_get(s, 1), CH_W) {
        Ok(v) => v,
        Err(e) => {
            return Err(e);
        },
    };
    let xb = match mode_bit(*vstd::slice::slice_index_get(s, 2), CH_X) {
        Ok(v) => v,
        Err(e) => {
            return Err(e);
        },
    };
    let tb = if n == 4 {
        match mode_bit(*vstd::slice::slice_index_get(s, 3), top) {
            Ok(v) => v,
            Err(e) => {
                return Err(e);
            },
        }
    } else {
        0
    };
    proof {
        assert(rb <= 1 && wb <= 1 && xb <= 1);
        assert(((rb << 2) | (wb << 1) | xb) <= 7 && (7u32 << 6) < 0x1_0000) by (bit_vector)
            requires
                rb <= 1 && wb <= 1 && xb <= 1,
        ;
    }
    Ok((((rb << 2) | (wb << 1) | xb) << shift) | (if tb == 1 {
        topbit
    } else {
        0
    }))
}

fn render_triplet_into(out: &mut Vec<u8>, m: u32, shift: u32, topbit: u32, top: u8)
    requires
        shift < 32,
    ensures
        final(out)@ == old(out)@ + spec_render_triplet(m, shift, topbit, top),
{
    out.push(
        if (m >> shift) & 4 != 0 {
            CH_R
        } else {
            CH_DASH
        },
    );
    out.push(
        if (m >> shift) & 2 != 0 {
            CH_W
        } else {
            CH_DASH
        },
    );
    out.push(
        if (m >> shift) & 1 != 0 {
            CH_X
        } else {
            CH_DASH
        },
    );
    if m & topbit != 0 {
        out.push(top);
    }
    proof {
        assert(out@ =~= old(out)@ + spec_render_triplet(m, shift, topbit, top));
    }
}

impl Mode {
    /// Returns true if any of the given bits are set.
    pub fn any(self, bits: Mode) -> (r: bool)
        ensures
            r == (self.0 & bits.0 != 0),
    {
        self.0 & bits.0 != 0
    }

    /// Returns true if all of the given bits are set.
    pub fn all(self, bits: Mode) -> (r: bool)
        ensures
            r == (self.0 & bits.0 == bits.0),
    {
        self.0 & bits.0 == bits.0
    }

    /// The bitwise AND of the two modes.
    pub fn intersect(self, rhs: Mode) -> (r: Mode)
        ensures
            r.0 == self.0 & rhs.0,
    {
        Mode(self.0 & rhs.0)
    }

    /// The bitwise OR of the two modes.
    pub fn union(self, rhs: Mode) -> (r: Mode)
        ensures
            r.0 == self.0 | rhs.0,
    {
        Mode(self.0 | rhs.0)
    }

    /// The bitwise XOR of the two modes.
    pub fn toggle(self, rhs: Mode) -> (r: Mode)
        ensures
            r.0 == self.0 ^ rhs.0,
    {
        Mode(self.0 ^ rhs.0)
    }

    /// The bitwise NOT of the mode.
    pub fn complement(self) -> (r: Mode)
        ensures
            r.0 == !self.0,
    {
        Mode(!self.0)
    }

    /// The mode shifted left.
    pub fn shl(self, rhs: u32) -> (r: Mode)
        requires
            rhs < 32,
        ensures
            r.0 == self.0 << rhs,
    {
        Mode(self.0 << rhs)
    }

    /// The mode shifted right.
    pub fn shr(self, rhs: u32) -> (r: Mode)
        requires
            rhs < 32,
        ensures
            r.0 == self.0 >> rhs,
    {
        Mode(self.0 >> rhs)
    }

    /// Render the mode's permission and top bits as the literal the
    /// parser reads back; bits beyond the twelve rendered ones are not
    /// shown.
    pub fn render(&self) -> (r: Vec<u8>)
        ensures
            r@ == spec_render_mode(self.0),
    {
        let mut out: Vec<u8> = Vec::new();
        render_triplet_into(&mut out, self.0, 6, MODE_SETUID, CH_S);
        out.push(CH_SPACE);
        render_triplet_into(&mut out, self.0, 3, MODE_SETGID, CH_S);
        out.push(CH_SPACE);
        render_triplet_into(&mut out, self.0, 0, MODE_RESTRICTED, CH_T);
        proof {
            assert(out@ =~= spec_render_mode(self.0));
        }
        out
    }

    /// Parse a mode from its three permission triplets, given separately.
    pub fn parse_parts(user: &[u8], group: &[u8], other: &[u8]) -> (r: Result<Mode, Error>)
        ensures
            (match spec_parse_mode_parts(user@, group@, other@) {
                Some(m) => r == Ok::<Mode, Error>(Mode(m)),
                None => r == Err::<Mode, Error>(Error::EINVAL),
            }),
    {
        let a = match parse_triplet(user, 6, MODE_SETUID, CH_S) {
            Ok(v) => v,
            Err(e) => {
                return Err(e);
            },
        };
        let b = match parse_triplet(group, 3, MODE_SETGID, CH_S) {
            Ok(v) => v,
            Err(e) => {
                return Err(e);
            },
        };
        let c = match parse_triplet(other, 0, MODE_RESTRICTED, CH_T) {
            Ok(v) => v,
            Err(e) => {
                return Err(e);
            },
        };
        Ok(Mode(a | b | c))
    }

    /// Parse a mode literal of exactly three space-separated triplets, in the
    /// shape a long directory listing shows.
    pub fn parse(literal: &[u8]) -> (r: Result<Mode, Error>)
        ensures
            (match spec_parse_mode_literal(literal@) {
                Some(m) => r == Ok::<Mode, Error>(Mode(m)),
                None => r == Err::<Mode, Error>(Error::EINVAL),
            }),
    {
        let n = literal.len();
        let i = first_space(literal, 0);
        if i == n {
            return Err(Error::EINVAL);
        }
        let j = first_space(literal, i + 1);
        if j == n {
            return Err(Error::EINVAL);
        }
        let k = first_space(literal, j + 1);
        if k != n {
            return Err(Error::EINVAL);
        }
        let user = slice_subrange(literal, 0, i);
        let group = slice_subrange(literal, i + 1, j);
        let other = slice_subrange(literal, j + 1, n);
        Mode::parse_parts(user, group, other)
    }
}

} // verus!
