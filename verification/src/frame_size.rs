//! Frame dimensions.
use vstd::prelude::*;

use crate::pipeline::FrameState;
use crate::text::chars_of;

verus! {

/// The width and height of a frame, in pixels.
#[derive(Clone, Copy, Debug, PartialEq, Eq, Structural)]
pub struct FrameSize {
    pub width: u32,
    pub height: u32,
}

/// Whether `c` is an ASCII digit.
pub open spec fn is_digit(c: char) -> bool {
    '0' <= c <= '9'
}

/// The value of an ASCII digit.
pub open spec fn digit_value(c: char) -> nat {
    (c as u32 - '0' as u32) as nat
}

/// The value of a non-empty run of ASCII digits.
pub open spec fn decimal_value(s: Seq<char>) -> Option<nat>
    decreases s.len(),
{
    if s.len() == 0 || !is_digit(s.last()) {
        None
    } else if s.len() == 1 {
        Some(digit_value(s[0]))
    } else {
        match decimal_value(s.drop_last()) {
            Some(v) => Some(v * 10 + digit_value(s.last())),
            None => None,
        }
    }
}

/// The value of a run of digits when it fits in 32 bits.
pub open spec fn u32_value(s: Seq<char>) -> Option<u32> {
    match decimal_value(s) {
        Some(v) => if v <= u32::MAX {
            Some(v as u32)
        } else {
            None
        },
        None => None,
    }
}

/// The index of the first `c` in `s`, or `s.len()`.
pub open spec fn first_index(s: Seq<char>, c: char) -> nat
    decreases s.len(),
{
    if s.len() == 0 {
        0
    } else if s[0] == c {
        0
    } else {
        1 + first_index(s.drop_first(), c)
    }
}

/// The two numbers of a ratio written `num:den`.
pub open spec fn ratio_parts(s: Seq<char>) -> Option<(u32, u32)> {
    let k = first_index(s, ':') as int;
    if k >= s.len() {
        None
    } else {
        match (u32_value(s.subrange(0, k)), u32_value(s.subrange(k + 1, s.len() as int))) {
            (Some(n), Some(d)) => Some((n, d)),
            _ => None,
        }
    }
}

proof fn lemma_decimal_value_grows(s: Seq<char>, k: int)
    requires
        0 < k <= s.len(),
        decimal_value(s.take(k)) is Some,
        decimal_value(s) is Some,
    ensures
        decimal_value(s.take(k)).unwrap() <= decimal_value(s).unwrap(),
    decreases s.len(),
{
    if k < s.len() {
        assert(s.drop_last().take(k) =~= s.take(k));
        lemma_decimal_value_grows(s.drop_last(), k);
    } else {
        assert(s.take(k) =~= s);
    }
}

proof fn lemma_decimal_prefix_is_some(s: Seq<char>, k: int)
    requires
        0 < k <= s.len(),
        decimal_value(s) is Some,
    ensures
        decimal_value(s.take(k)) is Some,
    decreases s.len(),
{
    if k < s.len() {
        assert(s.drop_last().take(k) =~= s.take(k));
        lemma_decimal_prefix_is_some(s.drop_last(), k);
    } else {
        assert(s.take(k) =~= s);
    }
}

/// The number written in `s[a..b]`, when it is a run of digits that fits
/// in 32 bits.
pub fn parse_u32(s: &Vec<char>, a: usize, b: usize) -> (res: Option<u32>)
    requires
        a <= b <= s@.len(),
    ensures
        res == u32_value(s@.subrange(a as int, b as int)),
{
    let ghost t = s@.subrange(a as int, b as int);
    if a == b {
        return None;
    }
    let mut v: u64 = 0;
    let mut i: usize = a;
    while i < b
        invariant
            a <= i <= b <= s@.len(),
            t == s@.subrange(a as int, b as int),
            v <= u32::MAX,
            i > a ==> decimal_value(t.take(i - a)) == Some(v as nat),
            i == a ==> v == 0,
            forall|j: int| a <= j < i ==> is_digit(s@[j]),
        decreases b - i,
    {
        let c = s[i];
        if !('0' <= c && c <= '9') {
            proof {
                if decimal_value(t) is Some {
                    lemma_decimal_prefix_is_some(t, i - a + 1);
                    assert(t.take(i - a + 1).last() == c);
                }
            }
            return None;
        }
        let d = (c as u32 - '0' as u32) as u64;
        let next = v * 10 + d;
        proof {
            let u = t.take(i - a + 1);
            assert(u.drop_last() =~= t.take(i - a));
            assert(u.last() == c);
            assert(is_digit(c));
            assert(digit_value(c) == d as nat);
            if i == a {
                assert(u.len() == 1);
                assert(u[0] == c);
                assert(decimal_value(u) == Some(d as nat));
            } else {
                assert(u.len() > 1);
                assert(decimal_value(u.drop_last()) == Some(v as nat));
                assert(decimal_value(u) == Some((v * 10 + d) as nat));
            }
        }
        if next > 0xffff_ffff {
            proof {
                assert(decimal_value(t.take(i - a + 1)) == Some(next as nat));
                if decimal_value(t) is Some {
                    lemma_decimal_value_grows(t, i - a + 1);
                }
            }
            return None;
        }
        v = next;
        i = i + 1;
    }
    assert(t.take(b - a) =~= t);
    Some(v as u32)
}

/// The numbers of a `num:den` ratio.
pub fn parse_ratio(text: &str) -> (res: Option<(u32, u32)>)
    ensures
        res == ratio_parts(text@),
{
    let s = chars_of(text);
    let n = s.len();
    let mut k: usize = 0;
    assert(s@.subrange(0, n as int) =~= s@);
    while k < n && s[k] != ':'
        invariant
            n == s@.len(),
            0 <= k <= n,
            first_index(s@, ':') == k + first_index(s@.subrange(k as int, n as int), ':'),
        decreases n - k,
    {
        assert(s@.subrange(k as int, n as int).drop_first() =~= s@.subrange(k + 1, n as int));
        k = k + 1;
    }
    proof {
        if k == n {
            assert(s@.subrange(k as int, n as int).len() == 0);
        }
    }
    if k >= n {
        return None;
    }
    match (parse_u32(&s, 0, k), parse_u32(&s, k + 1, n)) {
        (Some(num), Some(den)) => Some((num, den)),
        _ => None,
    }
}

/// The frame's display size: its pixel size stretched by its sample aspect
/// ratio when it is anamorphic with a known, non-zero ratio.
pub open spec fn display_size(state: FrameState) -> (nat, nat) {
    let w = state.size.width as nat;
    let h = state.size.height as nat;
    if state.is_anamorphic && state.sample_aspect_ratio is Some {
        match ratio_parts(state.sample_aspect_ratio.unwrap()@) {
            Some((num, den)) => if num > 0 && den > 0 {
                if num > den {
                    (w * (num as nat) / (den as nat), h)
                } else {
                    (w, h * (den as nat) / (num as nat))
                }
            } else {
                (w, h)
            },
            None => (w, h),
        }
    } else {
        (w, h)
    }
}

/// The largest even size within `target` with the aspect ratio of
/// `source` (each side rounded down); `target` itself when the source has
/// no area.
pub open spec fn fitted_size(target: FrameSize, source: (nat, nat)) -> FrameSize {
    let (sw, sh) = source;
    let tw = target.width as nat;
    let th = target.height as nat;
    if sw == 0 || sh == 0 {
        target
    } else if tw * sh <= th * sw {
        let h = th_of(tw, sw, sh);
        FrameSize { width: (tw - tw % 2) as u32, height: (h - h % 2) as u32 }
    } else {
        let w = th_of(th, sh, sw);
        FrameSize { width: (w - w % 2) as u32, height: (th - th % 2) as u32 }
    }
}

/// `a * c / b`, rounded down.
pub open spec fn th_of(a: nat, b: nat, c: nat) -> nat {
    a * c / b
}

impl FrameSize {
    /// The largest even size within this one that keeps the display aspect
    /// ratio of the frames described by `state`.
    pub fn square_pixel_size(&self, state: &FrameState) -> (res: FrameSize)
        ensures
            res == fitted_size(*self, display_size(*state)),
    {
        let w = state.size.width as u128;
        let h = state.size.height as u128;
        let mut sw: u128 = w;
        let mut sh: u128 = h;
        assert(0xffff_ffff * 0xffff_ffff <= 0xffff_ffff_ffff_ffffu128);
        if state.is_anamorphic {
            if let Some(sar) = &state.sample_aspect_ratio {
                if let Some((num, den)) = parse_ratio(sar.as_str()) {
                    if num > 0 && den > 0 {
                        let n = num as u128;
                        let d = den as u128;
                        if num > den {
                            proof {
                                assert(w * n <= 0xffff_ffff * 0xffff_ffff) by (nonlinear_arith)
                                    requires w <= 0xffff_ffff, n <= 0xffff_ffff;
                                assert((w * n) / (d as int) <= w * n) by (nonlinear_arith)
                                    requires d > 0, w * n >= 0;
                            }
                            sw = w * n / d;
                        } else {
                            proof {
                                assert(h * d <= 0xffff_ffff * 0xffff_ffff) by (nonlinear_arith)
                                    requires h <= 0xffff_ffff, d <= 0xffff_ffff;
                                assert((h * d) / (n as int) <= h * d) by (nonlinear_arith)
                                    requires n > 0, h * d >= 0;
                            }
                            sh = h * d / n;
                        }
                    }
                }
            }
        }
        assert((sw as nat, sh as nat) == display_size(*state));
        let tw = self.width as u128;
        let th = self.height as u128;
        if sw == 0 || sh == 0 {
            return *self;
        }
        self.fit(tw, th, sw, sh)
    }

    fn fit(&self, tw: u128, th: u128, sw: u128, sh: u128) -> (res: FrameSize)
        requires
            tw == self.width,
            th == self.height,
            0 < sw <= 0xffff_ffff_ffff_ffff,
            0 < sh <= 0xffff_ffff_ffff_ffff,
        ensures
            res == fitted_size(*self, (sw as nat, sh as nat)),
    {
        proof {
            assert(tw * sh <= 0xffff_ffff * 0xffff_ffff_ffff_ffff) by (nonlinear_arith)
                requires tw <= 0xffff_ffff, sh <= 0xffff_ffff_ffff_ffff;
            assert(th * sw <= 0xffff_ffff * 0xffff_ffff_ffff_ffff) by (nonlinear_arith)
                requires th <= 0xffff_ffff, sw <= 0xffff_ffff_ffff_ffff;
        }
        if tw * sh <= th * sw {
            let h = tw * sh / sw;
            proof {
                assert((tw * sh) / (sw as int) <= th) by (nonlinear_arith)
                    requires tw * sh <= th * sw, sw > 0;
            }
            FrameSize { width: (tw - tw % 2) as u32, height: (h - h % 2) as u32 }
        } else {
            let w = th * sw / sh;
            proof {
                assert((th * sw) / (sh as int) <= tw) by (nonlinear_arith)
                    requires tw * sh > th * sw, sh > 0;
            }
            FrameSize { width: (w - w % 2) as u32, height: (th - th % 2) as u32 }
        }
    }
}

} // verus!
