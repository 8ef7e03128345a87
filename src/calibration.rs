//! Calibration colors as they are kept in storage: three decimal integers
//! joined by semicolons (`"r;g;b"`), with a fixed fallback triple for text
//! that is absent or malformed.
use vstd::prelude::*;

verus! {

/// An (r, g, b) calibration triple.
pub type Rgb = (i32, i32, i32);

/// Fallback channel value of the foreground (line) color.
pub const DEFAULT_FOREGROUND: i32 = 20;
/// Fallback channel value of the background (floor) color.
pub const DEFAULT_BACKGROUND: i32 = 200;

/// An ASCII decimal digit.
pub open spec fn is_digit(c: u8) -> bool {
    48 <= c <= 57
}

/// ASCII white space.
pub open spec fn is_space(c: u8) -> bool {
    c == 32 || c == 9 || c == 10 || c == 12 || c == 13
}

/// Every byte is a decimal digit.
pub open spec fn all_digits(s: Seq<u8>) -> bool {
    forall|i: int| 0 <= i < s.len() ==> #[trigger] is_digit(s[i])
}

/// No byte is a semicolon.
pub open spec fn no_semicolon(s: Seq<u8>) -> bool {
    forall|i: int| 0 <= i < s.len() ==> s[i] != 59u8
}

/// Value of a string of decimal digits, most significant first.
pub open spec fn digits_value(s: Seq<u8>) -> int
    decreases s.len(),
{
    if s.len() == 0 {
        0
    } else {
        digits_value(s.drop_last()) * 10 + (s.last() - 48)
    }
}

/// The integer that `s` spells: an optional `+` or `-`, then at least one
/// digit; `None` where it is not such text or its value does not fit `i32`.
pub open spec fn int_value(s: Seq<u8>) -> Option<int> {
    let signed = s.len() > 0 && (s[0] == 45u8 || s[0] == 43u8);
    let rest = if signed { s.subrange(1, s.len() as int) } else { s };
    let v = if signed && s[0] == 45u8 { -digits_value(rest) } else { digits_value(rest) };
    if rest.len() > 0 && all_digits(rest) && i32::MIN <= v <= i32::MAX {
        Some(v)
    } else {
        None
    }
}

/// `s` with leading ASCII white space removed.
pub open spec fn trim_start(s: Seq<u8>) -> Seq<u8>
    decreases s.len(),
{
    if s.len() > 0 && is_space(s[0]) {
        trim_start(s.drop_first())
    } else {
        s
    }
}

/// `s` with trailing ASCII white space removed.
pub open spec fn trim_end(s: Seq<u8>) -> Seq<u8>
    decreases s.len(),
{
    if s.len() > 0 && is_space(s.last()) {
        trim_end(s.drop_last())
    } else {
        s
    }
}

/// The pieces of `s` between semicolons; text without one is one piece.
pub open spec fn fields(s: Seq<u8>) -> Seq<Seq<u8>>
    decreases s.len(),
{
    if s.len() == 0 {
        seq![Seq::<u8>::empty()]
    } else {
        let f = fields(s.drop_last());
        if s.last() == 59u8 {
            f.push(Seq::<u8>::empty())
        } else {
            f.update(f.len() - 1, f.last().push(s.last()))
        }
    }
}

/// The triple that stored text holds: after trimming white space, exactly
/// three semicolon-separated integers.
pub open spec fn stored_triple(text: Seq<u8>) -> Option<(int, int, int)> {
    let f = fields(trim_end(trim_start(text)));
    if f.len() == 3 {
        match (int_value(f[0]), int_value(f[1]), int_value(f[2])) {
            (Some(r), Some(g), Some(b)) => Some((r, g, b)),
            _ => None,
        }
    } else {
        None
    }
}

/// The color loaded from optional stored text: the stored triple, or the
/// default replicated over the three channels.
pub open spec fn loaded_color(text: Option<Seq<u8>>, default: i32) -> (int, int, int) {
    match text {
        Some(t) => match stored_triple(t) {
            Some(c) => c,
            None => (default as int, default as int, default as int),
        },
        None => (default as int, default as int, default as int),
    }
}

/// A triple as mathematical integers.
pub open spec fn rgb_model(c: Rgb) -> (int, int, int) {
    (c.0 as int, c.1 as int, c.2 as int)
}

/// Decimal digits of `n`, without leading zeros.
pub open spec fn digits_text(n: nat) -> Seq<u8>
    decreases n,
{
    if n < 10 {
        seq![(48 + n) as u8]
    } else {
        digits_text(n / 10).push((48 + n % 10) as u8)
    }
}

/// Decimal text of `n`, with a `-` where it is negative.
pub open spec fn int_text(n: int) -> Seq<u8> {
    if n < 0 {
        seq![45u8] + digits_text((-n) as nat)
    } else {
        digits_text(n as nat)
    }
}

/// The stored text of a color: `"r;g;b"`.
pub open spec fn color_text(c: (int, int, int)) -> Seq<u8> {
    int_text(c.0) + seq![59u8] + int_text(c.1) + seq![59u8] + int_text(c.2)
}

proof fn lemma_digits_text(n: nat)
    ensures
        digits_text(n).len() > 0,
        all_digits(digits_text(n)),
        digits_value(digits_text(n)) == n,
    decreases n,
{
    if n < 10 {
        let s = digits_text(n);
        assert(s.drop_last() =~= Seq::<u8>::empty());
        assert(s.last() as int == 48 + n);
        assert(digits_value(s) == digits_value(s.drop_last()) * 10 + (s.last() - 48));
    } else {
        lemma_digits_text(n / 10);
        let s = digits_text(n);
        assert(s.drop_last() =~= digits_text(n / 10));
        assert(s.last() as int == 48 + n % 10);
        assert((n / 10) * 10 + n % 10 == n);
        assert(digits_value(s) == digits_value(s.drop_last()) * 10 + (s.last() - 48));
        assert forall|i: int| 0 <= i < s.len() implies #[trigger] is_digit(s[i]) by {
            if i < s.len() - 1 {
                assert(is_digit(digits_text(n / 10)[i]));
            }
        }
    }
}

proof fn lemma_int_text(n: int)
    requires
        i32::MIN <= n <= i32::MAX,
    ensures
        int_value(int_text(n)) == Some(n),
        no_semicolon(int_text(n)),
        int_text(n).len() > 0,
        !is_space(int_text(n)[0]),
        !is_space(int_text(n).last()),
{
    let s = int_text(n);
    if n < 0 {
        lemma_digits_text((-n) as nat);
        assert(s.subrange(1, s.len() as int) =~= digits_text((-n) as nat));
        assert(is_digit(s.last()));
    } else {
        lemma_digits_text(n as nat);
        assert(is_digit(s[0]));
        assert(is_digit(s.last()));
    }
    assert forall|i: int| 0 <= i < s.len() implies s[i] != 59u8 by {
        if n < 0 && i > 0 {
            assert(is_digit(digits_text((-n) as nat)[i - 1]));
        } else if n >= 0 {
            assert(is_digit(s[i]));
        }
    }
}

proof fn lemma_fields_append(x: Seq<u8>, y: Seq<u8>)
    requires
        no_semicolon(y),
    ensures
        fields(x + y) == fields(x).update(fields(x).len() - 1, fields(x).last() + y),
        fields(x).len() > 0,
    decreases y.len(),
{
    lemma_fields_nonempty(x);
    if y.len() == 0 {
        assert(x + y =~= x);
        assert(fields(x).last() + y =~= fields(x).last());
        assert(fields(x).update(fields(x).len() - 1, fields(x).last()) =~= fields(x));
    } else {
        let y0 = y.drop_last();
        lemma_fields_append(x, y0);
        assert((x + y).drop_last() =~= x + y0);
        assert((x + y).last() == y.last());
        assert(fields(x).last() + y =~= (fields(x).last() + y0).push(y.last()));
        assert(fields(x + y) =~= fields(x).update(fields(x).len() - 1, fields(x).last() + y));
    }
}

proof fn lemma_fields_nonempty(x: Seq<u8>)
    ensures
        fields(x).len() > 0,
    decreases x.len(),
{
    if x.len() > 0 {
        lemma_fields_nonempty(x.drop_last());
    }
}

proof fn lemma_fields_semicolon(x: Seq<u8>)
    ensures
        fields(x + seq![59u8]) == fields(x).push(Seq::<u8>::empty()),
{
    assert((x + seq![59u8]).drop_last() =~= x);
}

proof fn lemma_trim_plain(s: Seq<u8>)
    requires
        s.len() > 0,
        !is_space(s[0]),
        !is_space(s.last()),
    ensures
        trim_end(trim_start(s)) == s,
{
}

/// Loading the text that saving a color writes gives that color back.
pub proof fn lemma_color_round_trip(c: Rgb)
    ensures
        stored_triple(color_text(rgb_model(c))) == Some(rgb_model(c)),
        loaded_color(Some(color_text(rgb_model(c))), DEFAULT_FOREGROUND) == rgb_model(c),
        loaded_color(Some(color_text(rgb_model(c))), DEFAULT_BACKGROUND) == rgb_model(c),
{
    let (a, b, d) = (int_text(c.0 as int), int_text(c.1 as int), int_text(c.2 as int));
    lemma_int_text(c.0 as int);
    lemma_int_text(c.1 as int);
    lemma_int_text(c.2 as int);
    let e = Seq::<u8>::empty();
    let t = color_text(rgb_model(c));
    assert(t =~= a + seq![59u8] + b + seq![59u8] + d);
    assert(t[0] == a[0]);
    assert(t.last() == d.last());
    lemma_trim_plain(t);
    lemma_fields_append(e, a);
    assert(e + a =~= a);
    assert(fields(e) =~= seq![e]);
    assert(fields(a) =~= seq![a]);
    lemma_fields_semicolon(a);
    lemma_fields_append(a + seq![59u8], b);
    lemma_fields_semicolon(a + seq![59u8] + b);
    lemma_fields_append(a + seq![59u8] + b + seq![59u8], d);
    assert(fields(t) =~= seq![a, b, d]);
}

fn trim_bounds(s: &[u8]) -> (r: (usize, usize))
    ensures
        r.0 <= r.1 <= s@.len(),
        s@.subrange(r.0 as int, r.1 as int) == trim_end(trim_start(s@)),
{
    let mut lo: usize = 0;
    assert(s@.subrange(0, s@.len() as int) =~= s@);
    while lo < s.len() && (s[lo] == 32 || s[lo] == 9 || s[lo] == 10 || s[lo] == 12 || s[lo] == 13)
        invariant
            lo <= s@.len(),
            trim_start(s@) == trim_start(s@.subrange(lo as int, s@.len() as int)),
        decreases s@.len() - lo,
    {
        let ghost rest = s@.subrange(lo as int, s@.len() as int);
        assert(rest.drop_first() =~= s@.subrange(lo + 1, s@.len() as int));
        lo = lo + 1;
    }
    assert(trim_start(s@) == s@.subrange(lo as int, s@.len() as int));
    let mut hi: usize = s.len();
    while hi > lo && (s[hi - 1] == 32 || s[hi - 1] == 9 || s[hi - 1] == 10 || s[hi - 1] == 12
        || s[hi - 1] == 13)
        invariant
            lo <= hi <= s@.len(),
            trim_end(trim_start(s@)) == trim_end(s@.subrange(lo as int, hi as int)),
        decreases hi,
    {
        let ghost mid = s@.subrange(lo as int, hi as int);
        assert(mid.drop_last() =~= s@.subrange(lo as int, hi - 1));
        hi = hi - 1;
    }
    (lo, hi)
}

fn split_fields(s: &[u8], lo: usize, hi: usize) -> (r: Vec<Vec<u8>>)
    requires
        lo <= hi <= s@.len(),
    ensures
        r@.len() == fields(s@.subrange(lo as int, hi as int)).len(),
        forall|k: int|
            0 <= k < r@.len() ==> #[trigger] r@[k]@ == fields(s@.subrange(lo as int, hi as int))[k],
{
    let ghost t = s@.subrange(lo as int, hi as int);
    let mut done: Vec<Vec<u8>> = Vec::new();
    let mut cur: Vec<u8> = Vec::new();
    let mut i: usize = lo;
    assert(t.subrange(0, 0) =~= Seq::<u8>::empty());
    while i < hi
        invariant
            lo <= i <= hi <= s@.len(),
            t == s@.subrange(lo as int, hi as int),
            fields(t.subrange(0, i - lo)).len() == done@.len() + 1,
            forall|k: int|
                0 <= k < done@.len() ==> #[trigger] done@[k]@ == fields(t.subrange(0, i - lo))[k],
            cur@ == fields(t.subrange(0, i - lo)).last(),
        decreases hi - i,
    {
        let ghost before = fields(t.subrange(0, i - lo));
        assert(t.subrange(0, i + 1 - lo).drop_last() =~= t.subrange(0, i - lo));
        assert(t.subrange(0, i + 1 - lo).last() == s@[i as int]);
        if s[i] == 59u8 {
            done.push(cur);
            cur = Vec::new();
        } else {
            cur.push(s[i]);
        }
        i = i + 1;
    }
    assert(t.subrange(0, hi - lo) =~= t);
    done.push(cur);
    done
}

/// Parses an integer: an optional sign and at least one decimal digit,
/// within the range of `i32`.
pub fn parse_i32(s: &[u8]) -> (r: Option<i32>)
    ensures
        match r {
            Some(v) => int_value(s@) == Some(v as int),
            None => int_value(s@) is None,
        },
{
    let signed = s.len() > 0 && (s[0] == 45u8 || s[0] == 43u8);
    let negative = signed && s[0] == 45u8;
    let start: usize = if signed { 1 } else { 0 };
    let ghost rest = s@.subrange(start as int, s@.len() as int);
    if !signed {
        assert(rest =~= s@);
    }
    if start >= s.len() {
        return None;
    }
    let cap: u64 = 0x1_0000_0000;
    let mut acc: u64 = 0;
    let mut i: usize = start;
    while i < s.len()
        invariant
            cap == 0x1_0000_0000,
            signed == (s@.len() > 0 && (s@[0] == 45u8 || s@[0] == 43u8)),
            start == (if signed { 1usize } else { 0usize }),
            start <= i <= s@.len(),
            rest == s@.subrange(start as int, s@.len() as int),
            all_digits(s@.subrange(start as int, i as int)),
            acc <= cap,
            acc as int == if digits_value(s@.subrange(start as int, i as int)) < cap as int {
                digits_value(s@.subrange(start as int, i as int))
            } else {
                cap as int
            },
            digits_value(s@.subrange(start as int, i as int)) >= 0,
        decreases s@.len() - i,
    {
        let c = s[i];
        let ghost pre = s@.subrange(start as int, i as int);
        let ghost nxt = s@.subrange(start as int, i + 1);
        assert(nxt.drop_last() =~= pre);
        if c < 48 || c > 57 {
            assert(!is_digit(rest[i - start]));
            assert(!all_digits(rest));
            return None;
        }
        assert forall|j: int| 0 <= j < nxt.len() implies #[trigger] is_digit(nxt[j]) by {
            if j < pre.len() {
                assert(is_digit(pre[j]));
            }
        }
        let d = (c - 48) as u64;
        let ghost dv = digits_value(pre);
        assert(digits_value(nxt) == dv * 10 + d);
        assert(d <= 9);
        assert(acc * 10 + d <= 0x10_0000_0000) by (nonlinear_arith)
            requires
                acc <= 0x1_0000_0000,
                d <= 9,
        ;
        assert(dv >= cap ==> dv * 10 + d >= cap) by (nonlinear_arith)
            requires d >= 0;
        let next = acc * 10 + d;
        acc = if next < cap { next } else { cap };
        i = i + 1;
    }
    assert(s@.subrange(start as int, i as int) =~= rest);
    if negative {
        if acc > 0x8000_0000 {
            None
        } else {
            Some((0 - (acc as i64)) as i32)
        }
    } else {
        if acc > 0x7fff_ffff {
            None
        } else {
            Some(acc as i32)
        }
    }
}

/// Reads a calibration color from the optional stored text; absent or
/// malformed text gives `default` on all three channels.
pub fn get_saved_color(text: Option<&[u8]>, default: i32) -> (r: Rgb)
    ensures
        rgb_model(r) == loaded_color(
            match text {
                Some(t) => Some(t@),
                None => None,
            },
            default,
        ),
{
    let fallback = (default, default, default);
    match text {
        None => fallback,
        Some(t) => {
            let (lo, hi) = trim_bounds(t);
            let f = split_fields(t, lo, hi);
            if f.len() != 3 {
                return fallback;
            }
            match (parse_i32(f[0].as_slice()), parse_i32(f[1].as_slice()), parse_i32(f[2].as_slice())) {
                (Some(r), Some(g), Some(b)) => (r, g, b),
                _ => fallback,
            }
        },
    }
}

fn push_digits(out: &mut Vec<u8>, n: u32)
    ensures
        final(out)@ == old(out)@ + digits_text(n as nat),
    decreases n,
{
    if n >= 10 {
        push_digits(out, n / 10);
    }
    out.push(48 + (n % 10) as u8);
    assert(final(out)@ =~= old(out)@ + digits_text(n as nat));
}

fn push_int(out: &mut Vec<u8>, n: i32)
    ensures
        final(out)@ == old(out)@ + int_text(n as int),
{
    if n < 0 {
        out.push(45u8);
        let magnitude = (0 - (n as i64)) as u32;
        push_digits(out, magnitude);
        assert(final(out)@ =~= old(out)@ + int_text(n as int));
    } else {
        push_digits(out, n as u32);
    }
}

/// The text that stores a calibration color: `"r;g;b"`.
pub fn save_color(color: &Rgb) -> (r: Vec<u8>)
    ensures
        r@ == color_text(rgb_model(*color)),
{
    let mut out: Vec<u8> = Vec::new();
    push_int(&mut out, color.0);
    out.push(59u8);
    push_int(&mut out, color.1);
    out.push(59u8);
    push_int(&mut out, color.2);
    assert(out@ =~= color_text(rgb_model(*color)));
    out
}

/// Loads the foreground (line) color from its stored text.
pub fn get_saved_foreground(text: Option<&[u8]>) -> (r: Rgb)
    ensures
        rgb_model(r) == loaded_color(
            match text {
                Some(t) => Some(t@),
                None => None,
            },
            DEFAULT_FOREGROUND,
        ),
{
    get_saved_color(text, DEFAULT_FOREGROUND)
}

/// The text that stores the foreground (line) color.
pub fn save_foreground(color: &Rgb) -> (r: Vec<u8>)
    ensures
        r@ == color_text(rgb_model(*color)),
{
    save_color(color)
}

/// Loads the background (floor) color from its stored text.
pub fn get_saved_background(text: Option<&[u8]>) -> (r: Rgb)
    ensures
        rgb_model(r) == loaded_color(
            match text {
                Some(t) => Some(t@),
                None => None,
            },
            DEFAULT_BACKGROUND,
        ),
{
    get_saved_color(text, DEFAULT_BACKGROUND)
}

/// The text that stores the background (floor) color.
pub fn save_background(color: &Rgb) -> (r: Vec<u8>)
    ensures
        r@ == color_text(rgb_model(*color)),
{
    save_color(color)
}

} // verus!
