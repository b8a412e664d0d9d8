//! Byte-level parsing of the text the platform hands the daemon: the
//! integer contents of sensor and fan files, and the frequency line of
//! the driver's operating-point text block.
//!
//! All functions work on plain bytes and are specified against spec
//! functions that state the accepted grammar directly: an optional
//! sign, decimal digits, a bounded value; ASCII whitespace trimming;
//! and, for the operating-point block, the second whitespace-separated
//! token of the line following the first line that contains the
//! `OD_SCLK:` marker, with any trailing `Mhz` suffixes removed.

use vstd::prelude::*;

verus! {

pub open spec fn is_ascii_digit(b: u8) -> bool {
    48 <= b <= 57
}

/// ASCII whitespace: space, tab, line feed, vertical tab, form feed,
/// carriage return.
pub open spec fn is_ascii_ws(b: u8) -> bool {
    b == 32 || (9 <= b <= 13)
}

pub open spec fn all_digits(s: Seq<u8>) -> bool {
    forall|i: int| 0 <= i < s.len() ==> is_ascii_digit(#[trigger] s[i])
}

/// Value of a digit string read in base 10.
pub open spec fn digits_value(s: Seq<u8>) -> int
    decreases s.len(),
{
    if s.len() == 0 {
        0
    } else {
        digits_value(s.drop_last()) * 10 + (s.last() - 48)
    }
}

/// The number a `u16` parse accepts: an optional leading `+`, then at
/// least one digit, with a value of at most 65535.
pub open spec fn spec_parse_u16(s: Seq<u8>) -> Option<u16> {
    let body = if s.len() > 0 && s[0] == 43 {
        s.drop_first()
    } else {
        s
    };
    if body.len() > 0 && all_digits(body) && digits_value(body) <= u16::MAX {
        Some(digits_value(body) as u16)
    } else {
        None
    }
}

/// The number an `i32` parse accepts: an optional leading `+` or `-`,
/// then at least one digit, with the value in the `i32` range.
pub open spec fn spec_parse_i32(s: Seq<u8>) -> Option<i32> {
    let signed = s.len() > 0 && (s[0] == 43 || s[0] == 45);
    let neg = s.len() > 0 && s[0] == 45;
    let body = if signed {
        s.drop_first()
    } else {
        s
    };
    if body.len() > 0 && all_digits(body) {
        if neg && digits_value(body) <= 0x8000_0000 {
            Some((-digits_value(body)) as i32)
        } else if !neg && digits_value(body) <= 0x7FFF_FFFF {
            Some(digits_value(body) as i32)
        } else {
            None
        }
    } else {
        None
    }
}

pub open spec fn trim_front(s: Seq<u8>) -> Seq<u8>
    decreases s.len(),
{
    if s.len() > 0 && is_ascii_ws(s[0]) {
        trim_front(s.drop_first())
    } else {
        s
    }
}

pub open spec fn trim_back(s: Seq<u8>) -> Seq<u8>
    decreases s.len(),
{
    if s.len() > 0 && is_ascii_ws(s.last()) {
        trim_back(s.drop_last())
    } else {
        s
    }
}

/// The bytes with ASCII whitespace removed from both ends.
pub open spec fn spec_trim(s: Seq<u8>) -> Seq<u8> {
    trim_back(trim_front(s))
}

// ---------------------------------------------------------------
// Window scanning helpers shared by the executable parsers. All of
// them work on the window [from, to) of a byte vector.
// ---------------------------------------------------------------

/// Parse the window as a decimal digit string (after an optional
/// leading `+`), reporting the value and whether it exceeded `cap`.
fn parse_digits_window(s: &Vec<u8>, from: usize, to: usize, cap: u64) -> (r: Option<(u64, bool)>)
    requires
        from <= to <= s@.len(),
        cap <= 0x1_0000_0000,
    ensures
        ({
            let w = s@.subrange(from as int, to as int);
            match r {
                None => !(w.len() > 0 && all_digits(w)),
                Some((v, too_big)) => {
                    &&& w.len() > 0
                    &&& all_digits(w)
                    &&& !too_big ==> v == digits_value(w) && v <= cap
                    &&& too_big ==> digits_value(w) > cap
                },
            }
        }),
{
    if from == to {
        return None;
    }
    let mut v: u64 = 0;
    let mut too_big = false;
    let mut i: usize = from;
    proof {
        assert(s@.subrange(from as int, from as int) =~= Seq::<u8>::empty());
    }
    while i < to
        invariant
            from <= i <= to <= s@.len(),
            cap <= 0x1_0000_0000,
            all_digits(s@.subrange(from as int, i as int)),
            !too_big ==> v == digits_value(s@.subrange(from as int, i as int)) && v <= cap,
            too_big ==> digits_value(s@.subrange(from as int, i as int)) > cap,
        decreases to - i,
    {
        let b = s[i];
        proof {
            assert(s@.subrange(from as int, i + 1).drop_last() =~= s@.subrange(
                from as int,
                i as int,
            ));
            assert(s@.subrange(from as int, i + 1).last() == s@[i as int]);
        }
        if b < 48 || b > 57 {
            proof {
                let w = s@.subrange(from as int, to as int);
                assert(w[i - from] == s@[i as int]);
                assert(!is_ascii_digit(w[i - from]));
            }
            return None;
        }
        if too_big {
            proof {
                let prev = digits_value(s@.subrange(from as int, i as int));
                assert(prev * 10 > cap * 10) by (nonlinear_arith)
                    requires
                        prev > cap,
                        cap >= 0,
                ;
            }
        } else {
            let d = (b - 48) as u64;
            let nv = v * 10 + d;
            if nv > cap {
                too_big = true;
            } else {
                v = nv;
            }
        }
        i = i + 1;
    }
    Some((v, too_big))
}

/// The `u16` a parse of the window would return.
fn parse_u16_window(s: &Vec<u8>, from: usize, to: usize) -> (r: Option<u16>)
    requires
        from <= to <= s@.len(),
    ensures
        r == spec_parse_u16(s@.subrange(from as int, to as int)),
{
    let w_start = if from < to && s[from] == 43 {
        from + 1
    } else {
        from
    };
    proof {
        let w = s@.subrange(from as int, to as int);
        if from < to && s@[from as int] == 43 {
            assert(w.drop_first() =~= s@.subrange(w_start as int, to as int));
        } else {
            assert(w =~= s@.subrange(w_start as int, to as int));
        }
    }
    match parse_digits_window(s, w_start, to, 65535) {
        None => None,
        Some((v, too_big)) => {
            if too_big {
                None
            } else {
                Some(v as u16)
            }
        },
    }
}

/// The `i32` a parse of the window would return.
fn parse_i32_window(s: &Vec<u8>, from: usize, to: usize) -> (r: Option<i32>)
    requires
        from <= to <= s@.len(),
    ensures
        r == spec_parse_i32(s@.subrange(from as int, to as int)),
{
    let signed = from < to && (s[from] == 43 || s[from] == 45);
    let neg = from < to && s[from] == 45;
    let w_start = if signed {
        from + 1
    } else {
        from
    };
    proof {
        let w = s@.subrange(from as int, to as int);
        if signed {
            assert(w.drop_first() =~= s@.subrange(w_start as int, to as int));
        } else {
            assert(w =~= s@.subrange(w_start as int, to as int));
        }
    }
    match parse_digits_window(s, w_start, to, 0x8000_0000) {
        None => None,
        Some((v, too_big)) => {
            if too_big {
                None
            } else if neg {
                Some(-(v as i64) as i32)
            } else if v <= 0x7FFF_FFFF {
                Some(v as i32)
            } else {
                None
            }
        },
    }
}

/// Window of `s` left after trimming ASCII whitespace from both ends:
/// `spec_trim(s@) == s@.subrange(lo, hi)`.
fn trim_window(s: &Vec<u8>) -> (r: (usize, usize))
    ensures
        r.0 <= r.1 <= s@.len(),
        spec_trim(s@) == s@.subrange(r.0 as int, r.1 as int),
{
    let n = s.len();
    let mut lo: usize = 0;
    proof {
        assert(s@.skip(0) =~= s@);
    }
    loop
        invariant
            lo <= n,
            n == s@.len(),
            trim_front(s@) == trim_front(s@.skip(lo as int)),
        ensures
            lo <= n,
            n == s@.len(),
            trim_front(s@) == s@.skip(lo as int),
        decreases n - lo,
    {
        if lo == n {
            proof {
                assert(s@.skip(lo as int) =~= Seq::<u8>::empty());
            }
            break;
        }
        let b = s[lo];
        if !(b == 32 || (9 <= b && b <= 13)) {
            break;
        }
        proof {
            assert(s@.skip(lo as int).drop_first() =~= s@.skip(lo + 1));
        }
        lo = lo + 1;
    }
    proof {
        assert(s@.skip(lo as int) =~= s@.subrange(lo as int, n as int));
    }
    let mut hi: usize = n;
    loop
        invariant
            lo <= hi <= n,
            n == s@.len(),
            trim_back(s@.subrange(lo as int, n as int)) == trim_back(
                s@.subrange(lo as int, hi as int),
            ),
        ensures
            lo <= hi <= n,
            n == s@.len(),
            trim_back(s@.subrange(lo as int, n as int)) == s@.subrange(lo as int, hi as int),
        decreases hi,
    {
        if hi == lo {
            proof {
                assert(s@.subrange(lo as int, hi as int) =~= Seq::<u8>::empty());
            }
            break;
        }
        let b = s[hi - 1];
        if !(b == 32 || (9 <= b && b <= 13)) {
            break;
        }
        proof {
            assert(s@.subrange(lo as int, hi as int).drop_last() =~= s@.subrange(
                lo as int,
                hi - 1,
            ));
        }
        hi = hi - 1;
    }
    (lo, hi)
}

/// What `parse::<u16>()` returns on the bytes.
pub fn parse_u16(s: &Vec<u8>) -> (r: Option<u16>)
    ensures
        r == spec_parse_u16(s@),
{
    proof {
        assert(s@.subrange(0, s@.len() as int) =~= s@);
    }
    parse_u16_window(s, 0, s.len())
}

/// A sensor file's contents: ASCII-trimmed signed milli-degrees.
pub fn parse_millidegrees(s: &Vec<u8>) -> (r: Option<i32>)
    ensures
        r == spec_parse_i32(spec_trim(s@)),
{
    let (lo, hi) = trim_window(s);
    parse_i32_window(s, lo, hi)
}

/// A fan duty file's contents: an ASCII-trimmed raw byte in 0..=255.
pub fn parse_duty_byte(s: &Vec<u8>) -> (r: Option<u8>)
    ensures
        r == match spec_parse_u16(spec_trim(s@)) {
            Some(v) => if v <= 255 {
                Some(v as u8)
            } else {
                Option::<u8>::None
            },
            None => None,
        },
{
    let (lo, hi) = trim_window(s);
    match parse_u16_window(s, lo, hi) {
        Some(v) => if v <= 255 {
            Some(v as u8)
        } else {
            None
        },
        None => None,
    }
}

// ---------------------------------------------------------------
// The operating-point text block: the device's current frequency is
// the second token of the line after the first `OD_SCLK:` line.
// ---------------------------------------------------------------

/// Index of the first line-feed byte at or after `from`, or the
/// length when the rest has none.
pub open spec fn line_end(s: Seq<u8>, from: int) -> int
    decreases s.len() - from,
{
    if from < 0 || from >= s.len() {
        s.len() as int
    } else if s[from] == 10 {
        from
    } else {
        line_end(s, from + 1)
    }
}

/// `pat` occurs in `l` starting at offset `k`.
pub open spec fn contains_at(l: Seq<u8>, pat: Seq<u8>, k: int) -> bool {
    0 <= k && k + pat.len() <= l.len() && l.subrange(k, k + pat.len()) == pat
}

pub open spec fn contains_seq(l: Seq<u8>, pat: Seq<u8>) -> bool {
    exists|k: int| contains_at(l, pat, k)
}

/// The bytes of `OD_SCLK:`.
pub open spec fn od_sclk_marker() -> Seq<u8> {
    seq![79u8, 68u8, 95u8, 83u8, 67u8, 76u8, 75u8, 58u8]
}

/// Start of the line following the first line at or after `pos` that
/// contains the `OD_SCLK:` marker; `None` when no marker line has a
/// line after it.
pub open spec fn next_line_after_marker(s: Seq<u8>, pos: int) -> Option<int>
    decreases s.len() - pos,
{
    if pos < 0 || pos >= s.len() {
        None
    } else {
        let e0 = line_end(s, pos);
        let e = if e0 < pos {
            pos
        } else if e0 > s.len() {
            s.len() as int
        } else {
            e0
        };
        if contains_seq(s.subrange(pos, e), od_sclk_marker()) {
            if e + 1 < s.len() {
                Some(e + 1)
            } else {
                None
            }
        } else {
            if e + 1 < s.len() {
                next_line_after_marker(s, e + 1)
            } else {
                None
            }
        }
    }
}

/// First non-whitespace index in the window [from, to), or `to`.
pub open spec fn skip_ws(s: Seq<u8>, from: int, to: int) -> int
    decreases to - from,
{
    if from < 0 || from >= to || to > s.len() {
        from
    } else if is_ascii_ws(s[from]) {
        skip_ws(s, from + 1, to)
    } else {
        from
    }
}

/// First whitespace index at or after `from` in the window, or `to`.
pub open spec fn skip_non_ws(s: Seq<u8>, from: int, to: int) -> int
    decreases to - from,
{
    if from < 0 || from >= to || to > s.len() {
        from
    } else if !is_ascii_ws(s[from]) {
        skip_non_ws(s, from + 1, to)
    } else {
        from
    }
}

/// The second whitespace-separated token of the window [from, to).
pub open spec fn second_token(s: Seq<u8>, from: int, to: int) -> Option<Seq<u8>> {
    let t1s = skip_ws(s, from, to);
    let t1e = skip_non_ws(s, t1s, to);
    let t2s = skip_ws(s, t1e, to);
    let t2e = skip_non_ws(s, t2s, to);
    if t1s < t1e && t2s < t2e {
        Some(s.subrange(t2s, t2e))
    } else {
        None
    }
}

/// The token with every trailing `Mhz` removed.
pub open spec fn strip_mhz(s: Seq<u8>) -> Seq<u8>
    decreases s.len(),
{
    if s.len() >= 3 && s.subrange(s.len() - 3, s.len() as int) == seq![77u8, 104u8, 122u8] {
        strip_mhz(s.take(s.len() - 3))
    } else {
        s
    }
}

/// The frequency the operating-point text block reports: the second
/// token of the line after the first `OD_SCLK:` line, with trailing
/// `Mhz` stripped, read as a `u16`.
pub open spec fn spec_parse_current_freq(s: Seq<u8>) -> Option<u16> {
    match next_line_after_marker(s, 0) {
        None => None,
        Some(p) => {
            let e0 = line_end(s, p);
            let e = if e0 < p {
                p
            } else if e0 > s.len() {
                s.len() as int
            } else {
                e0
            };
            match second_token(s, p, e) {
                None => None,
                Some(tok) => spec_parse_u16(strip_mhz(tok)),
            }
        },
    }
}

fn find_line_end(s: &Vec<u8>, from: usize) -> (e: usize)
    requires
        from <= s@.len(),
    ensures
        from <= e <= s@.len(),
        e == line_end(s@, from as int),
{
    let n = s.len();
    let mut i: usize = from;
    loop
        invariant
            from <= i <= n,
            n == s@.len(),
            line_end(s@, from as int) == line_end(s@, i as int),
        ensures
            from <= i <= n,
            n == s@.len(),
            line_end(s@, from as int) == i,
        decreases n - i,
    {
        if i == n {
            break;
        }
        if s[i] == 10 {
            break;
        }
        i = i + 1;
    }
    i
}

fn line_contains_marker(s: &Vec<u8>, from: usize, to: usize) -> (r: bool)
    requires
        from <= to <= s@.len(),
    ensures
        r == contains_seq(s@.subrange(from as int, to as int), od_sclk_marker()),
{
    let ghost sub = s@.subrange(from as int, to as int);
    if to - from < 8 {
        proof {
            assert forall|k: int| !contains_at(sub, od_sclk_marker(), k) by {}
        }
        return false;
    }
    let mut k: usize = from;
    loop
        invariant
            from <= k,
            k <= to - 8 + 1,
            8 <= to - from,
            to <= s@.len(),
            sub == s@.subrange(from as int, to as int),
            forall|k2: int| 0 <= k2 < k - from ==> !contains_at(sub, od_sclk_marker(), k2),
        ensures
            forall|k2: int| !contains_at(sub, od_sclk_marker(), k2),
        decreases to - k,
    {
        if k > to - 8 {
            break;
        }
        let hit = s[k] == 79 && s[k + 1] == 68 && s[k + 2] == 95 && s[k + 3] == 83 && s[k + 4]
            == 67 && s[k + 5] == 76 && s[k + 6] == 75 && s[k + 7] == 58;
        proof {
            let km = k - from;
            assert(forall|t: int| 0 <= t < 8 ==> #[trigger] sub[km + t] == s@[k + t]);
            if hit {
                assert(sub.subrange(km, km + 8) =~= od_sclk_marker());
                assert(contains_at(sub, od_sclk_marker(), km));
            } else {
                if contains_at(sub, od_sclk_marker(), km) {
                    assert(sub.subrange(km, km + 8) == od_sclk_marker());
                    assert(forall|t: int|
                        0 <= t < 8 ==> sub.subrange(km, km + 8)[t] == od_sclk_marker()[t]);
                    assert(s@[k as int] == 79 && s@[k + 1] == 68 && s@[k + 2] == 95 && s@[k + 3]
                        == 83 && s@[k + 4] == 67 && s@[k + 5] == 76 && s@[k + 6] == 75 && s@[k
                        + 7] == 58);
                    assert(false);
                }
            }
        }
        if hit {
            return true;
        }
        k = k + 1;
    }
    false
}

fn skip_ws_exec(s: &Vec<u8>, from: usize, to: usize) -> (r: usize)
    requires
        from <= to <= s@.len(),
    ensures
        from <= r <= to,
        r == skip_ws(s@, from as int, to as int),
{
    let mut i: usize = from;
    loop
        invariant
            from <= i <= to,
            to <= s@.len(),
            skip_ws(s@, from as int, to as int) == skip_ws(s@, i as int, to as int),
        ensures
            from <= i <= to,
            skip_ws(s@, from as int, to as int) == i,
        decreases to - i,
    {
        if i == to {
            break;
        }
        let b = s[i];
        if !(b == 32 || (9 <= b && b <= 13)) {
            break;
        }
        i = i + 1;
    }
    i
}

fn skip_non_ws_exec(s: &Vec<u8>, from: usize, to: usize) -> (r: usize)
    requires
        from <= to <= s@.len(),
    ensures
        from <= r <= to,
        r == skip_non_ws(s@, from as int, to as int),
{
    let mut i: usize = from;
    loop
        invariant
            from <= i <= to,
            to <= s@.len(),
            skip_non_ws(s@, from as int, to as int) == skip_non_ws(s@, i as int, to as int),
        ensures
            from <= i <= to,
            skip_non_ws(s@, from as int, to as int) == i,
        decreases to - i,
    {
        if i == to {
            break;
        }
        let b = s[i];
        if b == 32 || (9 <= b && b <= 13) {
            break;
        }
        i = i + 1;
    }
    i
}

/// The device's currently active frequency, read from the
/// operating-point text block at startup.
pub fn parse_current_freq(content: &Vec<u8>) -> (r: Option<u16>)
    ensures
        r == spec_parse_current_freq(content@),
{
    let n = content.len();
    let mut pos: usize = 0;
    let mut line_start: usize = 0;
    loop
        invariant_except_break
            pos <= n,
            n == content@.len(),
            next_line_after_marker(content@, 0) == next_line_after_marker(content@, pos as int),
        ensures
            line_start < n,
            n == content@.len(),
            next_line_after_marker(content@, 0) == Some(line_start as int),
        decreases n - pos,
    {
        if pos == n {
            return None;
        }
        let e = find_line_end(content, pos);
        let has = line_contains_marker(content, pos, e);
        if has {
            if e >= n || e + 1 >= n {
                proof {
                    assert(next_line_after_marker(content@, pos as int) is None);
                }
                return None;
            }
            line_start = e + 1;
            proof {
                assert(next_line_after_marker(content@, pos as int) == Some(e + 1 as int));
            }
            break;
        }
        if e >= n || e + 1 >= n {
            proof {
                assert(next_line_after_marker(content@, pos as int) is None);
            }
            return None;
        }
        proof {
            assert(next_line_after_marker(content@, pos as int) == next_line_after_marker(
                content@,
                e + 1 as int,
            ));
        }
        pos = e + 1;
    }
    let le = find_line_end(content, line_start);
    let t1s = skip_ws_exec(content, line_start, le);
    let t1e = skip_non_ws_exec(content, t1s, le);
    let t2s = skip_ws_exec(content, t1e, le);
    let t2e = skip_non_ws_exec(content, t2s, le);
    proof {
        assert(second_token(content@, line_start as int, le as int) == (if t1s < t1e && t2s
            < t2e {
            Some(content@.subrange(t2s as int, t2e as int))
        } else {
            Option::<Seq<u8>>::None
        }));
    }
    if t1s == t1e || t2s == t2e {
        return None;
    }
    let ghost tok = content@.subrange(t2s as int, t2e as int);
    let mut end: usize = t2e;
    loop
        invariant
            t2s <= end <= t2e,
            t2e <= n,
            n == content@.len(),
            tok == content@.subrange(t2s as int, t2e as int),
            strip_mhz(tok) == strip_mhz(content@.subrange(t2s as int, end as int)),
        ensures
            t2s <= end <= t2e <= n,
            strip_mhz(tok) == content@.subrange(t2s as int, end as int),
        decreases end,
    {
        let ghost cur = content@.subrange(t2s as int, end as int);
        if end - t2s < 3 {
            break;
        }
        let m = content[end - 3] == 77 && content[end - 2] == 104 && content[end - 1] == 122;
        proof {
            assert(forall|t: int| 0 <= t < 3 ==> #[trigger] cur[cur.len() - 3 + t] == content@[end - 3 + t]);
            if m {
                assert(cur.subrange(cur.len() - 3, cur.len() as int) =~= seq![77u8, 104u8, 122u8]);
                assert(cur.take(cur.len() - 3) =~= content@.subrange(t2s as int, end - 3));
            } else {
                if cur.subrange(cur.len() - 3, cur.len() as int) == seq![77u8, 104u8, 122u8] {
                    assert(forall|t: int|
                        0 <= t < 3 ==> cur.subrange(cur.len() - 3, cur.len() as int)[t] == seq![
                            77u8,
                            104u8,
                            122u8,
                        ][t]);
                    assert(false);
                }
            }
        }
        if !m {
            break;
        }
        end = end - 3;
    }
    parse_u16_window(content, t2s, end)
}

} // verus!
