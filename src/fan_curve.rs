use vstd::prelude::*;
use crate::text::{chars_of, dec, dec_at, is_digit, lemma_dec_facts, push_dec, read_dec, string_from_chars};

verus! {

/// One point of a fan curve: at `temp` degrees the fan runs at `value`,
/// a percentage when `percent` is set, else a raw duty of 0 to 255.
#[derive(Debug, PartialEq, Eq, Structural, Clone, Copy)]
pub struct CurvePoint {
    pub temp: u8,
    pub value: u8,
    pub percent: bool,
}

/// Why a curve text or a curve was refused.
#[derive(Debug, PartialEq, Eq, Structural, Clone, Copy)]
pub enum CurveError {
    /// The text is not a list of `<temp>c:<value>[%]` separated by commas.
    Syntax,
    /// The curve holds no point.
    Empty,
    /// A temperature is not above the one before it.
    NotIncreasing,
    /// A percentage is above 100.
    PercentOutOfRange,
}

/// `<temp>c:<value>` with a trailing `%` for a percentage.
pub open spec fn point_text(p: CurvePoint) -> Seq<char> {
    dec(p.temp as nat) + seq!['c', ':'] + dec(p.value as nat) + (if p.percent { seq!['%'] } else {
        Seq::empty()
    })
}

/// The points' texts joined by commas.
pub open spec fn curve_text(c: Seq<CurvePoint>) -> Seq<char>
    decreases c.len(),
{
    if c.len() == 0 {
        Seq::empty()
    } else if c.len() == 1 {
        point_text(c[0])
    } else {
        curve_text(c.drop_last()) + seq![','] + point_text(c.last())
    }
}

pub open spec fn temps_increasing(c: Seq<CurvePoint>) -> bool {
    forall|i: int, j: int| 0 <= i < j < c.len() ==> c[i].temp < c[j].temp
}

pub open spec fn percents_in_range(c: Seq<CurvePoint>) -> bool {
    forall|i: int| 0 <= i < c.len() ==> (c[i].percent ==> c[i].value <= 100)
}

/// A curve that a fan may be given.
pub open spec fn valid_curve(c: Seq<CurvePoint>) -> bool {
    c.len() > 0 && temps_increasing(c) && percents_in_range(c)
}

pub open spec fn check_result(c: Seq<CurvePoint>) -> Result<(), CurveError> {
    if c.len() == 0 {
        Err(CurveError::Empty)
    } else if !temps_increasing(c) {
        Err(CurveError::NotIncreasing)
    } else if !percents_in_range(c) {
        Err(CurveError::PercentOutOfRange)
    } else {
        Ok(())
    }
}

/// Checks a curve before it may replace a profile's curve.
pub fn check_curve(c: &Vec<CurvePoint>) -> (r: Result<(), CurveError>)
    ensures
        r == check_result(c@),
        r is Ok <==> valid_curve(c@),
{
    if c.len() == 0 {
        return Err(CurveError::Empty);
    }
    let mut i: usize = 1;
    while i < c.len()
        invariant
            1 <= i <= c@.len(),
            temps_increasing(c@.subrange(0, i as int)),
        decreases c@.len() - i,
    {
        if c[i].temp <= c[i - 1].temp {
            assert(!temps_increasing(c@));
            return Err(CurveError::NotIncreasing);
        }
        assert(temps_increasing(c@.subrange(0, i + 1))) by {
            assert forall|a: int, b: int| 0 <= a < b < i + 1 implies c@[a].temp < c@[b].temp by {
                if b == i && a < i - 1 {
                    assert(c@.subrange(0, i as int)[a].temp < c@.subrange(0, i as int)[i - 1].temp);
                }
                if b < i {
                    assert(c@.subrange(0, i as int)[a].temp < c@.subrange(0, i as int)[b].temp);
                }
            }
        }
        i = i + 1;
    }
    assert(c@.subrange(0, c@.len() as int) =~= c@);
    let mut k: usize = 0;
    while k < c.len()
        invariant
            0 <= k <= c@.len(),
            temps_increasing(c@),
            forall|j: int| 0 <= j < k ==> (c@[j].percent ==> c@[j].value <= 100),
        decreases c@.len() - k,
    {
        if c[k].percent && c[k].value > 100 {
            return Err(CurveError::PercentOutOfRange);
        }
        k = k + 1;
    }
    Ok(())
}

/// Writes a curve in its compact text form, `30c:1%,49c:2%,59c:3%`.
pub fn format_curve(c: &Vec<CurvePoint>) -> (r: String)
    ensures
        r@ == curve_text(c@),
{
    let mut out: Vec<char> = Vec::new();
    let mut i: usize = 0;
    while i < c.len()
        invariant
            0 <= i <= c@.len(),
            out@ == curve_text(c@.subrange(0, i as int)),
        decreases c@.len() - i,
    {
        let ghost before = out@;
        if i > 0 {
            out.push(',');
        }
        let p = c[i];
        push_dec(&mut out, p.temp);
        out.push('c');
        out.push(':');
        push_dec(&mut out, p.value);
        if p.percent {
            out.push('%');
        }
        proof {
            let pre = c@.subrange(0, i as int);
            let post = c@.subrange(0, i + 1);
            assert(post.drop_last() =~= pre);
            assert(post.last() == p);
            if i == 0 {
                assert(out@ =~= point_text(p));
            } else {
                assert(out@ =~= before + seq![','] + point_text(p));
            }
        }
        i = i + 1;
    }
    assert(c@.subrange(0, c@.len() as int) =~= c@);
    string_from_chars(&out)
}

/// `point_text(p)` stands at `i` in `s`, followed by a comma or the end.
pub open spec fn point_at(s: Seq<char>, i: int, p: CurvePoint) -> bool {
    let e = i + point_text(p).len();
    &&& 0 <= i
    &&& e <= s.len()
    &&& s.subrange(i, e) == point_text(p)
    &&& (e == s.len() || s[e] == ',')
}

proof fn lemma_point_parts(s: Seq<char>, i: int, p: CurvePoint)
    requires
        point_at(s, i, p),
    ensures
        ({
            let a = i + dec(p.temp as nat).len();
            let b = a + 2 + dec(p.value as nat).len();
            &&& dec_at(s, i, p.temp as nat)
            &&& a + 2 <= s.len() && s[a] == 'c' && s[a + 1] == ':'
            &&& dec_at(s, a + 2, p.value as nat)
            &&& (p.percent ==> b < s.len() && s[b] == '%' && i + point_text(p).len() == b + 1)
            &&& (!p.percent ==> (b == s.len() || s[b] != '%') && i + point_text(p).len() == b)
        }),
{
    lemma_dec_facts(p.temp as nat);
    lemma_dec_facts(p.value as nat);
    let pt = point_text(p);
    let dt = dec(p.temp as nat);
    let dv = dec(p.value as nat);
    let lt: int = dt.len() as int;
    let lv: int = dv.len() as int;
    let a = i + dt.len();
    let b = a + 2 + dv.len();
    let e = i + pt.len();
    let t = s.subrange(i, e);
    assert(t.subrange(0, dt.len() as int) =~= s.subrange(i, a));
    assert(pt.subrange(0, dt.len() as int) =~= dt);
    assert(t[dt.len() as int] == 'c');
    assert(t[lt + 1] == ':');
    assert(pt.subrange(lt + 2, lt + 2 + lv) =~= dv);
    assert(t.subrange(lt + 2, lt + 2 + lv) =~= s.subrange(a + 2, b));
    if p.percent {
        assert(t[b - i] == '%');
    }
}

/// Reads one point that starts at `i`; returns it and the position after it.
fn read_point(s: &Vec<char>, i: usize) -> (r: Option<(CurvePoint, usize)>)
    requires
        i <= s@.len(),
    ensures
        r matches Some((p, j)) ==> i < j <= s@.len() && s@.subrange(i as int, j as int) == point_text(p),
        forall|p: CurvePoint| #[trigger] point_at(s@, i as int, p) ==> r == Some((p, (i + point_text(p).len()) as usize)),
{
    let ra = read_dec(s, i);
    proof {
        assert forall|p: CurvePoint| #[trigger] point_at(s@, i as int, p) implies ra == Some(
            (p.temp, (i + dec(p.temp as nat).len()) as usize),
        ) by {
            lemma_point_parts(s@, i as int, p);
        }
    }
    let (temp, a) = match ra {
        Some(x) => x,
        None => return None,
    };
    if s.len() - a < 2 || s[a] != 'c' || s[a + 1] != ':' {
        proof {
            assert forall|p: CurvePoint| #[trigger] point_at(s@, i as int, p) implies false by {
                lemma_point_parts(s@, i as int, p);
            }
        }
        return None;
    }
    let rb = read_dec(s, a + 2);
    proof {
        assert forall|p: CurvePoint| #[trigger] point_at(s@, i as int, p) implies rb == Some(
            (p.value, (a + 2 + dec(p.value as nat).len()) as usize),
        ) && p.temp == temp by {
            lemma_point_parts(s@, i as int, p);
        }
    }
    let (value, b) = match rb {
        Some(x) => x,
        None => return None,
    };
    let percent = b < s.len() && s[b] == '%';
    let j: usize = if percent { b + 1 } else { b };
    let p = CurvePoint { temp, value, percent };
    proof {
        let t = s@.subrange(i as int, j as int);
        if percent {
            assert(t =~= s@.subrange(i as int, a as int) + seq!['c', ':'] + s@.subrange(a + 2, b as int) + seq!['%']);
        } else {
            assert(t =~= s@.subrange(i as int, a as int) + seq!['c', ':'] + s@.subrange(a + 2, b as int) + Seq::empty());
        }
        assert forall|q: CurvePoint| #[trigger] point_at(s@, i as int, q) implies q == p && j == i + point_text(q).len() by {
            lemma_point_parts(s@, i as int, q);
        }
    }
    Some((p, j))
}

/// Where the text of point `k` of `c` begins in `curve_text(c)`.
pub open spec fn start_of(c: Seq<CurvePoint>, k: int) -> int {
    if k == 0 { 0 } else { curve_text(c.subrange(0, k)).len() + 1int }
}

proof fn lemma_text_split(c: Seq<CurvePoint>, k: int)
    requires
        0 <= k < c.len(),
    ensures
        point_at(curve_text(c), start_of(c, k), c[k]),
        start_of(c, k) + point_text(c[k]).len() == curve_text(c.subrange(0, k + 1)).len(),
        (k + 1 == c.len()) == (start_of(c, k) + point_text(c[k]).len() == curve_text(c).len()),
    decreases c.len(),
{
    let t = curve_text(c);
    let st = start_of(c, k);
    let pt = point_text(c[k]);
    if k == c.len() - 1 {
        assert(c.subrange(0, k + 1) =~= c);
        if k == 0 {
            assert(t.subrange(0, pt.len() as int) =~= pt);
        } else {
            assert(c.drop_last() =~= c.subrange(0, k));
            assert(t.subrange(st, st + pt.len()) =~= pt);
        }
    } else {
        let d = c.drop_last();
        lemma_text_split(d, k);
        assert(d.subrange(0, k) =~= c.subrange(0, k));
        assert(d.subrange(0, k + 1) =~= c.subrange(0, k + 1));
        assert(d[k] == c[k]);
        let td = curve_text(d);
        assert(t == td + seq![','] + point_text(c.last()));
        let e = st + pt.len();
        assert(t.subrange(st, e) =~= td.subrange(st, e));
        if e < td.len() {
            assert(t[e] == td[e]);
        } else {
            assert(t[e] == ',');
        }
    }
}

/// Reads the points of a curve text, without checking them as a curve.
pub fn parse_points(s: &str) -> (r: Result<Vec<CurvePoint>, CurveError>)
    ensures
        r matches Ok(c) ==> curve_text(c@) == s@ && c@.len() > 0,
        r matches Err(e) ==> e == CurveError::Syntax,
        forall|c: Seq<CurvePoint>| c.len() > 0 && #[trigger] curve_text(c) == s@ ==> (r matches Ok(d) && d@ == c),
{
    let cs = chars_of(s);
    let mut pts: Vec<CurvePoint> = Vec::new();
    let mut pos: usize = 0;
    loop
        invariant
            pos <= cs@.len(),
            cs@ == s@,
            pts@.len() == 0 ==> pos == 0,
            pts@.len() > 0 ==> cs@.subrange(0, pos as int) == curve_text(pts@) + seq![','],
            forall|c: Seq<CurvePoint>| c.len() > 0 && #[trigger] curve_text(c) == s@ ==> pts@.len() < c.len()
                && pts@ == c.subrange(0, pts@.len() as int),
        decreases cs@.len() - pos,
    {
        let rp = read_point(&cs, pos);
        proof {
            assert forall|c: Seq<CurvePoint>| c.len() > 0 && #[trigger] curve_text(c) == s@ implies rp == Some(
                (c[pts@.len() as int], (pos + point_text(c[pts@.len() as int]).len()) as usize),
            ) by {
                let k = pts@.len() as int;
                lemma_text_split(c, k);
                if k > 0 {
                    assert(cs@.subrange(0, pos as int).len() == pos);
                }
            }
        }
        let (p, j) = match rp {
            Some(x) => x,
            None => return Err(CurveError::Syntax),
        };
        let ghost prev = pts@;
        pts.push(p);
        proof {
            assert(pts@.drop_last() =~= prev);
            if prev.len() == 0 {
                assert(cs@.subrange(0, j as int) =~= cs@.subrange(pos as int, j as int));
            } else {
                assert(cs@.subrange(0, j as int) =~= cs@.subrange(0, pos as int) + cs@.subrange(pos as int, j as int));
            }
            assert(curve_text(pts@) == cs@.subrange(0, j as int));
        }
        proof {
            assert forall|c: Seq<CurvePoint>| c.len() > 0 && #[trigger] curve_text(c) == s@ implies pts@ == c.subrange(
                0,
                pts@.len() as int,
            ) && (pts@.len() == c.len()) == (j == cs@.len()) && (pts@.len() < c.len() ==> cs@[j as int] == ',') by {
                let k = prev.len() as int;
                lemma_text_split(c, k);
                assert(pts@ =~= c.subrange(0, k + 1));
            }
        }
        if j == cs.len() {
            assert(cs@.subrange(0, j as int) =~= cs@);
            proof {
                assert forall|c: Seq<CurvePoint>| c.len() > 0 && #[trigger] curve_text(c) == s@ implies pts@ == c by {
                    assert(c.subrange(0, c.len() as int) =~= c);
                }
            }
            return Ok(pts);
        }
        if cs[j] != ',' {
            return Err(CurveError::Syntax);
        }
        assert(cs@.subrange(0, j + 1) =~= cs@.subrange(0, j as int) + seq![',']);
        pos = j + 1;
    }
}

/// `r` is what reading `s` as a curve gives: a syntax error where `s` is the
/// text of no curve, else the one curve it is the text of, or that curve's
/// check error.
pub open spec fn parse_outcome(s: Seq<char>, r: Result<Vec<CurvePoint>, CurveError>) -> bool {
    &&& (r matches Ok(c) ==> curve_text(c@) == s && valid_curve(c@))
    &&& ((forall|c: Seq<CurvePoint>| c.len() > 0 ==> #[trigger] curve_text(c) != s) ==> r == Err::<
        Vec<CurvePoint>,
        CurveError,
    >(CurveError::Syntax))
    &&& forall|c: Seq<CurvePoint>| c.len() > 0 && #[trigger] curve_text(c) == s ==> match check_result(c) {
        Ok(_) => r matches Ok(d) && d@ == c,
        Err(e) => r == Err::<Vec<CurvePoint>, CurveError>(e),
    }
}

/// Parses a curve text and checks it: temperatures strictly increasing,
/// percentages at most 100. Formatting the result gives back `s`.
pub fn parse_curve(s: &str) -> (r: Result<Vec<CurvePoint>, CurveError>)
    ensures
        parse_outcome(s@, r),
{
    let pts = match parse_points(s) {
        Ok(p) => p,
        Err(e) => return Err(e),
    };
    match check_curve(&pts) {
        Ok(()) => Ok(pts),
        Err(e) => Err(e),
    }
}

/// Round-trip law: formatting what a parse accepted gives back the parsed
/// text; the text of a valid curve parses back to that very curve; a curve
/// whose temperatures do not strictly increase is refused.
pub proof fn lemma_curve_round_trip(s: Seq<char>, r: Result<Vec<CurvePoint>, CurveError>, c: Seq<CurvePoint>)
    requires
        parse_outcome(s, r),
    ensures
        r matches Ok(d) ==> curve_text(d@) == s,
        c.len() > 0 && curve_text(c) == s && valid_curve(c) ==> (r matches Ok(d) && d@ == c),
        c.len() > 0 && curve_text(c) == s && !temps_increasing(c) ==> r == Err::<Vec<CurvePoint>, CurveError>(
            CurveError::NotIncreasing,
        ),
{
    if c.len() > 0 && curve_text(c) == s {
        assert(curve_text(c) == s);
    }
}

} // verus!
