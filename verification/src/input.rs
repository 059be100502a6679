//! Input-assignment files.
//!
//! Whoever holds the witness (for Prove) or the public inputs (for
//! Verify) supplies a plaintext, line-oriented file mapping each
//! variable name to a field-element literal: one `name value` pair per
//! line, names starting with a letter or underscore, values in decimal.
//! Empty lines are skipped.  A field element exceeds any machine word,
//! so a value is kept verbatim as its digit string; range reduction
//! belongs to the backend that knows the field.  Parsing is exact: a
//! file parses if and only if every nonempty line is such a pair, and
//! the bindings come back in file order.

use vstd::prelude::*;

verus! {

/// One parsed binding: a variable name and its field-element literal,
/// kept as its decimal digit string.
#[derive(Clone, Debug, PartialEq, Eq)]
pub struct Binding {
    pub name: Vec<u8>,
    pub value: Vec<u8>,
}

/// Why an input-assignment file was rejected.
#[derive(Clone, Copy, Debug, PartialEq, Eq, Structural)]
pub enum InputError {
    /// Some nonempty line is not a well-formed `name value` pair.
    Malformed,
}

/// The first index at which byte `t` occurs in `s`, or `s.len()`.
pub open spec fn scan(s: Seq<u8>, t: u8) -> int
    decreases s.len(),
{
    if s.len() == 0 {
        0
    } else if s[0] == t {
        0
    } else {
        1 + scan(s.skip(1), t)
    }
}

/// A byte that may start a variable name.
pub open spec fn is_name_start(b: u8) -> bool {
    (65 <= b <= 90) || (97 <= b <= 122) || b == 95
}

/// A byte that may continue a variable name.
pub open spec fn is_name_byte(b: u8) -> bool {
    is_name_start(b) || is_digit(b)
}

/// A decimal digit.
pub open spec fn is_digit(b: u8) -> bool {
    48 <= b <= 57
}

/// A well-formed variable name: nonempty, a letter or underscore
/// first, letters, digits and underscores after.
pub open spec fn valid_name(s: Seq<u8>) -> bool {
    s.len() > 0 && is_name_start(s[0]) && forall|j: int|
        0 <= j < s.len() ==> is_name_byte(#[trigger] s[j])
}

/// A well-formed value literal: nonempty, all decimal digits.  No
/// upper bound: field-element literals are arbitrary-precision.
pub open spec fn valid_value(s: Seq<u8>) -> bool {
    s.len() > 0 && (forall|j: int| 0 <= j < s.len() ==> is_digit(#[trigger] s[j]))
}

/// What one nonempty line denotes: the name before the first space and
/// the digit string after it, if both are well formed.
pub open spec fn parse_line(s: Seq<u8>) -> Option<(Seq<u8>, Seq<u8>)> {
    let i = scan(s, 32);
    if i == s.len() {
        None
    } else {
        let name = s.take(i);
        let val = s.skip(i + 1);
        if valid_name(name) && valid_value(val) {
            Some((name, val))
        } else {
            None
        }
    }
}

/// `scan` never passes the end of the byte string.
pub proof fn lemma_scan_bounds(s: Seq<u8>, t: u8)
    ensures
        0 <= scan(s, t) <= s.len(),
    decreases s.len(),
{
    if s.len() > 0 && s[0] != t {
        lemma_scan_bounds(s.skip(1), t);
    }
}

#[via_fn]
proof fn parse_all_decreases(s: Seq<u8>) {
    lemma_scan_bounds(s, 10);
}

/// What a whole file denotes: the bindings of its nonempty lines, in
/// order, or nothing if any nonempty line is malformed.
pub open spec fn parse_all(s: Seq<u8>) -> Option<Seq<(Seq<u8>, Seq<u8>)>>
    decreases s.len(),
    via parse_all_decreases
{
    if s.len() == 0 {
        Some(Seq::empty())
    } else {
        let l = scan(s, 10);
        let line = s.take(l);
        let rest = if l == s.len() {
            Seq::<u8>::empty()
        } else {
            s.skip(l + 1)
        };
        if line.len() == 0 {
            parse_all(rest)
        } else {
            match parse_line(line) {
                None => None,
                Some(b) => match parse_all(rest) {
                    None => None,
                    Some(bs) => Some(seq![b] + bs),
                },
            }
        }
    }
}

/// The name/value pairs a sequence of bindings stands for.
pub open spec fn models(bs: Seq<Binding>) -> Seq<(Seq<u8>, Seq<u8>)> {
    bs.map_values(|b: Binding| (b.name@, b.value@))
}

/// `scan` returns the position whose prefix is free of the byte and
/// which holds the byte itself unless it is the length.
pub proof fn lemma_scan_at(s: Seq<u8>, t: u8, m: int)
    requires
        0 <= m <= s.len(),
        forall|k: int| 0 <= k < m ==> #[trigger] s[k] != t,
        m < s.len() ==> s[m] == t,
    ensures
        scan(s, t) == m,
    decreases s.len(),
{
    if s.len() == 0 {
    } else if s[0] == t {
        assert(m == 0);
    } else {
        assert(m >= 1);
        let s1 = s.skip(1);
        assert forall|k: int| 0 <= k < m - 1 implies #[trigger] s1[k] != t by {
            assert(s1[k] == s[k + 1]);
        }
        assert(m - 1 < s1.len() ==> s1[m - 1] == t);
        lemma_scan_at(s1, t, m - 1);
    }
}

/// Parses one line, the bytes from `start` to `end`.
#[verifier::loop_isolation(false)]
fn parse_line_exec(bytes: &Vec<u8>, start: usize, end: usize) -> (r: Option<Binding>)
    requires
        start <= end <= bytes@.len(),
    ensures
        match r {
            Some(b) => parse_line(bytes@.subrange(start as int, end as int)) == Some(
                (b.name@, b.value@),
            ),
            None => parse_line(bytes@.subrange(start as int, end as int)) is None,
        },
{
    let ghost line = bytes@.subrange(start as int, end as int);
    let mut p: usize = start;
    while p < end && bytes[p] != 32
        invariant
            start <= p <= end <= bytes@.len(),
            forall|k: int| start <= k < p ==> #[trigger] bytes@[k] != 32,
        decreases end - p,
    {
        p = p + 1;
    }
    proof {
        assert forall|k: int| 0 <= k < p - start implies #[trigger] line[k] != 32 by {
            assert(line[k] == bytes@[start + k]);
        }
        lemma_scan_at(line, 32, p - start as int);
    }
    if p == end {
        return None;
    }
    let ghost name_spec = line.take(p - start as int);
    let ghost val_spec = line.skip(p - start + 1);
    proof {
        assert(name_spec =~= bytes@.subrange(start as int, p as int));
        assert(val_spec =~= bytes@.subrange(p + 1, end as int));
    }
    if p == start {
        assert(!valid_name(name_spec));
        return None;
    }
    let b0 = bytes[start];
    if !((65 <= b0 && b0 <= 90) || (97 <= b0 && b0 <= 122) || b0 == 95) {
        assert(!is_name_start(name_spec[0]));
        return None;
    }
    let mut k: usize = start;
    while k < p
        invariant
            start <= k <= p <= end <= bytes@.len(),
            forall|j: int| start <= j < k ==> is_name_byte(#[trigger] bytes@[j]),
        decreases p - k,
    {
        let b = bytes[k];
        if !((65 <= b && b <= 90) || (97 <= b && b <= 122) || b == 95 || (48 <= b && b <= 57)) {
            proof {
                assert(name_spec[k - start as int] == bytes@[k as int]);
                assert(!valid_name(name_spec));
            }
            return None;
        }
        k = k + 1;
    }
    proof {
        assert forall|j: int| 0 <= j < name_spec.len() implies is_name_byte(
            #[trigger] name_spec[j],
        ) by {
            assert(name_spec[j] == bytes@[start + j]);
        }
        assert(valid_name(name_spec));
    }
    if p + 1 == end {
        assert(!valid_value(val_spec));
        return None;
    }
    let mut q: usize = p + 1;
    while q < end
        invariant
            p + 1 <= q <= end <= bytes@.len(),
            forall|j: int| p + 1 <= j < q ==> is_digit(#[trigger] bytes@[j]),
        decreases end - q,
    {
        let b = bytes[q];
        if !(48 <= b && b <= 57) {
            proof {
                assert(val_spec[q - (p + 1) as int] == bytes@[q as int]);
                assert(!valid_value(val_spec));
            }
            return None;
        }
        q = q + 1;
    }
    proof {
        assert forall|j: int| 0 <= j < val_spec.len() implies is_digit(#[trigger] val_spec[j]) by {
            assert(val_spec[j] == bytes@[p + 1 + j]);
        }
        assert(valid_value(val_spec));
    }
    let mut name: Vec<u8> = Vec::new();
    let mut n: usize = start;
    while n < p
        invariant
            start <= n <= p <= bytes@.len(),
            name@ == bytes@.subrange(start as int, n as int),
        decreases p - n,
    {
        let byte = bytes[n];
        proof {
            assert(bytes@.subrange(start as int, n as int).push(bytes@[n as int])
                =~= bytes@.subrange(start as int, n + 1));
        }
        name.push(byte);
        n = n + 1;
    }
    let mut value: Vec<u8> = Vec::new();
    let mut m: usize = p + 1;
    while m < end
        invariant
            p + 1 <= m <= end <= bytes@.len(),
            value@ == bytes@.subrange(p + 1, m as int),
        decreases end - m,
    {
        let byte = bytes[m];
        proof {
            assert(bytes@.subrange(p + 1, m as int).push(bytes@[m as int]) =~= bytes@.subrange(
                p + 1,
                m + 1,
            ));
        }
        value.push(byte);
        m = m + 1;
    }
    proof {
        assert(name@ =~= name_spec);
        assert(value@ =~= val_spec);
    }
    Some(Binding { name, value })
}

/// Parses a whole input-assignment file.  Succeeds exactly when every
/// nonempty line is a well-formed `name value` pair, and then returns
/// the denoted bindings in file order.
#[verifier::loop_isolation(false)]
pub fn parse_assignment(bytes: &Vec<u8>) -> (r: Result<Vec<Binding>, InputError>)
    ensures
        r is Ok <==> parse_all(bytes@) is Some,
        match r {
            Ok(bs) => Some(models(bs@)) == parse_all(bytes@),
            Err(e) => e == InputError::Malformed,
        },
{
    let mut acc: Vec<Binding> = Vec::new();
    let mut pos: usize = 0;
    proof {
        assert(bytes@.skip(0) =~= bytes@);
        assert(models(acc@) =~= Seq::<(Seq<u8>, Seq<u8>)>::empty());
    }
    while pos < bytes.len()
        invariant
            pos <= bytes@.len(),
            parse_all(bytes@) == match parse_all(bytes@.skip(pos as int)) {
                None => None::<Seq<(Seq<u8>, Seq<u8>)>>,
                Some(rest) => Some(models(acc@) + rest),
            },
        decreases bytes@.len() - pos,
    {
        let ghost tail = bytes@.skip(pos as int);
        let mut j: usize = pos;
        while j < bytes.len() && bytes[j] != 10
            invariant
                pos <= j <= bytes@.len(),
                forall|k: int| pos <= k < j ==> #[trigger] bytes@[k] != 10,
            decreases bytes@.len() - j,
        {
            j = j + 1;
        }
        proof {
            assert forall|k: int| 0 <= k < j - pos implies #[trigger] tail[k] != 10 by {
                assert(tail[k] == bytes@[pos + k]);
            }
            lemma_scan_at(tail, 10, j - pos as int);
            assert(tail.take(j - pos as int) =~= bytes@.subrange(pos as int, j as int));
        }
        let next: usize = if j == bytes.len() {
            proof {
                assert(Seq::<u8>::empty() =~= bytes@.skip(bytes@.len() as int));
            }
            bytes.len()
        } else {
            proof {
                assert(tail.skip(j - pos + 1) =~= bytes@.skip(j + 1));
            }
            j + 1
        };
        if j == pos {
            // empty line: the tail's parse is its rest's parse
            pos = next;
        } else {
            match parse_line_exec(bytes, pos, j) {
                None => {
                    assert(parse_all(bytes@) is None);
                    return Err(InputError::Malformed);
                },
                Some(b) => {
                    let ghost bm = (b.name@, b.value@);
                    proof {
                        assert(models(acc@.push(b)) =~= models(acc@).push(bm));
                        if parse_all(bytes@.skip(next as int)) is Some {
                            let rest = parse_all(bytes@.skip(next as int))->Some_0;
                            assert(models(acc@) + (seq![bm] + rest) =~= models(acc@.push(b))
                                + rest);
                        }
                    }
                    acc.push(b);
                    pos = next;
                },
            }
        }
    }
    proof {
        assert(bytes@.skip(pos as int) =~= Seq::<u8>::empty());
        assert(models(acc@) + Seq::<(Seq<u8>, Seq<u8>)>::empty() =~= models(acc@));
    }
    Ok(acc)
}

} // verus!
