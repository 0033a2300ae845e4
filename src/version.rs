use vstd::prelude::*;
use crate::error::ZinharoError;
use crate::protocol::{classify, status_meaning, Endpoint};

verus! {

/// An ASCII decimal digit.
pub open spec fn is_digit(c: char) -> bool {
    '0' <= c && c <= '9'
}

pub open spec fn all_digits(s: Seq<char>) -> bool {
    forall|i: int| 0 <= i < s.len() ==> #[trigger] is_digit(s[i])
}

/// The number written by a sequence of decimal digits, most significant first.
pub open spec fn digits_value(s: Seq<char>) -> int
    decreases s.len(),
{
    if s.len() == 0 {
        0
    } else {
        digits_value(s.drop_last()) * 10 + (s.last() as int - '0' as int)
    }
}

/// The `i32` that a field denotes: an optional `+` or `-`, then at least one
/// decimal digit, with a value inside the range of `i32`.
pub open spec fn integer_value(s: Seq<char>) -> Option<int> {
    let signed = s.len() > 0 && (s[0] == '+' || s[0] == '-');
    let body = if signed { s.drop_first() } else { s };
    let magnitude = digits_value(body);
    let v = if signed && s[0] == '-' { -magnitude } else { magnitude };
    if body.len() > 0 && all_digits(body) && i32::MIN <= v <= i32::MAX {
        Some(v)
    } else {
        None
    }
}

/// The pieces of `s` between dots, in order (one piece when there is no dot).
pub open spec fn fields(s: Seq<char>) -> Seq<Seq<char>>
    decreases s.len(),
{
    if s.len() == 0 {
        seq![Seq::empty()]
    } else {
        let f = fields(s.drop_last());
        if s.last() == '.' {
            f.push(Seq::empty())
        } else {
            f.update(f.len() - 1, f.last().push(s.last()))
        }
    }
}

/// A version string is well formed when it has at least three dotted fields
/// and every field is an `i32`; the first three give major, minor and patch.
pub open spec fn well_formed_version(s: Seq<char>) -> bool {
    let f = fields(s);
    f.len() >= 3 && forall|i: int| 0 <= i < f.len() ==> (#[trigger] integer_value(f[i])) is Some
}

pub open spec fn field_value(s: Seq<char>, i: int) -> int {
    integer_value(fields(s)[i])->0
}

/// A version meets a required one when each of its components is at least the required one.
pub open spec fn meets(v: Version, required: Version) -> bool {
    v.major >= required.major && v.minor >= required.minor && v.patch >= required.patch
}

proof fn lemma_fields_nonempty(s: Seq<char>)
    ensures
        fields(s).len() >= 1,
    decreases s.len(),
{
    if s.len() > 0 {
        lemma_fields_nonempty(s.drop_last());
    }
}

proof fn lemma_digits_value_nonneg(s: Seq<char>)
    requires
        all_digits(s),
    ensures
        digits_value(s) >= 0,
    decreases s.len(),
{
    if s.len() > 0 {
        assert(is_digit(s[s.len() - 1]));
        lemma_digits_value_nonneg(s.drop_last());
    }
}

/// A number grows (or stays) as digits are appended.
proof fn lemma_digits_value_prefix(s: Seq<char>, k: int)
    requires
        all_digits(s),
        0 <= k <= s.len(),
    ensures
        digits_value(s) >= digits_value(s.take(k)),
    decreases s.len(),
{
    if k < s.len() {
        let d = s.drop_last();
        assert(d.take(k) =~= s.take(k));
        assert(is_digit(s[s.len() - 1]));
        lemma_digits_value_prefix(d, k);
        lemma_digits_value_nonneg(d);
    } else {
        assert(s.take(k) =~= s);
    }
}

/// Reads one dotted field as an `i32`.
fn parse_field(f: &Vec<char>) -> (r: Option<i32>)
    ensures
        r is Some <==> integer_value(f@) is Some,
        r is Some ==> r->0 as int == integer_value(f@)->0,
{
    let n = f.len();
    let signed = n > 0 && (f[0] == '+' || f[0] == '-');
    let negative = signed && f[0] == '-';
    let start: usize = if signed { 1 } else { 0 };
    let ghost body = if signed { f@.drop_first() } else { f@ };
    if start >= n {
        return None;
    }
    let mut acc: i64 = 0;
    let mut i: usize = start;
    while i < n
        invariant
            start <= i <= n,
            n == f@.len(),
            body == f@.subrange(start as int, n as int),
            signed == (f@.len() > 0 && (f@[0] == '+' || f@[0] == '-')),
            negative == (signed && f@[0] == '-'),
            start == (if signed { 1usize } else { 0usize }),
            body == (if signed { f@.drop_first() } else { f@ }),
            all_digits(body.take(i - start)),
            acc as int == digits_value(body.take(i - start)),
            0 <= acc <= 2147483648,
        decreases n - i,
    {
        let c = f[i];
        if !('0' <= c && c <= '9') {
            proof {
                assert(body[i - start] == c);
                assert(!is_digit(body[i - start]));
            }
            return None;
        }
        let d = (c as u32 - '0' as u32) as i64;
        proof {
            assert(body.take(i - start + 1).drop_last() =~= body.take(i - start));
            assert(body.take(i - start + 1).last() == c);
            assert(d as int == c as int - '0' as int);
        }
        acc = acc * 10 + d;
        if acc > 2147483648 {
            proof {
                assert forall|j: int| 0 <= j < i - start + 1 implies #[trigger] is_digit(
                    body.take(i - start + 1)[j],
                ) by {
                    if j < i - start {
                        assert(body.take(i - start + 1)[j] == body.take(i - start)[j]);
                    }
                }
                if all_digits(body) {
                    lemma_digits_value_prefix(body, i - start + 1);
                }
            }
            return None;
        }
        proof {
            assert forall|j: int| 0 <= j < i - start + 1 implies #[trigger] is_digit(
                body.take(i - start + 1)[j],
            ) by {
                if j < i - start {
                    assert(body.take(i - start + 1)[j] == body.take(i - start)[j]);
                }
            }
        }
        i = i + 1;
    }
    proof {
        assert(body.take(n - start) =~= body);
    }
    if negative {
        Some((-acc) as i32)
    } else if acc <= 2147483647 {
        Some(acc as i32)
    } else {
        None
    }
}

/// Splits `s` at every dot.
fn split_fields(s: &str) -> (r: Vec<Vec<char>>)
    ensures
        r@.len() == fields(s@).len(),
        forall|i: int| 0 <= i < r@.len() ==> (#[trigger] r@[i])@ == fields(s@)[i],
{
    let n = s.unicode_len();
    let mut done: Vec<Vec<char>> = Vec::new();
    let mut cur: Vec<char> = Vec::new();
    let mut i: usize = 0;
    while i < n
        invariant
            i <= n,
            n == s@.len(),
            done@.len() + 1 == fields(s@.take(i as int)).len(),
            forall|j: int| 0 <= j < done@.len() ==> (#[trigger] done@[j])@ == fields(
                s@.take(i as int),
            )[j],
            cur@ == fields(s@.take(i as int)).last(),
        decreases n - i,
    {
        let c = s.get_char(i);
        proof {
            assert(s@.take(i + 1).drop_last() =~= s@.take(i as int));
            lemma_fields_nonempty(s@.take(i as int));
        }
        if c == '.' {
            done.push(cur);
            cur = Vec::new();
            proof {
                assert(cur@ =~= Seq::<char>::empty());
            }
        } else {
            cur.push(c);
        }
        i = i + 1;
    }
    done.push(cur);
    proof {
        assert(s@.take(n as int) =~= s@);
    }
    done
}

/// A three-part version number, compared component by component.
#[derive(Debug, Clone, Copy, PartialEq, Eq, Structural)]
pub struct Version {
    /// `3` of **3**.5.2
    pub major: i32,
    /// `5` of 3.**5**.2
    pub minor: i32,
    /// `2` of 3.5.**2**
    pub patch: i32,
}

impl Version {
    /// Reads a version such as `2.4.23`; `None` when the string is not a
    /// well-formed version.
    pub fn parse(ver_str: &str) -> (r: Option<Version>)
        ensures
            r is Some <==> well_formed_version(ver_str@),
            r is Some ==> {
                &&& r->0.major as int == field_value(ver_str@, 0)
                &&& r->0.minor as int == field_value(ver_str@, 1)
                &&& r->0.patch as int == field_value(ver_str@, 2)
            },
    {
        let parts = split_fields(ver_str);
        let ghost f = fields(ver_str@);
        let mut values: Vec<i32> = Vec::new();
        let mut i: usize = 0;
        while i < parts.len()
            invariant
                i <= parts@.len(),
                parts@.len() == f.len(),
                f == fields(ver_str@),
                forall|j: int| 0 <= j < parts@.len() ==> (#[trigger] parts@[j])@ == f[j],
                values@.len() == i,
                forall|j: int| 0 <= j < i ==> (#[trigger] integer_value(f[j])) is Some,
                forall|j: int| 0 <= j < i ==> values@[j] as int == integer_value(f[j])->0,
            decreases parts@.len() - i,
        {
            match parse_field(&parts[i]) {
                Some(v) => {
                    values.push(v);
                },
                None => {
                    assert(integer_value(f[i as int]) is None);
                    return None;
                },
            }
            i = i + 1;
        }
        if values.len() < 3 {
            return None;
        }
        Some(Version { major: values[0], minor: values[1], patch: values[2] })
    }

    /// Reads a version such as `2.4.23`, which must be well formed.
    pub fn from_str(ver_str: &str) -> (r: Self)
        requires
            well_formed_version(ver_str@),
        ensures
            r.major as int == field_value(ver_str@, 0),
            r.minor as int == field_value(ver_str@, 1),
            r.patch as int == field_value(ver_str@, 2),
    {
        match Version::parse(ver_str) {
            Some(v) => v,
            None => Version { major: 0, minor: 0, patch: 0 },
        }
    }

    /// True when `self` is inadequate against the required version `compare`:
    /// that is, unless every one of major, minor and patch is at least the
    /// required one (a larger major does not excuse a smaller patch).
    pub fn compare_versions(&self, compare: &Version) -> (r: bool)
        ensures
            r == !meets(*self, *compare),
            r == !(self.major >= compare.major && self.minor >= compare.minor && self.patch
                >= compare.patch),
    {
        if self.major >= compare.major {
            if self.minor >= compare.minor {
                if self.patch >= compare.patch {
                    return false;
                }
            }
        }
        true
    }
}

/// The version of this client, held against the coordinator's minimum.
pub open spec fn client_version_spec() -> Version {
    Version { major: 0, minor: 0, patch: 1 }
}

/// The version of this client, held against the coordinator's minimum.
pub fn client_version() -> (r: Version)
    ensures
        r == client_version_spec(),
{
    Version { major: 0, minor: 0, patch: 1 }
}

impl Version {
    /// The minimum version from the version endpoint's answer: its status,
    /// and on 200 the version string of its body. 403 means a firewall or CDN
    /// blocks this client; a malformed string is `InvalidResponse`.
    pub fn from_resp(status: u16, min_version: &str) -> (r: Result<Version, ZinharoError>)
        ensures
            status == 200 && well_formed_version(min_version@) <==> r is Ok,
            r is Ok ==> {
                &&& r->Ok_0.major as int == field_value(min_version@, 0)
                &&& r->Ok_0.minor as int == field_value(min_version@, 1)
                &&& r->Ok_0.patch as int == field_value(min_version@, 2)
            },
            status == 200 && !well_formed_version(min_version@) ==> r matches Err(
                ZinharoError::InvalidResponse,
            ),
            status != 200 ==> r is Err && r->Err_0 == status_meaning(Endpoint::MinVersion, status)->Err_0,
    {
        match classify(Endpoint::MinVersion, status) {
            Err(e) => Err(e),
            Ok(()) => match Version::parse(min_version) {
                Some(v) => Ok(v),
                None => Err(ZinharoError::InvalidResponse),
            },
        }
    }
}

/// The version gate, run before every login and signup, on the version
/// endpoint's answer: the errors of `Version::from_resp`, then
/// `ApiVersionInadequate` unless this client meets the minimum version.
pub fn err_min_version(status: u16, min_version: &str) -> (r: Result<(), ZinharoError>)
    ensures
        status != 200 ==> r == status_meaning(Endpoint::MinVersion, status),
        status == 200 && !well_formed_version(min_version@) ==> r matches Err(
            ZinharoError::InvalidResponse,
        ),
        status == 200 && well_formed_version(min_version@) ==> {
            &&& r is Ok <==> meets(
                client_version_spec(),
                Version {
                    major: field_value(min_version@, 0) as i32,
                    minor: field_value(min_version@, 1) as i32,
                    patch: field_value(min_version@, 2) as i32,
                },
            )
            &&& r is Err ==> r matches Err(ZinharoError::ApiVersionInadequate)
        },
{
    let required = match Version::from_resp(status, min_version) {
        Ok(v) => v,
        Err(e) => {
            return Err(e);
        },
    };
    if client_version().compare_versions(&required) {
        Err(ZinharoError::ApiVersionInadequate)
    } else {
        Ok(())
    }
}

} // verus!
