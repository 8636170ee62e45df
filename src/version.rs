use core::cmp::Ordering;
use vstd::prelude::*;

verus! {

/// What a version is, as plain values.
pub struct SemVer {
    pub major: u64,
    pub minor: u64,
    pub patch: u64,
    pub pre: Seq<char>,
    pub build: Seq<char>,
}

pub open spec fn is_digit(c: char) -> bool {
    '0' <= c && c <= '9'
}

pub open spec fn is_ident_char(c: char) -> bool {
    is_digit(c) || ('a' <= c && c <= 'z') || ('A' <= c && c <= 'Z') || c == '-'
}

pub open spec fn all_digits(s: Seq<char>) -> bool {
    forall|i: int| 0 <= i < s.len() ==> is_digit(#[trigger] s[i])
}

/// The dot-separated fields of `s`; a text without dots is one field.
pub open spec fn fields(s: Seq<char>) -> Seq<Seq<char>>
    decreases s.len(),
{
    if s.len() == 0 {
        seq![Seq::<char>::empty()]
    } else {
        let r = fields(s.drop_last());
        if s.last() == '.' {
            r.push(Seq::<char>::empty())
        } else {
            r.update(r.len() - 1, r.last().push(s.last()))
        }
    }
}

/// Non-empty, made of identifier characters and dots, and no field is empty.
pub open spec fn dotted_identifiers(s: Seq<char>) -> bool {
    &&& s.len() > 0
    &&& forall|i: int| 0 <= i < s.len() ==> is_ident_char(#[trigger] s[i]) || s[i] == '.'
    &&& forall|j: int| 0 <= j < fields(s).len() ==> (#[trigger] fields(s)[j]).len() > 0
}

/// A numeric pre-release field has no leading zero.
pub open spec fn no_leading_zero(f: Seq<char>) -> bool {
    !(f.len() > 1 && all_digits(f) && f[0] == '0')
}

/// A pre-release tag: empty, or dotted identifiers whose numeric fields have no leading zero.
pub open spec fn pre_valid(s: Seq<char>) -> bool {
    s.len() == 0 || (dotted_identifiers(s) && forall|j: int|
        0 <= j < fields(s).len() ==> no_leading_zero(#[trigger] fields(s)[j]))
}

/// Build metadata: empty, or dotted identifiers.
pub open spec fn build_valid(s: Seq<char>) -> bool {
    s.len() == 0 || dotted_identifiers(s)
}

pub open spec fn semver_valid(v: SemVer) -> bool {
    pre_valid(v.pre) && build_valid(v.build)
}

pub open spec fn digit_char(d: nat) -> char {
    if d == 0 {
        '0'
    } else if d == 1 {
        '1'
    } else if d == 2 {
        '2'
    } else if d == 3 {
        '3'
    } else if d == 4 {
        '4'
    } else if d == 5 {
        '5'
    } else if d == 6 {
        '6'
    } else if d == 7 {
        '7'
    } else if d == 8 {
        '8'
    } else {
        '9'
    }
}

/// The decimal digits of `n`, without leading zeros.
pub open spec fn dec(n: nat) -> Seq<char>
    decreases n,
{
    if n < 10 {
        seq![digit_char(n)]
    } else {
        dec(n / 10).push(digit_char(n % 10))
    }
}

pub open spec fn tag(sep: char, s: Seq<char>) -> Seq<char> {
    if s.len() == 0 {
        Seq::<char>::empty()
    } else {
        seq![sep] + s
    }
}

/// The text of a version: `MAJOR.MINOR.PATCH[-PRE][+BUILD]`.
pub open spec fn version_text(v: SemVer) -> Seq<char> {
    dec(v.major as nat) + (seq!['.'] + (dec(v.minor as nat) + (seq!['.'] + (dec(v.patch as nat) + (
    tag('-', v.pre) + tag('+', v.build))))))
}

/// `s` is the text of some valid version.
pub open spec fn is_version_text(s: Seq<char>) -> bool {
    exists|v: SemVer| semver_valid(v) && #[trigger] version_text(v) == s
}

/// The version whose text is `s` (meaningful where `is_version_text(s)`).
pub open spec fn version_of(s: Seq<char>) -> SemVer {
    choose|v: SemVer| semver_valid(v) && #[trigger] version_text(v) == s
}

pub open spec fn cmp_nat(a: nat, b: nat) -> Ordering {
    if a < b {
        Ordering::Less
    } else if a > b {
        Ordering::Greater
    } else {
        Ordering::Equal
    }
}

/// Character-by-character order, a proper prefix first.
pub open spec fn lex_order(x: Seq<char>, y: Seq<char>) -> Ordering
    decreases x.len(),
{
    if x.len() == 0 {
        if y.len() == 0 {
            Ordering::Equal
        } else {
            Ordering::Less
        }
    } else if y.len() == 0 {
        Ordering::Greater
    } else if x[0] < y[0] {
        Ordering::Less
    } else if x[0] > y[0] {
        Ordering::Greater
    } else {
        lex_order(x.drop_first(), y.drop_first())
    }
}

/// How two pre-release fields rank: numeric ones by value (by length, then
/// digit by digit, as they have no leading zero), below alphanumeric ones,
/// which rank by ASCII order.
pub open spec fn field_order(x: Seq<char>, y: Seq<char>) -> Ordering {
    if all_digits(x) && all_digits(y) {
        if x.len() != y.len() {
            cmp_nat(x.len(), y.len())
        } else {
            lex_order(x, y)
        }
    } else if all_digits(x) {
        Ordering::Less
    } else if all_digits(y) {
        Ordering::Greater
    } else {
        lex_order(x, y)
    }
}

/// Field by field; where one list is a prefix of the other, the longer ranks higher.
pub open spec fn fields_order(xs: Seq<Seq<char>>, ys: Seq<Seq<char>>) -> Ordering
    decreases xs.len(),
{
    if xs.len() == 0 {
        if ys.len() == 0 {
            Ordering::Equal
        } else {
            Ordering::Less
        }
    } else if ys.len() == 0 {
        Ordering::Greater
    } else if field_order(xs[0], ys[0]) != Ordering::Equal {
        field_order(xs[0], ys[0])
    } else {
        fields_order(xs.drop_first(), ys.drop_first())
    }
}

/// How two pre-release tags rank: equal tags alike, a release (no tag) above
/// any pre-release.
pub open spec fn pre_precedence(a: Seq<char>, b: Seq<char>) -> Ordering {
    if a == b {
        Ordering::Equal
    } else if a.len() == 0 {
        Ordering::Greater
    } else if b.len() == 0 {
        Ordering::Less
    } else {
        fields_order(fields(a), fields(b))
    }
}

pub open spec fn cmp_u64(a: u64, b: u64) -> Ordering {
    if a < b {
        Ordering::Less
    } else if a > b {
        Ordering::Greater
    } else {
        Ordering::Equal
    }
}

/// Semantic-version precedence: major, minor and patch numerically, then the
/// pre-release tag (a release ranks above its pre-releases); build metadata is ignored.
pub open spec fn precedence(a: SemVer, b: SemVer) -> Ordering {
    if a.major != b.major {
        cmp_u64(a.major, b.major)
    } else if a.minor != b.minor {
        cmp_u64(a.minor, b.minor)
    } else if a.patch != b.patch {
        cmp_u64(a.patch, b.patch)
    } else {
        pre_precedence(a.pre, b.pre)
    }
}

/// `a` ranks strictly before `b`.
pub open spec fn precedes(a: SemVer, b: SemVer) -> bool {
    precedence(a, b) == Ordering::Less
}

/// A semantic version.
#[derive(Debug)]
pub struct Version {
    pub major: u64,
    pub minor: u64,
    pub patch: u64,
    pub pre: String,
    pub build: String,
}

impl View for Version {
    type V = SemVer;

    open spec fn view(&self) -> SemVer {
        SemVer {
            major: self.major,
            minor: self.minor,
            patch: self.patch,
            pre: self.pre@,
            build: self.build@,
        }
    }
}

/// Why a text is not a version.
#[derive(Debug, PartialEq, Eq, Structural)]
pub enum VersionError {
    NotSemver,
}

#[verifier::external_type_specification]
#[verifier::external_body]
pub struct ExSemverError(semver::Error);

/// Relies on semver::Version::parse, which accepts exactly the texts
/// `MAJOR.MINOR.PATCH[-PRE][+BUILD]` with numbers that fit in u64 and have no
/// leading zero, and keeps the pre-release and build text as written.
#[verifier::external_body]
fn semver_parse(s: &str) -> (r: Result<Version, semver::Error>)
    ensures
        r is Ok <==> is_version_text(s@),
        r matches Ok(v) ==> semver_valid(v@) && version_text(v@) == s@,
{
    match semver::Version::parse(s) {
        Ok(v) => Ok(
            Version {
                major: v.major,
                minor: v.minor,
                patch: v.patch,
                pre: v.pre.as_str().to_string(),
                build: v.build.as_str().to_string(),
            },
        ),
        Err(e) => Err(e),
    }
}

/// Relies on semver::Version::cmp_precedence, which ranks major, minor,
/// patch and then the pre-release tag (semver::Prerelease::new holds a valid
/// tag), and ignores build metadata.
#[verifier::external_body]
fn semver_precedence(a: &Version, b: &Version) -> (r: Ordering)
    requires
        a.valid(),
        b.valid(),
    ensures
        r == precedence(a@, b@),
{
    let x = semver::Version {
        major: a.major, minor: a.minor, patch: a.patch,
        pre: semver::Prerelease::new(&a.pre).unwrap(), build: semver::BuildMetadata::EMPTY,
    };
    let y = semver::Version {
        major: b.major, minor: b.minor, patch: b.patch,
        pre: semver::Prerelease::new(&b.pre).unwrap(), build: semver::BuildMetadata::EMPTY,
    };
    x.cmp_precedence(&y)
}

fn digit_text(d: u64) -> (r: &'static str)
    requires
        d < 10,
    ensures
        r@ == seq![digit_char(d as nat)],
{
    let digits = "0123456789";
    proof {
        reveal_strlit("0123456789");
    }
    let r = digits.substring_char(d as usize, d as usize + 1);
    assert(r@ =~= seq![digit_char(d as nat)]);
    r
}

/// The decimal text of `n`.
pub fn decimal(n: u64) -> (r: String)
    ensures
        r@ == dec(n as nat),
{
    let mut m: u64 = n;
    let mut s = String::new();
    loop
        invariant
            dec(n as nat) == dec(m as nat) + s@,
        decreases m,
    {
        let ghost s0 = s@;
        let t = String::from_str(digit_text(m % 10)).concat(s.as_str());
        s = t;
        if m < 10 {
            assert(dec(n as nat) =~= s@);
            return s;
        }
        assert(dec(m as nat) + s0 =~= dec((m / 10) as nat) + s@);
        m = m / 10;
    }
}

proof fn lemma_dec_digits(n: nat)
    ensures
        dec(n).len() > 0,
        all_digits(dec(n)),
    decreases n,
{
    if n >= 10 {
        lemma_dec_digits(n / 10);
        assert(all_digits(dec(n)));
    }
}

proof fn lemma_digit_char_injective(d: nat, e: nat)
    requires
        d < 10,
        e < 10,
        digit_char(d) == digit_char(e),
    ensures
        d == e,
{
}

proof fn lemma_dec_injective(a: nat, b: nat)
    requires
        dec(a) == dec(b),
    ensures
        a == b,
    decreases a,
{
    if a >= 10 {
        lemma_dec_digits(a / 10);
    }
    if b >= 10 {
        lemma_dec_digits(b / 10);
    }
    if a >= 10 && b >= 10 {
        assert(dec(a / 10) =~= dec(a).drop_last());
        assert(dec(b / 10) =~= dec(b).drop_last());
        lemma_dec_injective(a / 10, b / 10);
        assert(dec(a).last() == digit_char(a % 10));
        assert(dec(b).last() == digit_char(b % 10));
        lemma_digit_char_injective(a % 10, b % 10);
        assert(a == 10 * (a / 10) + a % 10);
        assert(b == 10 * (b / 10) + b % 10);
    } else if a < 10 && b < 10 {
        assert(dec(a) == seq![digit_char(a)]);
        assert(dec(b) == seq![digit_char(b)]);
        assert(dec(a)[0] == digit_char(a));
        assert(dec(b)[0] == digit_char(b));
        lemma_digit_char_injective(a, b);
    } else if a < 10 {
        assert(dec(b).len() > 1);
    } else {
        assert(dec(a).len() > 1);
    }
}

/// Where two texts split as `x + r`, with every character of `x` in `p` and
/// `r` empty or starting outside `p`, the split is the same.
proof fn lemma_split_unique(
    x1: Seq<char>,
    r1: Seq<char>,
    x2: Seq<char>,
    r2: Seq<char>,
    p: spec_fn(char) -> bool,
)
    requires
        x1 + r1 == x2 + r2,
        forall|i: int| 0 <= i < x1.len() ==> p(#[trigger] x1[i]),
        forall|i: int| 0 <= i < x2.len() ==> p(#[trigger] x2[i]),
        r1.len() == 0 || !p(r1[0]),
        r2.len() == 0 || !p(r2[0]),
    ensures
        x1 == x2,
        r1 == r2,
{
    let t = x1 + r1;
    if x1.len() < x2.len() {
        assert(t[x1.len() as int] == x2[x1.len() as int]);
    } else if x2.len() < x1.len() {
        assert(t[x2.len() as int] == x1[x2.len() as int]);
    }
    assert(x1 =~= t.subrange(0, x1.len() as int));
    assert(x2 =~= t.subrange(0, x2.len() as int));
    assert(r1 =~= t.subrange(x1.len() as int, t.len() as int));
    assert(r2 =~= t.subrange(x2.len() as int, t.len() as int));
}

/// Different valid versions have different texts.
pub proof fn lemma_version_text_injective(v: SemVer, w: SemVer)
    requires
        semver_valid(v),
        semver_valid(w),
        version_text(v) == version_text(w),
    ensures
        v == w,
{
    let dig = |c: char| is_digit(c);
    let no_plus = |c: char| c != '+';
    lemma_dec_digits(v.major as nat);
    lemma_dec_digits(w.major as nat);
    lemma_dec_digits(v.minor as nat);
    lemma_dec_digits(w.minor as nat);
    lemma_dec_digits(v.patch as nat);
    lemma_dec_digits(w.patch as nat);
    let tv = tag('-', v.pre) + tag('+', v.build);
    let tw = tag('-', w.pre) + tag('+', w.build);
    let rv2 = dec(v.patch as nat) + tv;
    let rw2 = dec(w.patch as nat) + tw;
    let rv1 = dec(v.minor as nat) + (seq!['.'] + rv2);
    let rw1 = dec(w.minor as nat) + (seq!['.'] + rw2);
    lemma_split_unique(dec(v.major as nat), seq!['.'] + rv1, dec(w.major as nat), seq!['.'] + rw1, dig);
    lemma_dec_injective(v.major as nat, w.major as nat);
    assert(rv1 =~= (seq!['.'] + rv1).drop_first());
    assert(rw1 =~= (seq!['.'] + rw1).drop_first());
    lemma_split_unique(dec(v.minor as nat), seq!['.'] + rv2, dec(w.minor as nat), seq!['.'] + rw2, dig);
    lemma_dec_injective(v.minor as nat, w.minor as nat);
    assert(rv2 =~= (seq!['.'] + rv2).drop_first());
    assert(rw2 =~= (seq!['.'] + rw2).drop_first());
    assert(tv.len() == 0 || tv[0] == '-' || tv[0] == '+');
    assert(tw.len() == 0 || tw[0] == '-' || tw[0] == '+');
    lemma_split_unique(dec(v.patch as nat), tv, dec(w.patch as nat), tw, dig);
    lemma_dec_injective(v.patch as nat, w.patch as nat);
    if v.pre.len() > 0 && w.pre.len() == 0 {
        assert(tv[0] == '-');
    } else if v.pre.len() == 0 && w.pre.len() > 0 {
        assert(tw[0] == '-');
    } else if v.pre.len() > 0 {
        let bv = tag('+', v.build);
        let bw = tag('+', w.build);
        assert(tv =~= seq!['-'] + (v.pre + bv));
        assert(tw =~= seq!['-'] + (w.pre + bw));
        assert(v.pre + bv =~= tv.drop_first());
        assert(w.pre + bw =~= tw.drop_first());
        lemma_split_unique(v.pre, bv, w.pre, bw, no_plus);
        if v.build.len() > 0 {
            assert(v.build =~= bv.drop_first());
            assert(w.build =~= bw.drop_first());
        }
        assert(v.build =~= w.build);
    } else {
        assert(tv =~= tag('+', v.build));
        assert(tw =~= tag('+', w.build));
        if v.build.len() > 0 {
            assert(v.build =~= tv.drop_first());
            assert(w.build =~= tw.drop_first());
        }
        assert(v.build =~= w.build);
        assert(v.pre =~= w.pre);
    }
}

/// Rendering a valid version and reading the text back gives the same version.
pub proof fn lemma_text_round_trip(v: SemVer)
    requires
        semver_valid(v),
    ensures
        is_version_text(version_text(v)),
        version_of(version_text(v)) == v,
{
    let s = version_text(v);
    assert(semver_valid(v) && version_text(v) == s);
    let w = version_of(s);
    lemma_version_text_injective(v, w);
}

impl Version {
    pub open spec fn valid(&self) -> bool {
        semver_valid(self@)
    }

    /// `0.0.0`, the version of nothing installed.
    pub fn zero() -> (r: Version)
        ensures
            r@ == (SemVer { major: 0, minor: 0, patch: 0, pre: Seq::empty(), build: Seq::empty() }),
            r.valid(),
    {
        Version { major: 0, minor: 0, patch: 0, pre: String::new(), build: String::new() }
    }

    /// Reads a version from its text.
    pub fn parse(s: &str) -> (r: Result<Version, VersionError>)
        ensures
            r is Ok <==> is_version_text(s@),
            r matches Ok(v) ==> v@ == version_of(s@) && v.valid(),
            r matches Err(e) ==> e == VersionError::NotSemver,
    {
        match semver_parse(s) {
            Ok(v) => {
                proof {
                    lemma_text_round_trip(v@);
                }
                Ok(v)
            },
            Err(_) => Err(VersionError::NotSemver),
        }
    }

    /// The text of this version.
    pub fn to_text(&self) -> (r: String)
        ensures
            r@ == version_text(self@),
    {
        let mut r = decimal(self.major);
        proof {
            reveal_strlit(".");
            reveal_strlit("-");
            reveal_strlit("+");
        }
        let ghost v = self@;
        let mut tail = String::new();
        if self.pre.unicode_len() > 0 {
            tail.append("-");
            tail.append(self.pre.as_str());
        }
        assert(tail@ =~= tag('-', v.pre));
        if self.build.unicode_len() > 0 {
            tail.append("+");
            tail.append(self.build.as_str());
        }
        assert(tail@ =~= tag('-', v.pre) + tag('+', v.build));
        let mut mid = decimal(self.patch);
        mid.append(tail.as_str());
        let mut t = decimal(self.minor);
        t.append(".");
        t.append(mid.as_str());
        assert(t@ =~= dec(v.minor as nat) + (seq!['.'] + (dec(v.patch as nat) + (tag('-', v.pre)
            + tag('+', v.build)))));
        r.append(".");
        r.append(t.as_str());
        assert(r@ =~= version_text(v));
        r
    }

    /// Ranks this version against `other` by semantic-version precedence.
    pub fn compare(&self, other: &Version) -> (r: Ordering)
        requires
            self.valid(),
            other.valid(),
        ensures
            r == precedence(self@, other@),
    {
        semver_precedence(self, other)
    }

    /// This version ranks strictly before `other`.
    pub fn precedes(&self, other: &Version) -> (r: bool)
        requires
            self.valid(),
            other.valid(),
        ensures
            r == precedes(self@, other@),
    {
        match self.compare(other) {
            Ordering::Less => true,
            _ => false,
        }
    }
}

} // verus!
