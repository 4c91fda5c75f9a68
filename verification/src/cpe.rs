//! The CPE 2.3 binding grammar.
//!
//! A well-formed name is the literal prefix `cpe:2.3`, a part field drawn
//! from `a`, `h`, `o`, `*`, `-`, five attribute fields, a language tag,
//! and four more attribute fields, separated by colons. Inside a field a
//! backslash escapes a special character, so an escaped colon belongs to
//! its field and does not separate. The grammar is a recognizer, not a
//! normalizer: parsing keeps every field exactly as written, and
//! serializing the parsed name reproduces the input string.

use vstd::prelude::*;
use vstd::string::*;

use crate::encode::is_ascii_char;
use crate::encode::is_ascii_seq;

verus! {

// ---------------------------------------------------------------------
// characters
// ---------------------------------------------------------------------

/// `c` is an ASCII letter.
pub open spec fn is_alpha(c: char) -> bool {
    ('a' as u32 <= c as u32 && c as u32 <= 'z' as u32) || ('A' as u32 <= c as u32 && c as u32
        <= 'Z' as u32)
}

/// `c` is a decimal digit.
pub open spec fn is_num(c: char) -> bool {
    '0' as u32 <= c as u32 && c as u32 <= '9' as u32
}

/// Characters an attribute value may hold unescaped.
pub open spec fn is_attr_char(c: char) -> bool {
    is_alpha(c) || is_num(c) || c == '-' || c == '.' || c == '_'
}

/// Characters an attribute value may hold behind a backslash.
pub open spec fn is_escapable(c: char) -> bool {
    c == '\\' || c == '*' || c == '?' || c == '!' || c == '"' || c == '#' || c == '$' || c == '%'
        || c == '&' || c == '\'' || c == '(' || c == ')' || c == '+' || c == ',' || c == '/' || c
        == ':' || c == ';' || c == '<' || c == '=' || c == '>' || c == '@' || c == '[' || c == ']'
        || c == '^' || c == '`' || c == '{' || c == '|' || c == '}' || c == '~'
}

// ---------------------------------------------------------------------
// splitting a name into fields at unescaped colons
// ---------------------------------------------------------------------

/// The fields of `s`, split at every colon that does not stand behind a
/// backslash. A backslash takes the following character into the current
/// field. Splitting an empty string gives one empty field.
pub open spec fn spec_split(s: Seq<char>) -> Seq<Seq<char>>
    decreases s.len(),
{
    if s.len() == 0 {
        seq![Seq::<char>::empty()]
    } else if s[0] == ':' {
        seq![Seq::<char>::empty()] + spec_split(s.skip(1))
    } else {
        let k: int = if s[0] == '\\' && s.len() >= 2 {
            2
        } else {
            1
        };
        let r = spec_split(s.skip(k));
        seq![s.take(k) + r[0]] + r.skip(1)
    }
}

/// The fields joined back with colons.
pub open spec fn spec_join(f: Seq<Seq<char>>) -> Seq<char>
    decreases f.len(),
{
    if f.len() == 0 {
        Seq::empty()
    } else if f.len() == 1 {
        f[0]
    } else {
        f[0] + seq![':'] + spec_join(f.skip(1))
    }
}

/// Splitting always yields at least one field.
pub proof fn lemma_split_nonempty(s: Seq<char>)
    ensures
        spec_split(s).len() >= 1,
    decreases s.len(),
{
    if s.len() == 0 {
    } else if s[0] == ':' {
        lemma_split_nonempty(s.skip(1));
    } else {
        let k: int = if s[0] == '\\' && s.len() >= 2 {
            2
        } else {
            1
        };
        lemma_split_nonempty(s.skip(k));
    }
}

/// Joining two runs of fields joins their texts around one colon.
proof fn lemma_join_concat(a: Seq<Seq<char>>, b: Seq<Seq<char>>)
    requires
        a.len() >= 1,
        b.len() >= 1,
    ensures
        spec_join(a + b) == spec_join(a) + seq![':'] + spec_join(b),
    decreases a.len(),
{
    if a.len() == 1 {
        assert((a + b).skip(1) =~= b);
        assert(spec_join(a + b) =~= spec_join(a) + seq![':'] + spec_join(b));
    } else {
        lemma_join_concat(a.skip(1), b);
        assert((a + b).skip(1) =~= a.skip(1) + b);
        assert(spec_join(a + b) =~= spec_join(a) + seq![':'] + spec_join(b));
    }
}

/// The grammar is a recognizer, not a normalizer: joining the fields of a
/// split reproduces the string exactly, so a parsed name re-serializes to
/// its own input with no canonicalization.
pub proof fn lemma_join_split(s: Seq<char>)
    ensures
        spec_join(spec_split(s)) == s,
    decreases s.len(),
{
    if s.len() == 0 {
        assert(spec_join(spec_split(s)) =~= s);
    } else if s[0] == ':' {
        lemma_join_split(s.skip(1));
        lemma_split_nonempty(s.skip(1));
        let r = spec_split(s.skip(1));
        assert(spec_split(s) == seq![Seq::<char>::empty()] + r);
        assert((seq![Seq::<char>::empty()] + r).skip(1) =~= r);
        assert(spec_join(spec_split(s)) =~= s);
    } else {
        let k: int = if s[0] == '\\' && s.len() >= 2 {
            2
        } else {
            1
        };
        lemma_join_split(s.skip(k));
        lemma_split_nonempty(s.skip(k));
        let r = spec_split(s.skip(k));
        assert(spec_split(s) == seq![s.take(k) + r[0]] + r.skip(1));
        if r.len() == 1 {
            assert(spec_split(s).len() == 1);
            assert(spec_join(spec_split(s)) == s.take(k) + r[0]);
            assert(spec_join(r) == r[0]);
            assert(spec_join(spec_split(s)) =~= s);
        } else {
            let t = spec_split(s);
            assert(t.len() >= 2);
            assert(t.skip(1) =~= r.skip(1));
            assert(spec_join(t) == t[0] + seq![':'] + spec_join(r.skip(1)));
            assert(spec_join(r) == r[0] + seq![':'] + spec_join(r.skip(1)));
            assert(spec_join(t) =~= s.take(k) + spec_join(r));
            assert(spec_join(spec_split(s)) =~= s);
        }
    }
}

// ---------------------------------------------------------------------
// field shapes
// ---------------------------------------------------------------------

/// Every character of `w` is a question mark.
pub open spec fn all_qmarks(w: Seq<char>) -> bool {
    forall|i: int| 0 <= i < w.len() ==> #[trigger] w[i] == '?'
}

/// A wildcard run as it may open or close an attribute value: nothing,
/// one star, or one or more question marks.
pub open spec fn is_wild(w: Seq<char>) -> bool {
    w.len() == 0 || (w.len() == 1 && w[0] == '*') || (w.len() >= 1 && all_qmarks(w))
}

/// Length of the run of question marks opening `f`.
pub open spec fn qrun(f: Seq<char>) -> int
    decreases f.len(),
{
    if f.len() > 0 && f[0] == '?' {
        1 + qrun(f.skip(1))
    } else {
        0
    }
}

/// Length of the wildcard run opening `f`: one star, or the question
/// marks.
pub open spec fn lead_len(f: Seq<char>) -> int {
    if f.len() > 0 && f[0] == '*' {
        1
    } else {
        qrun(f)
    }
}

/// Length of the value unit opening `f`: one unescaped attribute
/// character, or a backslash with an escapable character, or nothing.
pub open spec fn unit_len(f: Seq<char>) -> int {
    if f.len() > 0 && is_attr_char(f[0]) {
        1
    } else if f.len() >= 2 && f[0] == '\\' && is_escapable(f[1]) {
        2
    } else {
        0
    }
}

/// Length of the run of value units opening `f`.
pub open spec fn body_len(f: Seq<char>) -> int
    decreases f.len(),
{
    let u = unit_len(f);
    if u > 0 {
        u + body_len(f.skip(u))
    } else {
        0
    }
}

/// An attribute value: an optional wildcard run, then at least one value
/// unit, then an optional wildcard run.
pub open spec fn valid_avstring(f: Seq<char>) -> bool {
    let rest = f.skip(lead_len(f));
    let b = body_len(rest);
    b > 0 && is_wild(rest.skip(b))
}

/// An attribute field: `*` for any, `-` for not applicable, or a value.
pub open spec fn valid_attr(f: Seq<char>) -> bool {
    (f.len() == 1 && (f[0] == '*' || f[0] == '-')) || valid_avstring(f)
}

/// The language field: `*`, `-`, or a two- or three-letter code with an
/// optional region of two letters or three digits.
pub open spec fn valid_lang(f: Seq<char>) -> bool {
    (f.len() == 1 && (f[0] == '*' || f[0] == '-')) || (f.len() == 2 && is_alpha(f[0]) && is_alpha(
        f[1],
    )) || (f.len() == 3 && is_alpha(f[0]) && is_alpha(f[1]) && is_alpha(f[2])) || (f.len() == 5
        && is_alpha(f[0]) && is_alpha(f[1]) && f[2] == '-' && is_alpha(f[3]) && is_alpha(f[4])) || (
    f.len() == 6 && is_alpha(f[0]) && is_alpha(f[1]) && f[2] == '-' && is_num(f[3]) && is_num(f[4])
        && is_num(f[5])) || (f.len() == 6 && is_alpha(f[0]) && is_alpha(f[1]) && is_alpha(f[2])
        && f[3] == '-' && is_alpha(f[4]) && is_alpha(f[5])) || (f.len() == 7 && is_alpha(f[0])
        && is_alpha(f[1]) && is_alpha(f[2]) && f[3] == '-' && is_num(f[4]) && is_num(f[5])
        && is_num(f[6]))
}

/// The part field: applications, hardware, operating systems, any, or
/// not applicable.
pub open spec fn valid_part(f: Seq<char>) -> bool {
    f.len() == 1 && (f[0] == 'a' || f[0] == 'h' || f[0] == 'o' || f[0] == '*' || f[0] == '-')
}

/// A well-formed CPE 2.3 name: the two literal fields, the part, five
/// attributes, the language tag, and four more attributes.
pub open spec fn spec_valid_cpe(s: Seq<char>) -> bool {
    let f = spec_split(s);
    f.len() == 13 && f[0] == seq!['c', 'p', 'e'] && f[1] == seq!['2', '.', '3'] && valid_part(f[2])
        && valid_attr(f[3]) && valid_attr(f[4]) && valid_attr(f[5]) && valid_attr(f[6])
        && valid_attr(f[7]) && valid_lang(f[8]) && valid_attr(f[9]) && valid_attr(f[10])
        && valid_attr(f[11]) && valid_attr(f[12])
}

// ---------------------------------------------------------------------
// a valid name is plain ASCII
// ---------------------------------------------------------------------

/// The question-mark run is a run of question marks, no longer than the
/// field.
proof fn lemma_qrun_chars(f: Seq<char>)
    ensures
        0 <= qrun(f) <= f.len(),
        forall|i: int| 0 <= i < qrun(f) ==> #[trigger] f[i] == '?',
    decreases f.len(),
{
    if f.len() > 0 && f[0] == '?' {
        lemma_qrun_chars(f.skip(1));
        assert forall|i: int| 0 <= i < qrun(f) implies #[trigger] f[i] == '?' by {
            if i > 0 {
                assert(f.skip(1)[i - 1] == f[i]);
            }
        }
    }
}

/// The unit run is no longer than the field and holds only attribute
/// characters, backslashes and escapable characters — all ASCII.
proof fn lemma_body_ascii(f: Seq<char>)
    ensures
        0 <= body_len(f) <= f.len(),
        forall|i: int| 0 <= i < body_len(f) ==> is_ascii_char(#[trigger] f[i]),
    decreases f.len(),
{
    let u = unit_len(f);
    if u > 0 {
        lemma_body_ascii(f.skip(u));
        assert forall|i: int| 0 <= i < body_len(f) implies is_ascii_char(#[trigger] f[i]) by {
            if i >= u {
                assert(f.skip(u)[i - u] == f[i]);
            } else if i == 1 && u == 2 {
                assert(is_escapable(f[1]));
            }
        }
    }
}

/// Wildcard runs hold only stars and question marks.
proof fn lemma_wild_ascii(w: Seq<char>)
    requires
        is_wild(w),
    ensures
        forall|i: int| 0 <= i < w.len() ==> is_ascii_char(#[trigger] w[i]),
{
}

/// A valid attribute field is plain ASCII.
proof fn lemma_attr_ascii(f: Seq<char>)
    requires
        valid_attr(f),
    ensures
        forall|i: int| 0 <= i < f.len() ==> is_ascii_char(#[trigger] f[i]),
{
    if f.len() == 1 && (f[0] == '*' || f[0] == '-') {
    } else {
        let l = lead_len(f);
        let rest = f.skip(l);
        let b = body_len(rest);
        lemma_qrun_chars(f);
        lemma_body_ascii(rest);
        let tail = rest.skip(b);
        lemma_wild_ascii(tail);
        assert forall|i: int| 0 <= i < f.len() implies is_ascii_char(#[trigger] f[i]) by {
            if i < l {
                assert(f[i] == '*' || f[i] == '?');
            } else if i < l + b {
                assert(rest[i - l] == f[i]);
            } else {
                assert(tail[i - l - b] == f[i]);
            }
        }
    }
}

/// A valid language field is plain ASCII.
proof fn lemma_lang_ascii(f: Seq<char>)
    requires
        valid_lang(f),
    ensures
        forall|i: int| 0 <= i < f.len() ==> is_ascii_char(#[trigger] f[i]),
{
}

/// Joining ASCII fields gives an ASCII string.
proof fn lemma_join_ascii(fs: Seq<Seq<char>>)
    requires
        forall|i: int| 0 <= i < fs.len() ==> is_ascii_seq(#[trigger] fs[i]),
    ensures
        is_ascii_seq(spec_join(fs)),
    decreases fs.len(),
{
    if fs.len() == 0 {
    } else if fs.len() == 1 {
        assert(is_ascii_seq(fs[0]));
    } else {
        lemma_join_ascii(fs.skip(1));
        let head = fs[0];
        let joined = spec_join(fs);
        assert(is_ascii_seq(head));
        assert forall|k: int| 0 <= k < joined.len() implies is_ascii_char(#[trigger] joined[k]) by {
            if k < head.len() {
                assert(joined[k] == head[k]);
            } else if k == head.len() {
                assert(joined[k] == ':');
            } else {
                assert(joined[k] == spec_join(fs.skip(1))[k - head.len() - 1]);
            }
        }
    }
}

/// A string the grammar accepts holds only plain ASCII characters.
pub proof fn lemma_valid_cpe_ascii(s: Seq<char>)
    requires
        spec_valid_cpe(s),
    ensures
        is_ascii_seq(s),
{
    let f = spec_split(s);
    lemma_join_split(s);
    assert forall|i: int| 0 <= i < f.len() implies is_ascii_seq(#[trigger] f[i]) by {
        if i == 0 || i == 1 || i == 2 {
            assert(is_ascii_seq(f[i]));
        } else if i == 8 {
            lemma_lang_ascii(f[8]);
        } else {
            lemma_attr_ascii(f[i]);
        }
    }
    lemma_join_ascii(f);
}

// ---------------------------------------------------------------------
// checking fields
// ---------------------------------------------------------------------

fn alpha_char(c: char) -> (r: bool)
    ensures
        r == is_alpha(c),
{
    let u = c as u32;
    (97 <= u && u <= 122) || (65 <= u && u <= 90)
}

fn num_char(c: char) -> (r: bool)
    ensures
        r == is_num(c),
{
    let u = c as u32;
    48 <= u && u <= 57
}

fn attr_char(c: char) -> (r: bool)
    ensures
        r == is_attr_char(c),
{
    alpha_char(c) || num_char(c) || c == '-' || c == '.' || c == '_'
}

fn escapable_char(c: char) -> (r: bool)
    ensures
        r == is_escapable(c),
{
    c == '\\' || c == '*' || c == '?' || c == '!' || c == '"' || c == '#' || c == '$' || c == '%'
        || c == '&' || c == '\'' || c == '(' || c == ')' || c == '+' || c == ',' || c == '/' || c
        == ':' || c == ';' || c == '<' || c == '=' || c == '>' || c == '@' || c == '[' || c == ']'
        || c == '^' || c == '`' || c == '{' || c == '|' || c == '}' || c == '~'
}

fn qrun_from(f: &str, n: usize, from: usize) -> (r: usize)
    requires
        n == f@.len(),
        from <= n,
    ensures
        r <= n - from,
        r as int == qrun(f@.skip(from as int)),
    decreases n - from,
{
    if from < n {
        let c = f.get_char(from);
        if c == '?' {
            let rest = qrun_from(f, n, from + 1);
            proof {
                assert(f@.skip(from as int).skip(1) =~= f@.skip(from as int + 1));
            }
            return 1 + rest;
        }
    }
    proof {
        if from < n {
            assert(f@.skip(from as int)[0] == f@[from as int]);
        }
    }
    0
}

fn body_len_from(f: &str, n: usize, from: usize) -> (r: usize)
    requires
        n == f@.len(),
        from <= n,
    ensures
        r <= n - from,
        r as int == body_len(f@.skip(from as int)),
    decreases n - from,
{
    if from < n {
        let c = f.get_char(from);
        if attr_char(c) {
            let rest = body_len_from(f, n, from + 1);
            proof {
                assert(f@.skip(from as int).skip(1) =~= f@.skip(from as int + 1));
            }
            return 1 + rest;
        }
        if c == '\\' && from + 1 < n {
            let c2 = f.get_char(from + 1);
            if escapable_char(c2) {
                let rest = body_len_from(f, n, from + 2);
                proof {
                    assert(f@.skip(from as int).skip(2) =~= f@.skip(from as int + 2));
                    assert(f@.skip(from as int)[1] == f@[from as int + 1]);
                }
                return 2 + rest;
            }
        }
    }
    proof {
        if from < n {
            assert(f@.skip(from as int)[0] == f@[from as int]);
            if (f@.len() - from as int) >= 2 {
                assert(f@.skip(from as int)[1] == f@[from as int + 1]);
            }
        }
        assert(unit_len(f@.skip(from as int)) == 0);
    }
    0
}

fn is_wild_from(f: &str, n: usize, from: usize) -> (r: bool)
    requires
        n == f@.len(),
        from <= n,
    ensures
        r == is_wild(f@.skip(from as int)),
{
    let ghost w = f@.skip(from as int);
    if from == n {
        return true;
    }
    let c = f.get_char(from);
    proof {
        assert(w[0] == f@[from as int]);
    }
    if c == '*' {
        proof {
            if from + 1 < n {
                assert(w[0] != '?');
                assert(!all_qmarks(w));
            }
        }
        return from + 1 == n;
    }
    let mut i = from;
    while i < n
        invariant
            from <= i <= n,
            from < n,
            n == f@.len(),
            w == f@.skip(from as int),
            f@[from as int] != '*',
            forall|j: int| from <= j < i ==> #[trigger] f@[j] == '?',
        decreases n - i,
    {
        let ci = f.get_char(i);
        if ci != '?' {
            proof {
                assert(w[i - from] == f@[i as int]);
                assert(!all_qmarks(w));
                assert(w[0] != '*');
            }
            return false;
        }
        i = i + 1;
    }
    proof {
        assert forall|j: int| 0 <= j < w.len() implies #[trigger] w[j] == '?' by {
            assert(w[j] == f@[from + j]);
        }
    }
    true
}

fn valid_attr_field(f: &str) -> (r: bool)
    ensures
        r == valid_attr(f@),
{
    let n = f.unicode_len();
    if n == 1 {
        let c = f.get_char(0);
        if c == '*' || c == '-' {
            return true;
        }
    }
    let l: usize;
    if n > 0 && f.get_char(0) == '*' {
        l = 1;
    } else {
        l = qrun_from(f, n, 0);
        proof {
            assert(f@.skip(0) =~= f@);
        }
    }
    proof {
        assert(l as int == lead_len(f@));
    }
    let b = body_len_from(f, n, l);
    if b == 0 {
        return false;
    }
    let r = is_wild_from(f, n, l + b);
    proof {
        assert(f@.skip(l as int).skip(b as int) =~= f@.skip((l + b) as int));
    }
    r
}

fn valid_lang_field(f: &str) -> (r: bool)
    ensures
        r == valid_lang(f@),
{
    let n = f.unicode_len();
    if n == 1 {
        let c = f.get_char(0);
        c == '*' || c == '-'
    } else if n == 2 {
        alpha_char(f.get_char(0)) && alpha_char(f.get_char(1))
    } else if n == 3 {
        alpha_char(f.get_char(0)) && alpha_char(f.get_char(1)) && alpha_char(f.get_char(2))
    } else if n == 5 {
        alpha_char(f.get_char(0)) && alpha_char(f.get_char(1)) && f.get_char(2) == '-'
            && alpha_char(f.get_char(3)) && alpha_char(f.get_char(4))
    } else if n == 6 {
        (alpha_char(f.get_char(0)) && alpha_char(f.get_char(1)) && f.get_char(2) == '-' && num_char(
            f.get_char(3),
        ) && num_char(f.get_char(4)) && num_char(f.get_char(5))) || (alpha_char(f.get_char(0))
            && alpha_char(f.get_char(1)) && alpha_char(f.get_char(2)) && f.get_char(3) == '-'
            && alpha_char(f.get_char(4)) && alpha_char(f.get_char(5)))
    } else if n == 7 {
        alpha_char(f.get_char(0)) && alpha_char(f.get_char(1)) && alpha_char(f.get_char(2))
            && f.get_char(3) == '-' && num_char(f.get_char(4)) && num_char(f.get_char(5))
            && num_char(f.get_char(6))
    } else {
        false
    }
}

// ---------------------------------------------------------------------
// parsing and serializing whole names
// ---------------------------------------------------------------------

/// A parsed CPE 2.3 name: the part field, then the five attributes, the
/// language tag, and the four further attributes, each kept exactly as
/// written.
#[derive(Debug, Clone, PartialEq, Eq)]
pub struct CpeName {
    /// The part field: `a`, `h`, `o`, `*`, or `-`.
    pub part: String,
    /// The five attribute fields, the language tag, then four more
    /// attribute fields.
    pub fields: Vec<String>,
}

impl CpeName {
    /// The fields of the name, the two literal fields included.
    pub open spec fn spec_fields(self) -> Seq<Seq<char>> {
        seq![seq!['c', 'p', 'e'], seq!['2', '.', '3'], self.part@] + self.fields@.map_values(
            |t: String| t@,
        )
    }

    /// The name holds a valid part, valid attributes, and a valid
    /// language tag.
    pub open spec fn wf(self) -> bool {
        valid_part(self.part@) && self.fields@.len() == 10 && valid_lang(self.fields@[5]@)
            && (forall|i: int|
            0 <= i < 10 && i != 5 ==> valid_attr(#[trigger] self.fields@[i]@))
    }

    /// The text of the name: its fields joined with colons.
    pub open spec fn spec_str(self) -> Seq<char> {
        spec_join(self.spec_fields())
    }
}

fn split_fields(s: &str, n: usize, from: usize) -> (r: Vec<String>)
    requires
        n == s@.len(),
        from <= n,
    ensures
        r@.map_values(|t: String| t@) == spec_split(s@.skip(from as int)),
        r@.len() >= 1,
    decreases n - from,
{
    if from == n {
        let mut v: Vec<String> = Vec::new();
        v.push(String::new());
        proof {
            assert(s@.skip(from as int) =~= Seq::<char>::empty());
            assert(v@.map_values(|t: String| t@) =~= seq![Seq::<char>::empty()]);
        }
        v
    } else {
        let c = s.get_char(from);
        if c == ':' {
            let mut rest = split_fields(s, n, from + 1);
            rest.insert(0, String::new());
            proof {
                assert(s@.skip(from as int).skip(1) =~= s@.skip(from as int + 1));
                assert(rest@.map_values(|t: String| t@) =~= seq![Seq::<char>::empty()]
                    + spec_split(s@.skip(from as int).skip(1)));
            }
            rest
        } else {
            let k: usize = if c == '\\' && from + 1 < n {
                2
            } else {
                1
            };
            let mut rest = split_fields(s, n, from + k);
            let head = s.substring_char(from, from + k);
            let first = rest.remove(0);
            let combined = head.to_owned().concat(first.as_str());
            rest.insert(0, combined);
            proof {
                let tail = s@.skip(from as int);
                let rr = spec_split(tail.skip(k as int));
                assert(tail.skip(k as int) =~= s@.skip((from + k) as int));
                assert(tail[0] == s@[from as int]);
                if k == 2 {
                    assert(tail.len() >= 2);
                }
                assert(head@ =~= tail.take(k as int));
                lemma_split_nonempty(tail.skip(k as int));
                assert(rest@.map_values(|t: String| t@) =~= seq![tail.take(k as int) + rr[0]]
                    + rr.skip(1));
                assert(spec_split(tail) == seq![tail.take(k as int) + rr[0]] + rr.skip(1));
            }
            rest
        }
    }
}

/// Parses a CPE 2.3 name. Returns the parsed structure exactly when the
/// string satisfies the grammar; the structure re-serializes to the
/// input string, character for character.
pub fn parse_cpe(s: &str) -> (r: Option<CpeName>)
    ensures
        r is Some <==> spec_valid_cpe(s@),
        r matches Some(c) ==> c.wf() && c.spec_str() == s@,
{
    let n = s.unicode_len();
    let fields = split_fields(s, n, 0);
    proof {
        assert(s@.skip(0) =~= s@);
    }
    let ghost fv = spec_split(s@);
    if fields.len() != 13 {
        return None;
    }
    proof {
        reveal_strlit("cpe");
        reveal_strlit("2.3");
        assert(("cpe")@ =~= seq!['c', 'p', 'e']);
        assert(("2.3")@ =~= seq!['2', '.', '3']);
        assert(fields@.map_values(|t: String| t@)[0] == fv[0]);
        assert(fields@.map_values(|t: String| t@)[1] == fv[1]);
    }
    let lit_cpe: String = "cpe".to_owned();
    let lit_ver: String = "2.3".to_owned();
    if !(fields[0] == lit_cpe) {
        return None;
    }
    if !(fields[1] == lit_ver) {
        return None;
    }
    proof {
        assert(fields@.map_values(|t: String| t@)[2] == fv[2]);
    }
    let part_ok = {
        let p = &fields[2];
        if p.as_str().unicode_len() == 1 {
            let c = p.as_str().get_char(0);
            c == 'a' || c == 'h' || c == 'o' || c == '*' || c == '-'
        } else {
            false
        }
    };
    if !part_ok {
        return None;
    }
    let mut i: usize = 3;
    while i < 13
        invariant
            3 <= i <= 13,
            fields@.len() == 13,
            fields@.map_values(|t: String| t@) == fv,
            fv == spec_split(s@),
            fv.len() == 13,
            forall|j: int|
                3 <= j < i && j != 8 ==> valid_attr(#[trigger] fv[j]),
            i > 8 ==> valid_lang(fv[8]),
        decreases 13 - i,
    {
        proof {
            assert(fields@.map_values(|t: String| t@)[i as int] == fv[i as int]);
        }
        let ok = if i == 8 {
            valid_lang_field(fields[i].as_str())
        } else {
            valid_attr_field(fields[i].as_str())
        };
        if !ok {
            return None;
        }
        i = i + 1;
    }
    let part = fields[2].clone();
    let mut rest: Vec<String> = Vec::new();
    let mut j: usize = 3;
    while j < 13
        invariant
            3 <= j <= 13,
            fields@.len() == 13,
            fields@.map_values(|t: String| t@) == fv,
            rest@.len() == j - 3,
            forall|m: int|
                0 <= m < j - 3 ==> #[trigger] rest@[m]@ == fv[m + 3],
        decreases 13 - j,
    {
        rest.push(fields[j].clone());
        proof {
            assert(fields@.map_values(|t: String| t@)[j as int] == fv[j as int]);
        }
        j = j + 1;
    }
    let name = CpeName { part, fields: rest };
    proof {
        assert(name.spec_fields() =~= fv);
        lemma_join_split(s@);
        assert(name.wf());
        assert(name.spec_str() == s@);
    }
    Some(name)
}

/// Whether `cpe` satisfies the CPE 2.3 grammar.
pub fn is_valid_cpe_string(cpe: &str) -> (r: bool)
    ensures
        r == spec_valid_cpe(cpe@),
{
    parse_cpe(cpe).is_some()
}

/// Serializes a parsed name back to its text. Together with `parse_cpe`
/// this witnesses that recognition does not normalize: the output equals
/// the string the name was parsed from.
pub fn cpe_to_string(name: &CpeName) -> (r: String)
    ensures
        r@ == name.spec_str(),
{
    let ghost fv = name.spec_fields();
    proof {
        reveal_strlit("cpe:2.3:");
        reveal_strlit(":");
    }
    let mut out: String = "cpe:2.3:".to_owned();
    out.append(name.part.as_str());
    proof {
        assert(fv.take(3) =~= seq![seq!['c', 'p', 'e'], seq!['2', '.', '3'], name.part@]);
        lemma_join_concat(seq![seq!['c', 'p', 'e']], seq![seq!['2', '.', '3']]);
        lemma_join_concat(seq![seq!['c', 'p', 'e'], seq!['2', '.', '3']], seq![name.part@]);
        assert(seq![seq!['c', 'p', 'e']] + seq![seq!['2', '.', '3']] =~= seq![
            seq!['c', 'p', 'e'],
            seq!['2', '.', '3'],
        ]);
        assert(seq![seq!['c', 'p', 'e'], seq!['2', '.', '3']] + seq![name.part@] =~= fv.take(3));
        assert(spec_join(seq![seq!['c', 'p', 'e']]) == seq!['c', 'p', 'e']);
        assert(spec_join(seq![seq!['2', '.', '3']]) == seq!['2', '.', '3']);
        assert(spec_join(seq![name.part@]) == name.part@);
        assert(("cpe:2.3:")@ =~= seq!['c', 'p', 'e'] + seq![':'] + seq!['2', '.', '3'] + seq![':']);
        assert(out@ =~= spec_join(fv.take(3)));
    }
    let mut i: usize = 0;
    while i < name.fields.len()
        invariant
            0 <= i <= name.fields@.len(),
            fv == name.spec_fields(),
            fv.len() == 3 + name.fields@.len(),
            (":")@ == seq![':'],
            out@ == spec_join(fv.take(3 + i)),
        decreases name.fields@.len() - i,
    {
        out.append(":");
        out.append(name.fields[i].as_str());
        proof {
            let t = 3 + i as int;
            assert(fv[t] == name.fields@[i as int]@);
            assert(fv.take(t + 1) =~= fv.take(t) + seq![fv[t]]);
            lemma_join_concat(fv.take(t), seq![fv[t]]);
            assert(spec_join(seq![fv[t]]) == fv[t]);
            assert(out@ =~= spec_join(fv.take(t + 1)));
        }
        i = i + 1;
    }
    proof {
        assert(fv.take(3 + name.fields@.len() as int) =~= fv);
    }
    out
}

} // verus!
