use vstd::prelude::*;
use vstd::string::StrSliceExecFns;
use vstd::string::StringExecFns;

verus! {

/// One entry of a mirror's patch index.
#[derive(Debug)]
pub struct PatchInfo {
    pub index: u64,
    pub file_name: String,
}

impl Clone for PatchInfo {
    fn clone(&self) -> (r: Self)
        ensures
            r == *self,
    {
        PatchInfo { index: self.index, file_name: self.file_name.clone() }
    }
}

/// Two entries are the same patch when their indexes are equal.
impl PartialEq for PatchInfo {
    fn eq(&self, o: &PatchInfo) -> (r: bool)
        ensures
            r == (self.index == o.index),
    {
        self.index == o.index
    }
}

impl vstd::std_specs::cmp::PartialEqSpecImpl for PatchInfo {
    open spec fn obeys_eq_spec() -> bool {
        true
    }

    open spec fn eq_spec(&self, o: &PatchInfo) -> bool {
        self.index == o.index
    }
}

impl PatchInfo {
    /// The entry as an index and a file name.
    pub open spec fn entry(self) -> (nat, Seq<char>) {
        (self.index as nat, self.file_name@)
    }
}

/// The entries of a patch list, as indexes and file names.
pub open spec fn entries(list: Seq<PatchInfo>) -> Seq<(nat, Seq<char>)> {
    list.map_values(|p: PatchInfo| p.entry())
}

/// Characters that separate the fields of a line.
pub open spec fn is_blank(c: char) -> bool {
    c == ' ' || c == '\t' || c == '\r'
}

pub open spec fn is_digit(c: char) -> bool {
    '0' <= c && c <= '9'
}

pub open spec fn digit_value(c: char) -> nat {
    (c as u32 - '0' as u32) as nat
}

/// First position at or after `i` that holds no blank.
pub open spec fn skip_blank(l: Seq<char>, i: int) -> int
    decreases l.len() - i,
{
    if 0 <= i < l.len() && is_blank(l[i]) {
        skip_blank(l, i + 1)
    } else {
        i
    }
}

/// First position at or after `i` that holds no digit.
pub open spec fn skip_digits(l: Seq<char>, i: int) -> int
    decreases l.len() - i,
{
    if 0 <= i < l.len() && is_digit(l[i]) {
        skip_digits(l, i + 1)
    } else {
        i
    }
}

/// First position at or after `i` that holds a blank.
pub open spec fn skip_word(l: Seq<char>, i: int) -> int
    decreases l.len() - i,
{
    if 0 <= i < l.len() && !is_blank(l[i]) {
        skip_word(l, i + 1)
    } else {
        i
    }
}

/// The decimal number written by the digits `l[a..b]`.
pub open spec fn digits_value(l: Seq<char>, a: int, b: int) -> nat
    decreases b - a,
{
    if b <= a {
        0
    } else {
        digits_value(l, a, b - 1) * 10 + digit_value(l[b - 1])
    }
}

/// The entry that one line (without its line break) declares, if it is
/// well formed: an index in decimal that fits in 64 bits, blanks, and a file
/// name without blanks; blanks may surround the two fields. Any other line,
/// a blank one or a `//` comment among them, declares nothing.
pub open spec fn line_entry(l: Seq<char>) -> Option<(nat, Seq<char>)> {
    let a = skip_blank(l, 0);
    let b = skip_digits(l, a);
    let c = skip_blank(l, b);
    let d = skip_word(l, c);
    let e = skip_blank(l, d);
    if a < b && b < c && c < d && e == l.len() && digits_value(l, a, b) <= u64::MAX {
        Some((digits_value(l, a, b), l.subrange(c, d)))
    } else {
        None
    }
}

pub open spec fn line_entries(l: Seq<char>) -> Seq<(nat, Seq<char>)> {
    match line_entry(l) {
        Some(x) => seq![x],
        None => Seq::empty(),
    }
}

/// The entries of the lines of `s` from the line that starts at `start`,
/// where `i` is the position reached in that line; lines end at `'\n'`.
pub open spec fn parse_lines(s: Seq<char>, start: int, i: int) -> Seq<(nat, Seq<char>)>
    decreases s.len() - i,
{
    if i >= s.len() {
        line_entries(s.subrange(start, s.len() as int))
    } else if s[i] == '\n' {
        line_entries(s.subrange(start, i)) + parse_lines(s, i + 1, i + 1)
    } else {
        parse_lines(s, start, i + 1)
    }
}

/// The entries of a whole patch index, in the order of its lines.
pub open spec fn patch_index_entries(s: Seq<char>) -> Seq<(nat, Seq<char>)> {
    parse_lines(s, 0, 0)
}

proof fn lemma_skip_bounds(l: Seq<char>, i: int)
    requires
        0 <= i <= l.len(),
    ensures
        i <= skip_blank(l, i) <= l.len(),
        i <= skip_digits(l, i) <= l.len(),
        i <= skip_word(l, i) <= l.len(),
    decreases l.len() - i,
{
    if i < l.len() {
        lemma_skip_bounds(l, i + 1);
    }
}

proof fn lemma_skip_digits_all(l: Seq<char>, i: int, q: int)
    requires
        0 <= i <= q < skip_digits(l, i),
    ensures
        is_digit(l[q]),
    decreases q - i,
{
    if i < q {
        lemma_skip_digits_all(l, i + 1, q);
    }
}

proof fn lemma_digits_value_grows(l: Seq<char>, a: int, j: int, k: int)
    requires
        a <= j <= k,
    ensures
        digits_value(l, a, j) <= digits_value(l, a, k),
    decreases k - j,
{
    if j < k {
        lemma_digits_value_grows(l, a, j, k - 1);
    }
}

/// A run of characters that the line scanner steps over.
#[derive(Clone, Copy, PartialEq, Eq, Structural)]
enum Run {
    Blanks,
    Digits,
    Word,
}

/// Where a run of the given kind, starting at position `i` of `l`, ends.
spec fn run_end(l: Seq<char>, i: int, run: Run) -> int {
    match run {
        Run::Blanks => skip_blank(l, i),
        Run::Digits => skip_digits(l, i),
        Run::Word => skip_word(l, i),
    }
}

/// The end of the run of kind `run` that starts at `i` in the line
/// `v[start..end]`.
fn skip_run(v: &Vec<char>, start: usize, end: usize, i: usize, run: Run) -> (j: usize)
    requires
        start <= i <= end <= v@.len(),
    ensures
        j - start == run_end(v@.subrange(start as int, end as int), i - start, run),
        i <= j <= end,
{
    let ghost l = v@.subrange(start as int, end as int);
    let mut j = i;
    while j < end
        invariant
            start <= i <= j <= end <= v@.len(),
            l == v@.subrange(start as int, end as int),
            run_end(l, i - start, run) == run_end(l, j - start, run),
        decreases end - j,
    {
        let c = v[j];
        assert(l[j - start] == c);
        let blank = c == ' ' || c == '\t' || c == '\r';
        let go = match run {
            Run::Blanks => blank,
            Run::Digits => '0' <= c && c <= '9',
            Run::Word => !blank,
        };
        if !go {
            return j;
        }
        j = j + 1;
    }
    j
}

/// The entry declared by the line `text[start..end]`, whose characters are
/// `v[start..end]`.
fn parse_line(text: &str, v: &Vec<char>, start: usize, end: usize) -> (r: Option<PatchInfo>)
    requires
        v@ == text@,
        start <= end <= v@.len(),
    ensures
        match r {
            Some(p) => line_entry(v@.subrange(start as int, end as int)) == Some(p.entry()),
            None => line_entry(v@.subrange(start as int, end as int)) is None,
        },
{
    let ghost l = v@.subrange(start as int, end as int);
    proof {
        lemma_skip_bounds(l, 0);
    }
    let a = skip_run(v, start, end, start, Run::Blanks);
    proof {
        lemma_skip_bounds(l, a - start);
    }
    let b = skip_run(v, start, end, a, Run::Digits);
    proof {
        lemma_skip_bounds(l, b - start);
    }
    let c = skip_run(v, start, end, b, Run::Blanks);
    proof {
        lemma_skip_bounds(l, c - start);
    }
    let d = skip_run(v, start, end, c, Run::Word);
    proof {
        lemma_skip_bounds(l, d - start);
    }
    let e = skip_run(v, start, end, d, Run::Blanks);
    if !(a < b && b < c && c < d && e == end) {
        return None;
    }
    let ghost la = a - start;
    assert forall|q: int| la <= q < b - start implies is_digit(#[trigger] l[q]) by {
        lemma_skip_digits_all(l, la, q);
    }
    let mut value: u64 = 0;
    let mut k = a;
    while k < b
        invariant
            start <= a <= k <= b <= end <= v@.len(),
            l == v@.subrange(start as int, end as int),
            la == a - start,
            la == skip_blank(l, 0),
            b - start == skip_digits(l, la),
            c - start == skip_blank(l, b - start),
            d - start == skip_word(l, c - start),
            end - start == skip_blank(l, d - start),
            a < b < c < d <= end,
            value as nat == digits_value(l, la, k - start),
            forall|q: int| la <= q < b - start ==> is_digit(#[trigger] l[q]),
        decreases b - k,
    {
        let ch = v[k];
        assert(l[k - start] == ch);
        assert(is_digit(l[k - start]));
        let dv = (ch as u32 - '0' as u32) as u64;
        assert(dv <= 9);
        assert(digits_value(l, la, k + 1 - start) == digits_value(l, la, k - start) * 10 + dv);
        if value > (u64::MAX - dv) / 10 {
            proof {
                assert(value * 10 + dv > u64::MAX) by (nonlinear_arith)
                    requires
                        value > (u64::MAX - dv) / 10,
                        dv <= 9,
                ;
                lemma_digits_value_grows(l, la, k + 1 - start, b - start);
                assert(digits_value(l, la, b - start) > u64::MAX);
            }
            return None;
        }
        value = value * 10 + dv;
        k = k + 1;
    }
    let name = String::from_str(text.substring_char(c, d));
    assert(name@ == l.subrange(c - start, d - start));
    Some(PatchInfo { index: value, file_name: name })
}

/// The characters of `text`, in order.
fn chars_of(text: &str) -> (v: Vec<char>)
    ensures
        v@ == text@,
{
    let mut v: Vec<char> = Vec::new();
    for c in it: text.chars()
        invariant
            v@ == it.seq().take(it.index() as int),
    {
        v.push(c);
    }
    v
}

/// Parses a mirror's patch index: each line that is well formed declares one
/// entry, in the order of the lines; blank, comment and malformed lines are
/// skipped.
pub fn parse_patch_list(text: &str) -> (r: Vec<PatchInfo>)
    ensures
        entries(r@) == patch_index_entries(text@),
{
    let v = chars_of(text);
    let n = v.len();
    let mut out: Vec<PatchInfo> = Vec::new();
    let mut start: usize = 0;
    let mut i: usize = 0;
    while i < n
        invariant
            v@ == text@,
            n == v@.len(),
            start <= i <= n,
            entries(out@) + parse_lines(v@, start as int, i as int) == patch_index_entries(v@),
        decreases n - i,
    {
        if v[i] == '\n' {
            let entry = parse_line(text, &v, start, i);
            let ghost before = out@;
            match entry {
                Some(p) => {
                    out.push(p);
                },
                None => {},
            }
            assert(entries(out@) == entries(before) + line_entries(v@.subrange(start as int, i as int)));
            i = i + 1;
            start = i;
        } else {
            i = i + 1;
        }
    }
    let entry = parse_line(text, &v, start, n);
    let ghost before = out@;
    match entry {
        Some(p) => {
            out.push(p);
        },
        None => {},
    }
    assert(entries(out@) == entries(before) + line_entries(v@.subrange(start as int, n as int)));
    out
}

} // verus!
