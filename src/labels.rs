//! Label values and the pod template's image line, for orchestrator manifests.
use vstd::prelude::*;

verus! {

/// The longest label value accepted.
pub const MAX_LABEL_LEN: usize = 63;

pub open spec fn is_ascii_alnum(c: char) -> bool {
    ('a' <= c && c <= 'z') || ('A' <= c && c <= 'Z') || ('0' <= c && c <= '9')
}

/// Characters a label value may hold.
pub open spec fn label_char_allowed(c: char) -> bool {
    is_ascii_alnum(c) || c == '-' || c == '_' || c == '.'
}

/// Characters trimmed from both ends of a label value.
pub open spec fn is_label_trim(c: char) -> bool {
    c == '-' || c == '_' || c == '.'
}

/// `s` with every character that a label may not hold replaced by `-`.
pub open spec fn label_mapped(s: Seq<char>) -> Seq<char> {
    Seq::new(s.len(), |i: int| if label_char_allowed(s[i]) { s[i] } else { '-' })
}

/// First index at or after `i` that holds no trimmed character.
pub open spec fn lead(s: Seq<char>, i: int) -> int
    decreases s.len() - i,
{
    if i < 0 || i >= s.len() || !is_label_trim(s[i]) {
        i
    } else {
        lead(s, i + 1)
    }
}

/// End of `s[..j]` once trimmed characters are dropped from its end.
pub open spec fn trail(s: Seq<char>, j: int) -> int
    decreases j,
{
    if j <= 0 || j > s.len() || !is_label_trim(s[j - 1]) {
        j
    } else {
        trail(s, j - 1)
    }
}

/// End of `s[..j]` once non-alphanumeric characters are dropped from its end.
pub open spec fn trail_alnum(s: Seq<char>, j: int) -> int
    decreases j,
{
    if j <= 0 || j > s.len() || is_ascii_alnum(s[j - 1]) {
        j
    } else {
        trail_alnum(s, j - 1)
    }
}

/// `s` with trimmed characters dropped from both ends.
pub open spec fn label_trimmed(s: Seq<char>) -> Seq<char> {
    let a = lead(s, 0);
    let b = trail(s, s.len() as int);
    if a >= b {
        Seq::empty()
    } else {
        s.subrange(a, b)
    }
}

pub open spec fn default_label() -> Seq<char> {
    seq!['d', 'e', 'f', 'a', 'u', 'l', 't']
}

/// The label value for `s`: disallowed characters become `-`, `-`, `_` and
/// `.` are trimmed from both ends, a value over 63 characters is cut to 63
/// and loses its trailing non-alphanumerics, and an empty result becomes `default`.
pub open spec fn sanitized_label(s: Seq<char>) -> Seq<char> {
    let t = label_trimmed(label_mapped(s));
    let u = if t.len() > 63 {
        t.take(63).take(trail_alnum(t.take(63), 63))
    } else {
        t
    };
    if u.len() == 0 {
        default_label()
    } else {
        u
    }
}

/// Relies on `String::from_iter` over characters: the characters in order.
#[verifier::external_body]
fn string_from_chars(v: &[char]) -> (r: String)
    ensures
        r@ == v@,
{
    v.iter().collect()
}

/// Sanitizes a string for use as a label value (at most 63 characters,
/// alphanumeric at both ends); see `sanitized_label`.
pub fn sanitize_label_value(s: &str) -> (r: String)
    ensures
        r@ == sanitized_label(s@),
{
    let n = s.unicode_len();
    let mut mapped: Vec<char> = Vec::new();
    let mut i: usize = 0;
    while i < n
        invariant
            n == s@.len(),
            i <= n,
            mapped@ == label_mapped(s@).take(i as int),
        decreases n - i,
    {
        let c = s.get_char(i);
        let keep = ('a' <= c && c <= 'z') || ('A' <= c && c <= 'Z') || ('0' <= c && c <= '9')
            || c == '-' || c == '_' || c == '.';
        if keep {
            mapped.push(c);
        } else {
            mapped.push('-');
        }
        assert(mapped@ =~= label_mapped(s@).take(i + 1));
        i = i + 1;
    }
    let ghost m = label_mapped(s@);
    assert(mapped@ =~= m);
    let mut a: usize = 0;
    while a < n && (mapped[a] == '-' || mapped[a] == '_' || mapped[a] == '.')
        invariant
            a <= n,
            n == m.len(),
            mapped@ == m,
            lead(m, 0) == lead(m, a as int),
        decreases n - a,
    {
        a = a + 1;
    }
    let mut b: usize = n;
    while b > 0 && (mapped[b - 1] == '-' || mapped[b - 1] == '_' || mapped[b - 1] == '.')
        invariant
            b <= n,
            n == m.len(),
            mapped@ == m,
            trail(m, n as int) == trail(m, b as int),
        decreases b,
    {
        b = b - 1;
    }
    let mut out: Vec<char> = Vec::new();
    if a < b {
        let mut k: usize = a;
        while k < b
            invariant
                a <= k <= b <= n,
                n == m.len(),
                mapped@ == m,
                out@ == m.subrange(a as int, k as int),
            decreases b - k,
        {
            out.push(mapped[k]);
            assert(out@ =~= m.subrange(a as int, k + 1));
            k = k + 1;
        }
    } else {
        assert(out@ =~= Seq::<char>::empty());
    }
    let ghost t = label_trimmed(m);
    assert(out@ == t);
    if out.len() > MAX_LABEL_LEN {
        out.truncate(MAX_LABEL_LEN);
        let ghost t63 = t.take(63);
        assert(out@ =~= t63);
        let mut e: usize = MAX_LABEL_LEN;
        while e > 0 && !(('a' <= out[e - 1] && out[e - 1] <= 'z') || ('A' <= out[e - 1]
            && out[e - 1] <= 'Z') || ('0' <= out[e - 1] && out[e - 1] <= '9'))
            invariant
                e <= 63,
                out@ == t63,
                t63.len() == 63,
                trail_alnum(t63, 63) == trail_alnum(t63, e as int),
            decreases e,
        {
            e = e - 1;
        }
        out.truncate(e);
        assert(out@ =~= t63.take(e as int));
    }
    if out.len() == 0 {
        let d = "default";
        proof {
            reveal_strlit("default");
        }
        assert(d@ =~= default_label());
        d.to_owned()
    } else {
        string_from_chars(out.as_slice())
    }
}

/// Whitespace as `char::is_whitespace` reads it (the Unicode `White_Space` property).
pub open spec fn is_ws(c: char) -> bool {
    ('\u{9}' <= c && c <= '\u{d}') || c == ' ' || c == '\u{85}' || c == '\u{a0}' || c == '\u{1680}'
        || ('\u{2000}' <= c && c <= '\u{200a}') || c == '\u{2028}' || c == '\u{2029}' || c
        == '\u{202f}' || c == '\u{205f}' || c == '\u{3000}'
}

fn is_whitespace_char(c: char) -> (r: bool)
    ensures
        r == is_ws(c),
{
    ('\u{9}' <= c && c <= '\u{d}') || c == ' ' || c == '\u{85}' || c == '\u{a0}' || c == '\u{1680}'
        || ('\u{2000}' <= c && c <= '\u{200a}') || c == '\u{2028}' || c == '\u{2029}' || c
        == '\u{202f}' || c == '\u{205f}' || c == '\u{3000}'
}

/// Index of the first `\n` in `s` at or after `i`, or `s.len()`.
pub open spec fn newline_from(s: Seq<char>, i: int) -> int
    decreases s.len() - i,
{
    if i < 0 || i >= s.len() {
        s.len() as int
    } else if s[i] == '\n' {
        i
    } else {
        newline_from(s, i + 1)
    }
}

/// The lines of `s` from position `i`, as `str::lines` gives them: split at
/// `\n`, a `\r` before the `\n` dropped, no empty line after a final `\n`.
pub open spec fn lines_from(s: Seq<char>, i: int) -> Seq<Seq<char>>
    decreases s.len() - i,
{
    if i < 0 || i >= s.len() {
        Seq::empty()
    } else if newline_from(s, i) < i || newline_from(s, i) > s.len() {
        Seq::empty()
    } else {
        let j = newline_from(s, i);
        let raw = s.subrange(i, j);
        let line = if j < s.len() && raw.len() > 0 && raw.last() == '\r' {
            raw.drop_last()
        } else {
            raw
        };
        if j >= s.len() {
            seq![line]
        } else {
            seq![line] + lines_from(s, j + 1)
        }
    }
}

/// Number of leading whitespace characters of `l` from `i` on.
pub open spec fn indent_from(l: Seq<char>, i: int) -> int
    decreases l.len() - i,
{
    if i < 0 || i >= l.len() || !is_ws(l[i]) {
        i
    } else {
        indent_from(l, i + 1)
    }
}

pub open spec fn image_key() -> Seq<char> {
    seq!['i', 'm', 'a', 'g', 'e', ':']
}

/// Whether `l`, without its leading whitespace, starts with `image:`.
pub open spec fn is_image_line(l: Seq<char>) -> bool {
    let k = indent_from(l, 0);
    k + 6 <= l.len() && l.subrange(k, k + 6) == image_key()
}

/// One template line rendered after `prev`: the first image line becomes
/// `image: <image>` at the same indentation, any other line is kept.
pub open spec fn render_step(prev: (Seq<char>, bool), l: Seq<char>, image: Seq<char>) -> (Seq<char>, bool) {
    if !prev.1 && is_image_line(l) {
        (
            prev.0 + l.take(indent_from(l, 0)) + seq!['i', 'm', 'a', 'g', 'e', ':', ' '] + image + seq![
                '\n',
            ],
            true,
        )
    } else {
        (prev.0 + l + seq!['\n'], prev.1)
    }
}

/// The template lines rendered, each ending in `\n`; the flag says whether
/// an image line was replaced.
pub open spec fn render_lines(lines: Seq<Seq<char>>, image: Seq<char>) -> (Seq<char>, bool)
    decreases lines.len(),
{
    if lines.len() == 0 {
        (Seq::empty(), false)
    } else {
        render_step(render_lines(lines.drop_last(), image), lines.last(), image)
    }
}

/// The pod template had no image line to replace.
#[derive(Debug, Clone, Copy, PartialEq, Eq, Structural)]
pub struct MissingImageField;

fn chars_of(s: &str) -> (r: Vec<char>)
    ensures
        r@ == s@,
{
    let n = s.unicode_len();
    let mut v: Vec<char> = Vec::new();
    let mut i: usize = 0;
    while i < n
        invariant
            n == s@.len(),
            i <= n,
            v@ == s@.take(i as int),
        decreases n - i,
    {
        v.push(s.get_char(i));
        assert(v@ =~= s@.take(i + 1));
        i = i + 1;
    }
    assert(v@ =~= s@);
    v
}

fn push_range(out: &mut Vec<char>, s: &Vec<char>, a: usize, b: usize)
    requires
        a <= b <= s@.len(),
    ensures
        final(out)@ == old(out)@ + s@.subrange(a as int, b as int),
{
    let ghost o = out@;
    let mut k: usize = a;
    while k < b
        invariant
            a <= k <= b <= s@.len(),
            out@ == o + s@.subrange(a as int, k as int),
        decreases b - k,
    {
        out.push(s[k]);
        assert(out@ =~= o + s@.subrange(a as int, k + 1));
        k = k + 1;
    }
}

proof fn lemma_lines_split(s: Seq<char>, i: int)
    requires
        0 <= i < s.len(),
    ensures
        i <= newline_from(s, i) <= s.len(),
        newline_from(s, i) < s.len() ==> s[newline_from(s, i)] == '\n',
        forall|k: int| i <= k < newline_from(s, i) ==> s[k] != '\n',
    decreases s.len() - i,
{
    if s[i] != '\n' {
        if i + 1 < s.len() {
            lemma_lines_split(s, i + 1);
        } else {
            assert(newline_from(s, i + 1) == s.len());
        }
    }
}

/// Renders the line `s[i..end]` after what `out` and `replaced` hold.
fn emit_line(out: &mut Vec<char>, replaced: bool, s: &Vec<char>, i: usize, end: usize, img: &Vec<char>) -> (r: bool)
    requires
        i <= end <= s@.len(),
    ensures
        (final(out)@, r) == render_step((old(out)@, replaced), s@.subrange(i as int, end as int), img@),
{
    let ghost line = s@.subrange(i as int, end as int);
    let mut k: usize = i;
    while k < end && is_whitespace_char(s[k])
        invariant
            i <= k <= end <= s@.len(),
            line == s@.subrange(i as int, end as int),
            indent_from(line, 0) == indent_from(line, k - i),
        decreases end - k,
    {
        k = k + 1;
    }
    let ghost ind = (k - i) as int;
    assert(indent_from(line, 0) == ind);
    let mut is_image = false;
    if !replaced && end - k >= 6 {
        is_image = s[k] == 'i' && s[k + 1] == 'm' && s[k + 2] == 'a' && s[k + 3] == 'g' && s[k + 4]
            == 'e' && s[k + 5] == ':';
        assert(is_image == (line.subrange(ind, ind + 6) =~= image_key()));
    }
    if is_image {
        push_range(out, s, i, k);
        out.push('i');
        out.push('m');
        out.push('a');
        out.push('g');
        out.push('e');
        out.push(':');
        out.push(' ');
        let m = img.len();
        push_range(out, img, 0, m);
        out.push('\n');
        assert(line.take(ind) =~= s@.subrange(i as int, k as int));
        assert(img@.subrange(0, m as int) =~= img@);
        assert(final(out)@ =~= render_step((old(out)@, replaced), line, img@).0);
        true
    } else {
        push_range(out, s, i, end);
        out.push('\n');
        assert(final(out)@ =~= render_step((old(out)@, replaced), line, img@).0);
        replaced
    }
}

/// Replaces the first `image:` line of a pod template (leading whitespace
/// kept) with `image: <image>`; every line ends in `\n`. Fails when the
/// template has no such line.
pub fn override_pod_image(pod_yaml: &str, image: &str) -> (r: Result<String, MissingImageField>)
    ensures
        render_lines(lines_from(pod_yaml@, 0), image@).1 ==> r is Ok && r->Ok_0@ == render_lines(
            lines_from(pod_yaml@, 0),
            image@,
        ).0,
        !render_lines(lines_from(pod_yaml@, 0), image@).1 ==> r is Err,
{
    let s = chars_of(pod_yaml);
    let img = chars_of(image);
    let n = s.len();
    let ghost all = lines_from(s@, 0);
    let ghost done_lines: Seq<Seq<char>> = Seq::empty();
    let mut out: Vec<char> = Vec::new();
    let mut replaced = false;
    let mut i: usize = 0;
    assert(all =~= done_lines + lines_from(s@, 0));
    while i < n
        invariant
            n == s@.len(),
            s@ == pod_yaml@,
            img@ == image@,
            i <= n,
            all == lines_from(s@, 0),
            all == done_lines + lines_from(s@, i as int),
            (out@, replaced) == render_lines(done_lines, img@),
        decreases n - i,
    {
        proof {
            lemma_lines_split(s@, i as int);
        }
        let mut j: usize = i;
        while j < n && s[j] != '\n'
            invariant
                i <= j <= n,
                n == s@.len(),
                newline_from(s@, i as int) == newline_from(s@, j as int),
            decreases n - j,
        {
            j = j + 1;
        }
        let end: usize = if j < n && j > i && s[j - 1] == '\r' {
            j - 1
        } else {
            j
        };
        let ghost line = s@.subrange(i as int, end as int);
        proof {
            let raw = s@.subrange(i as int, j as int);
            assert(j < n && raw.len() > 0 && raw.last() == '\r' ==> line =~= raw.drop_last());
            assert(!(j < n && raw.len() > 0 && raw.last() == '\r') ==> line =~= raw);
            assert(lines_from(s@, i as int) =~= seq![line] + lines_from(s@, j + 1));
            let dl = done_lines.push(line);
            assert(dl.drop_last() =~= done_lines);
            assert(all =~= dl + lines_from(s@, j + 1));
            done_lines = dl;
        }
        replaced = emit_line(&mut out, replaced, &s, i, end, &img);
        if j < n {
            i = j + 1;
        } else {
            assert(lines_from(s@, j + 1) =~= Seq::<Seq<char>>::empty());
            i = n;
        }
    }
    assert(done_lines =~= all);
    if !replaced {
        return Err(MissingImageField);
    }
    Ok(string_from_chars(out.as_slice()))
}

} // verus!
