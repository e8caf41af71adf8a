//! Plain-text helpers: clock-style time rendering and the engine's
//! file URI form of a track path.

use vstd::prelude::*;
use vstd::string::StrSliceExecFns;
use vstd::string::StringExecFns;

verus! {

/// Relies on `String::push` (std): appends exactly the given
/// character to the end of the string.
#[verifier::external_body]
fn push_char(s: &mut String, c: char)
    ensures
        final(s)@ == old(s)@.push(c),
{
    s.push(c);
}

/// The decimal digit character for a value below ten.
pub open spec fn digit_char(d: int) -> char {
    if d == 0 {
        '0'
    } else if d == 1 {
        '1'
    } else if d == 2 {
        '2'
    } else if d == 3 {
        '3'
    } else if d == 4 {
        '4'
    } else if d == 5 {
        '5'
    } else if d == 6 {
        '6'
    } else if d == 7 {
        '7'
    } else if d == 8 {
        '8'
    } else {
        '9'
    }
}

/// The decimal digits of `n`, most significant first.
pub open spec fn spec_decimal(n: int) -> Seq<char>
    decreases n,
{
    if n < 10 {
        seq![digit_char(n)]
    } else {
        spec_decimal(n / 10).push(digit_char(n % 10))
    }
}

/// Two-digit rendering of a value below one hundred: zero-padded.
pub open spec fn spec_two_digits(n: int) -> Seq<char> {
    if n < 10 {
        seq!['0', digit_char(n)]
    } else {
        spec_decimal(n)
    }
}

/// Clock-style rendering of a millisecond count: `m:ss`, or `h:mm:ss`
/// from one hour up.
pub open spec fn spec_format_time(ms: u64) -> Seq<char> {
    let total = ms as int / 1000;
    let hours = total / 3600;
    let minutes = (total % 3600) / 60;
    let seconds = total % 60;
    if hours > 0 {
        spec_decimal(hours) + seq![':'] + spec_two_digits(minutes) + seq![':'] + spec_two_digits(
            seconds,
        )
    } else {
        spec_decimal(minutes) + seq![':'] + spec_two_digits(seconds)
    }
}

/// The digit character of a value below ten.
fn digit(d: u64) -> (c: char)
    requires
        d < 10,
    ensures
        c == digit_char(d as int),
{
    if d == 0 {
        '0'
    } else if d == 1 {
        '1'
    } else if d == 2 {
        '2'
    } else if d == 3 {
        '3'
    } else if d == 4 {
        '4'
    } else if d == 5 {
        '5'
    } else if d == 6 {
        '6'
    } else if d == 7 {
        '7'
    } else if d == 8 {
        '8'
    } else {
        '9'
    }
}

/// Appends the decimal digits of `n`.
fn push_decimal(out: &mut String, n: u64)
    ensures
        final(out)@ == old(out)@ + spec_decimal(n as int),
    decreases n,
{
    if n >= 10 {
        push_decimal(out, n / 10);
        let c = digit(n % 10);
        push_char(out, c);
        proof {
            assert(out@ =~= old(out)@ + spec_decimal(n as int));
        }
    } else {
        let c = digit(n);
        push_char(out, c);
        proof {
            assert(out@ =~= old(out)@ + spec_decimal(n as int));
        }
    }
}

/// Appends the two-digit, zero-padded rendering of `n`.
fn push_two_digits(out: &mut String, n: u64)
    requires
        n < 100,
    ensures
        final(out)@ == old(out)@ + spec_two_digits(n as int),
    decreases n,
{
    if n < 10 {
        push_char(out, '0');
        let c = digit(n);
        push_char(out, c);
        proof {
            assert(out@ =~= old(out)@ + spec_two_digits(n as int));
        }
    } else {
        push_decimal(out, n);
    }
}

/// Renders a millisecond count clock-style: minutes and zero-padded
/// seconds, with an hour figure in front from one hour up.
pub fn format_time(ms: u64) -> (r: String)
    ensures
        r@ == spec_format_time(ms),
{
    let total = ms / 1000;
    let hours = total / 3600;
    let minutes = (total % 3600) / 60;
    let seconds = total % 60;
    let mut out = String::new();
    if hours > 0 {
        push_decimal(&mut out, hours);
        push_char(&mut out, ':');
        push_two_digits(&mut out, minutes);
        push_char(&mut out, ':');
        push_two_digits(&mut out, seconds);
    } else {
        push_decimal(&mut out, minutes);
        push_char(&mut out, ':');
        push_two_digits(&mut out, seconds);
    }
    proof {
        assert(out@ =~= spec_format_time(ms));
    }
    out
}

/// The escaped form of one path character: a space becomes `%20`,
/// anything else stands as itself.
pub open spec fn esc_char(c: char) -> Seq<char> {
    if c == ' ' {
        seq!['%', '2', '0']
    } else {
        seq![c]
    }
}

/// The space-escaped form of a path.
pub open spec fn spec_escape(s: Seq<char>) -> Seq<char>
    decreases s.len(),
{
    if s.len() == 0 {
        Seq::<char>::empty()
    } else {
        esc_char(s[0]) + spec_escape(s.drop_first())
    }
}

/// Escaping one more character on the right appends its escaped form.
proof fn lemma_escape_snoc(s: Seq<char>, c: char)
    ensures
        spec_escape(s.push(c)) == spec_escape(s) + esc_char(c),
    decreases s.len(),
{
    if s.len() == 0 {
        assert(s.push(c)[0] == c);
        assert(s.push(c).drop_first() =~= Seq::<char>::empty());
        assert(spec_escape(s.push(c)) == esc_char(c) + spec_escape(Seq::<char>::empty()));
        assert(spec_escape(Seq::<char>::empty()) == Seq::<char>::empty());
        assert(spec_escape(s.push(c)) =~= spec_escape(s) + esc_char(c));
    } else {
        assert(s.push(c).drop_first() =~= s.drop_first().push(c));
        lemma_escape_snoc(s.drop_first(), c);
        assert(s.push(c)[0] == s[0]);
        assert(spec_escape(s.push(c)) == esc_char(s[0]) + spec_escape(s.drop_first().push(c)));
        assert(esc_char(s[0]) + (spec_escape(s.drop_first()) + esc_char(c)) =~= (esc_char(s[0])
            + spec_escape(s.drop_first())) + esc_char(c));
        assert(spec_escape(s.push(c)) =~= spec_escape(s) + esc_char(c));
    }
}

/// The engine-facing URI of an absolute file path: `file://` followed
/// by the path with every space escaped as `%20`.
pub fn file_uri(path: &str) -> (r: String)
    ensures
        r@ == "file://"@ + spec_escape(path@),
{
    let mut out = String::from_str("file://");
    let n = path.unicode_len();
    let mut i: usize = 0;
    while i < n
        invariant
            n == path@.len(),
            0 <= i <= n,
            out@ == "file://"@ + spec_escape(path@.take(i as int)),
        decreases n - i,
    {
        let c = path.get_char(i);
        if c == ' ' {
            push_char(&mut out, '%');
            push_char(&mut out, '2');
            push_char(&mut out, '0');
        } else {
            push_char(&mut out, c);
        }
        proof {
            lemma_escape_snoc(path@.take(i as int), path@[i as int]);
            assert(path@.take(i + 1 as int) =~= path@.take(i as int).push(path@[i as int]));
            assert(out@ =~= "file://"@ + spec_escape(path@.take(i + 1 as int)));
        }
        i = i + 1;
    }
    proof {
        assert(path@.take(n as int) =~= path@);
    }
    out
}

/// The character code used for case-insensitive comparison: upper-case
/// ASCII letters fold onto their lower-case form, everything else
/// stands as itself.
pub open spec fn lower_code(c: char) -> int {
    if 65 <= c as int && c as int <= 90 {
        c as int + 32
    } else {
        c as int
    }
}

/// Case-insensitive (ASCII) equality of two character sequences.
pub open spec fn eq_ignore_case(a: Seq<char>, b: Seq<char>) -> bool {
    a.len() == b.len() && (forall|i: int| 0 <= i < a.len() ==> lower_code(a[i]) == lower_code(b[i]))
}

/// The recognised audio file extensions.
pub open spec fn music_extensions() -> Seq<Seq<char>> {
    seq!["mp3"@, "flac"@, "wav"@, "ogg"@, "m4a"@]
}

/// The extension of a path, scanning backward from position `i`: the
/// characters after the last `.` of the last `/`-separated component,
/// provided that dot is neither the component's first character nor
/// the path's first character.
pub open spec fn ext_from(s: Seq<char>, i: int) -> Option<Seq<char>>
    decreases i + 1,
{
    if i < 0 || i >= s.len() {
        None
    } else if s[i] == '/' {
        None
    } else if s[i] == '.' {
        if i > 0 && s[i - 1] != '/' {
            Some(s.subrange(i + 1, s.len() as int))
        } else {
            None
        }
    } else {
        ext_from(s, i - 1)
    }
}

/// Whether the path ends in one of the recognised audio extensions,
/// compared without regard to ASCII case.
pub open spec fn has_music_ext(s: Seq<char>) -> bool {
    match ext_from(s, s.len() - 1) {
        Some(e) => exists|k: int|
            0 <= k < music_extensions().len() && eq_ignore_case(e, music_extensions()[k]),
        None => false,
    }
}

/// The folded character code (executable form).
fn lower_code_of(c: char) -> (r: u32)
    ensures
        r == lower_code(c),
{
    let u = c as u32;
    if 65 <= u && u <= 90 {
        u + 32
    } else {
        u
    }
}

/// Whether the suffix of `path` from `start` on equals `cand`,
/// without regard to ASCII case.
fn suffix_eq_ignore_case(path: &str, start: usize, cand: &str) -> (b: bool)
    requires
        start <= path@.len(),
    ensures
        b == eq_ignore_case(path@.subrange(start as int, path@.len() as int), cand@),
{
    let n = path.unicode_len();
    let m = cand.unicode_len();
    if n - start != m {
        return false;
    }
    let mut j: usize = 0;
    while j < m
        invariant
            n == path@.len(),
            m == cand@.len(),
            start + m == n,
            0 <= j <= m,
            forall|i: int|
                0 <= i < j ==> lower_code(path@[start + i]) == lower_code(cand@[i]),
        decreases m - j,
    {
        let a = path.get_char(start + j);
        let b = cand.get_char(j);
        if lower_code_of(a) != lower_code_of(b) {
            proof {
                assert(path@.subrange(start as int, path@.len() as int)[j as int] == path@[start
                    + j]);
            }
            return false;
        }
        j = j + 1;
    }
    proof {
        assert forall|i: int| 0 <= i < m implies lower_code(
            path@.subrange(start as int, path@.len() as int)[i],
        ) == lower_code(cand@[i]) by {
            assert(path@.subrange(start as int, path@.len() as int)[i] == path@[start + i]);
        }
    }
    true
}

/// Whether the suffix of `path` from `start` on is one of the
/// recognised audio extensions.
fn suffix_is_music_ext(path: &str, start: usize) -> (b: bool)
    requires
        start <= path@.len(),
    ensures
        b == exists|k: int|
            0 <= k < music_extensions().len() && eq_ignore_case(
                path@.subrange(start as int, path@.len() as int),
                music_extensions()[k],
            ),
{
    let r = suffix_eq_ignore_case(path, start, "mp3") || suffix_eq_ignore_case(path, start, "flac")
        || suffix_eq_ignore_case(path, start, "wav") || suffix_eq_ignore_case(path, start, "ogg")
        || suffix_eq_ignore_case(path, start, "m4a");
    proof {
        let e = path@.subrange(start as int, path@.len() as int);
        assert(music_extensions()[0] == "mp3"@);
        assert(music_extensions()[1] == "flac"@);
        assert(music_extensions()[2] == "wav"@);
        assert(music_extensions()[3] == "ogg"@);
        assert(music_extensions()[4] == "m4a"@);
        if r {
            assert(exists|k: int|
                0 <= k < music_extensions().len() && eq_ignore_case(e, music_extensions()[k]));
        } else {
            assert(forall|k: int|
                0 <= k < music_extensions().len() ==> !eq_ignore_case(e, music_extensions()[k]))
                by {
                assert(music_extensions().len() == 5);
            }
        }
    }
    r
}

/// Whether the path names a file with one of the recognised audio
/// extensions (case-insensitive): used to filter a directory scan
/// down to playable tracks.
pub fn has_music_extension(path: &str) -> (b: bool)
    ensures
        b == has_music_ext(path@),
{
    let n = path.unicode_len();
    let mut i: usize = n;
    while i > 0
        invariant
            n == path@.len(),
            0 <= i <= n,
            ext_from(path@, n as int - 1) == ext_from(path@, i as int - 1),
        decreases i,
    {
        let c = path.get_char(i - 1);
        if c == '/' {
            return false;
        }
        if c == '.' {
            if i - 1 > 0 {
                let prev = path.get_char(i - 2);
                if prev != '/' {
                    return suffix_is_music_ext(path, i);
                }
            }
            return false;
        }
        i = i - 1;
    }
    false
}

} // verus!
