//! Unicode safety checks for user names and chat messages: zalgo (stacked
//! combining marks), invisible and zero-width characters, bidirectional
//! overrides, and mixing of writing systems in one user name.
use vstd::prelude::*;

use crate::text::{chars_of, is_ascii_digit, is_control, is_whitespace, push_char, spec_is_ascii_digit, spec_is_control, spec_is_whitespace, trim, trim_chars, trim_end, trim_start};

verus! {

// ---------------------------------------------------------------------------
// Character classes
// ---------------------------------------------------------------------------

/// Bidirectional controls: LRE, RLE, PDF, LRO, RLO, the isolates LRI, RLI, FSI,
/// PDI, the Arabic letter mark and the left-to-right / right-to-left marks.
pub open spec fn spec_is_bidi_override(c: char) -> bool {
    let v = c as int;
    ||| 0x202A <= v <= 0x202E
    ||| 0x2066 <= v <= 0x2069
    ||| v == 0x061C
    ||| v == 0x200E
    ||| v == 0x200F
}

/// Invisible characters: zero-width space, non-joiner and joiner, BOM, soft
/// hyphen, word joiner, Mongolian vowel separator, the tag block and the
/// specials block.
pub open spec fn spec_is_invisible_char(c: char) -> bool {
    let v = c as int;
    ||| v == 0x200B
    ||| v == 0x200C
    ||| v == 0x200D
    ||| v == 0xFEFF
    ||| v == 0x00AD
    ||| v == 0x2060
    ||| v == 0x180E
    ||| 0xE0000 <= v <= 0xE007F
    ||| 0xFFF0 <= v <= 0xFFFF
}

/// Combining diacritical marks (the blocks used to build zalgo text).
pub open spec fn spec_is_combining_mark(c: char) -> bool {
    let v = c as int;
    ||| 0x0300 <= v <= 0x036F
    ||| 0x1AB0 <= v <= 0x1AFF
    ||| 0x1DC0 <= v <= 0x1DFF
    ||| 0x20D0 <= v <= 0x20FF
    ||| 0xFE20 <= v <= 0xFE2F
}

/// ASCII letters and Latin-1 Supplement / Latin Extended-A / Extended-B
/// (the whole range U+00C0..U+024F).
pub open spec fn spec_is_latin_letter(c: char) -> bool {
    let v = c as int;
    ||| 0x61 <= v <= 0x7A
    ||| 0x41 <= v <= 0x5A
    ||| 0x00C0 <= v <= 0x024F
}

/// The two signs inside the Latin range above that are no letters: the
/// multiplication sign U+00D7 and the division sign U+00F7.
pub open spec fn spec_is_latin_range_sign(c: char) -> bool {
    c == '\u{00D7}' || c == '\u{00F7}'
}

/// The Cyrillic and Cyrillic Supplement blocks.
pub open spec fn spec_is_cyrillic_letter(c: char) -> bool {
    let v = c as int;
    0x0400 <= v <= 0x052F
}

/// The Greek and Coptic block.
pub open spec fn spec_is_greek_letter(c: char) -> bool {
    let v = c as int;
    0x0370 <= v <= 0x03FF
}

/// The punctuation a user name may hold: `_`, `.` and `-`.
pub open spec fn spec_is_allowed_username_symbol(c: char) -> bool {
    c == '_' || c == '.' || c == '-'
}

pub fn is_bidi_override(c: char) -> (r: bool)
    ensures
        r == spec_is_bidi_override(c),
{
    let v = c as u32;
    (0x202A <= v && v <= 0x202E) || (0x2066 <= v && v <= 0x2069) || v == 0x061C || v == 0x200E
        || v == 0x200F
}

pub fn is_invisible_char(c: char) -> (r: bool)
    ensures
        r == spec_is_invisible_char(c),
{
    let v = c as u32;
    v == 0x200B || v == 0x200C || v == 0x200D || v == 0xFEFF || v == 0x00AD || v == 0x2060 || v
        == 0x180E || (0xE0000 <= v && v <= 0xE007F) || (0xFFF0 <= v && v <= 0xFFFF)
}

pub fn is_combining_mark(c: char) -> (r: bool)
    ensures
        r == spec_is_combining_mark(c),
{
    let v = c as u32;
    (0x0300 <= v && v <= 0x036F) || (0x1AB0 <= v && v <= 0x1AFF) || (0x1DC0 <= v && v <= 0x1DFF)
        || (0x20D0 <= v && v <= 0x20FF) || (0xFE20 <= v && v <= 0xFE2F)
}

pub fn is_latin_letter(c: char) -> (r: bool)
    ensures
        r == spec_is_latin_letter(c),
{
    let v = c as u32;
    (0x61 <= v && v <= 0x7A) || (0x41 <= v && v <= 0x5A) || (0x00C0 <= v && v <= 0x024F)
}

pub fn is_latin_range_sign(c: char) -> (r: bool)
    ensures
        r == spec_is_latin_range_sign(c),
{
    c == '\u{00D7}' || c == '\u{00F7}'
}

pub fn is_cyrillic_letter(c: char) -> (r: bool)
    ensures
        r == spec_is_cyrillic_letter(c),
{
    let v = c as u32;
    0x0400 <= v && v <= 0x052F
}

pub fn is_greek_letter(c: char) -> (r: bool)
    ensures
        r == spec_is_greek_letter(c),
{
    let v = c as u32;
    0x0370 <= v && v <= 0x03FF
}

pub fn is_allowed_username_symbol(c: char) -> (r: bool)
    ensures
        r == spec_is_allowed_username_symbol(c),
{
    c == '_' || c == '.' || c == '-'
}


// ---------------------------------------------------------------------------
// User names
// ---------------------------------------------------------------------------

/// Why a user name is refused, in the order the checks run.
#[derive(Clone, Copy, Debug, PartialEq, Eq)]
pub enum UsernameFault {
    Empty,
    BadLength,
    Control,
    Whitespace,
    Bidi,
    Invisible,
    Zalgo,
    Disallowed,
    MixedScripts,
}

/// The message that `validate_username` returns for each fault.
pub open spec fn username_fault_message(f: UsernameFault) -> Seq<char> {
    match f {
        UsernameFault::Empty => "Имя пользователя не может быть пустым"@,
        UsernameFault::BadLength => "Имя пользователя должно содержать от 2 до 32 символов"@,
        UsernameFault::Control => "Имя пользователя содержит недопустимые управляющие символы"@,
        UsernameFault::Whitespace => "Имя пользователя не должно содержать пробелов"@,
        UsernameFault::Bidi => "Имя пользователя содержит недопустимые символы направления (BiDi)"@,
        UsernameFault::Invisible => "Имя пользователя содержит недопустимые невидимые символы"@,
        UsernameFault::Zalgo => "Имя пользователя содержит недопустимые комбинируемые символы (Zalgo)"@,
        UsernameFault::Disallowed => "Имя пользователя может содержать только буквы, цифры и символы '_', '.', '-'"@,
        UsernameFault::MixedScripts => "Смешивание разных алфавитов (латиницы и кириллицы) в имени пользователя запрещено (защита от омоглифов)"@,
    }
}

impl UsernameFault {
    pub fn message(self) -> (m: &'static str)
        ensures
            m@ == username_fault_message(self),
    {
        match self {
            UsernameFault::Empty => "Имя пользователя не может быть пустым",
            UsernameFault::BadLength => "Имя пользователя должно содержать от 2 до 32 символов",
            UsernameFault::Control => "Имя пользователя содержит недопустимые управляющие символы",
            UsernameFault::Whitespace => "Имя пользователя не должно содержать пробелов",
            UsernameFault::Bidi => "Имя пользователя содержит недопустимые символы направления (BiDi)",
            UsernameFault::Invisible => "Имя пользователя содержит недопустимые невидимые символы",
            UsernameFault::Zalgo => "Имя пользователя содержит недопустимые комбинируемые символы (Zalgo)",
            UsernameFault::Disallowed => "Имя пользователя может содержать только буквы, цифры и символы '_', '.', '-'",
            UsernameFault::MixedScripts => "Смешивание разных алфавитов (латиницы и кириллицы) в имени пользователя запрещено (защита от омоглифов)",
        }
    }
}

/// Number of combining marks in `s`.
pub open spec fn count_marks(s: Seq<char>) -> nat
    decreases s.len(),
{
    if s.len() == 0 {
        0
    } else {
        count_marks(s.drop_last()) + if spec_is_combining_mark(s.last()) {
            1nat
        } else {
            0nat
        }
    }
}

/// A character a user name may hold: a Latin (but not the signs `×` and `÷`
/// that the Latin range holds), Cyrillic or Greek letter, an ASCII digit, `_`,
/// `.`, `-`, or a combining mark.
pub open spec fn username_char_allowed(c: char) -> bool {
    ||| spec_is_latin_letter(c) && !spec_is_latin_range_sign(c)
    ||| spec_is_cyrillic_letter(c)
    ||| spec_is_greek_letter(c)
    ||| spec_is_ascii_digit(c)
    ||| spec_is_allowed_username_symbol(c)
    ||| spec_is_combining_mark(c)
}

/// The combining mark at `i` directly follows another one, or is the third
/// combining mark of the name.
pub open spec fn zalgo_at(t: Seq<char>, i: int) -> bool {
    &&& spec_is_combining_mark(t[i])
    &&& ((i > 0 && spec_is_combining_mark(t[i - 1])) || count_marks(t.take(i + 1)) > 2)
}

/// The fault the character at `i` of the trimmed name `t` raises, if any.
pub open spec fn fault_at(t: Seq<char>, i: int) -> Option<UsernameFault> {
    let c = t[i];
    if spec_is_control(c) {
        Some(UsernameFault::Control)
    } else if spec_is_whitespace(c) {
        Some(UsernameFault::Whitespace)
    } else if spec_is_bidi_override(c) {
        Some(UsernameFault::Bidi)
    } else if spec_is_invisible_char(c) {
        Some(UsernameFault::Invisible)
    } else if zalgo_at(t, i) {
        Some(UsernameFault::Zalgo)
    } else if !username_char_allowed(c) {
        Some(UsernameFault::Disallowed)
    } else {
        None
    }
}

/// The fault of the first character at or after `i` that raises one.
pub open spec fn first_fault_from(t: Seq<char>, i: int) -> Option<UsernameFault>
    decreases t.len() - i,
{
    if 0 <= i < t.len() {
        if fault_at(t, i) is Some {
            fault_at(t, i)
        } else {
            first_fault_from(t, i + 1)
        }
    } else {
        None
    }
}

pub open spec fn has_latin(t: Seq<char>) -> bool {
    exists|j: int| 0 <= j < t.len() && spec_is_latin_letter(#[trigger] t[j])
}

pub open spec fn has_cyrillic(t: Seq<char>) -> bool {
    exists|j: int| 0 <= j < t.len() && spec_is_cyrillic_letter(#[trigger] t[j])
}

pub open spec fn has_greek(t: Seq<char>) -> bool {
    exists|j: int| 0 <= j < t.len() && spec_is_greek_letter(#[trigger] t[j])
}

/// How many of the Latin, Cyrillic and Greek alphabets `t` uses.
pub open spec fn script_count(t: Seq<char>) -> int {
    (if has_latin(t) { 1int } else { 0int }) + (if has_cyrillic(t) { 1int } else { 0int }) + (
    if has_greek(t) {
        1int
    } else {
        0int
    })
}

/// The verdict on a user name: `None` when it is accepted, else the first fault
/// found. The checks apply to the name with surrounding whitespace removed.
pub open spec fn username_fault(u: Seq<char>) -> Option<UsernameFault> {
    let t = trim(u);
    if t.len() == 0 {
        Some(UsernameFault::Empty)
    } else if t.len() < 2 || t.len() > 32 {
        Some(UsernameFault::BadLength)
    } else if first_fault_from(t, 0) is Some {
        first_fault_from(t, 0)
    } else if script_count(t) > 1 {
        Some(UsernameFault::MixedScripts)
    } else {
        None
    }
}

proof fn lemma_no_fault_before(t: Seq<char>, k: int, i: int)
    requires
        0 <= k <= i <= t.len(),
        forall|j: int| k <= j < i ==> fault_at(t, j) is None,
    ensures
        first_fault_from(t, k) == first_fault_from(t, i),
    decreases i - k,
{
    if k < i {
        lemma_no_fault_before(t, k + 1, i);
    }
}

/// Checks a user name against the rules for identifiers (after UTS #39): 2 to
/// 32 characters once surrounding whitespace is removed; no control, space,
/// bidirectional or invisible characters; letters of one alphabet only (Latin,
/// Cyrillic or Greek), ASCII digits, `_`, `.`, `-`; at most two combining marks
/// and never two in a row.
pub fn validate_username(username: &str) -> (r: Result<(), &'static str>)
    ensures
        r is Ok <==> username_fault(username@) is None,
        r matches Err(m) ==> m@ == username_fault_message(username_fault(username@)->0),
{
    let chars = chars_of(username);
    let t = trim_chars(&chars);
    let ghost ts = t@;
    let n = t.len();
    if n == 0 {
        return Err(UsernameFault::Empty.message());
    }
    if n < 2 || n > 32 {
        return Err(UsernameFault::BadLength.message());
    }
    let mut latin = false;
    let mut cyrillic = false;
    let mut greek = false;
    let mut consecutive_combining: usize = 0;
    let mut total_combining: usize = 0;
    let mut i: usize = 0;
    while i < n
        invariant
            ts == t@,
            ts == trim(username@),
            n == ts.len(),
            2 <= n <= 32,
            i <= n,
            forall|j: int| 0 <= j < i ==> fault_at(ts, j) is None,
            total_combining == count_marks(ts.take(i as int)),
            total_combining <= 2,
            consecutive_combining == (if i > 0 && spec_is_combining_mark(ts[i - 1]) {
                1int
            } else {
                0int
            }),
            latin == exists|j: int| 0 <= j < i && spec_is_latin_letter(#[trigger] ts[j]),
            cyrillic == exists|j: int| 0 <= j < i && spec_is_cyrillic_letter(#[trigger] ts[j]),
            greek == exists|j: int| 0 <= j < i && spec_is_greek_letter(#[trigger] ts[j]),
        decreases n - i,
    {
        let c = t[i];
        proof {
            lemma_no_fault_before(ts, 0, i as int);
            assert(ts.take(i + 1).drop_last() =~= ts.take(i as int));
        }
        if is_control(c) {
            return Err(UsernameFault::Control.message());
        }
        if is_whitespace(c) {
            return Err(UsernameFault::Whitespace.message());
        }
        if is_bidi_override(c) {
            return Err(UsernameFault::Bidi.message());
        }
        if is_invisible_char(c) {
            return Err(UsernameFault::Invisible.message());
        }
        if is_combining_mark(c) {
            total_combining = total_combining + 1;
            consecutive_combining = consecutive_combining + 1;
            if consecutive_combining > 1 || total_combining > 2 {
                return Err(UsernameFault::Zalgo.message());
            }
        } else {
            consecutive_combining = 0;
        }
        if is_latin_letter(c) && !is_latin_range_sign(c) {
            latin = true;
        } else if is_cyrillic_letter(c) {
            cyrillic = true;
        } else if is_greek_letter(c) {
            greek = true;
        } else if is_ascii_digit(c) || is_allowed_username_symbol(c) {
        } else if !is_combining_mark(c) {
            return Err(UsernameFault::Disallowed.message());
        }
        assert(fault_at(ts, i as int) is None);
        i = i + 1;
    }
    proof {
        lemma_no_fault_before(ts, 0, n as int);
        assert(ts.take(n as int) =~= ts);
    }
    let mut scripts: u8 = 0;
    if latin {
        scripts = scripts + 1;
    }
    if cyrillic {
        scripts = scripts + 1;
    }
    if greek {
        scripts = scripts + 1;
    }
    if scripts > 1 {
        return Err(UsernameFault::MixedScripts.message());
    }
    Ok(())
}


// ---------------------------------------------------------------------------
// Look-alike user names
// ---------------------------------------------------------------------------

/// What `decancer::cure` returns for `s` under the options that keep
/// capitalization and Cyrillic letters: the cured text, or `None` when it
/// reports an error.
pub uninterp spec fn decancer_cure(s: Seq<char>) -> Option<Seq<char>>;

/// What `str::to_lowercase` returns for `s` (the Unicode lowercase mapping).
pub uninterp spec fn unicode_lowercase(s: Seq<char>) -> Seq<char>;

/// Calls `decancer::cure` with `Options::default().retain_cyrillic()
/// .retain_capitalization()` and turns the cured string into a `String`. The
/// contract claims only that the outcome depends on the input alone (it is
/// named `decancer_cure`); what decancer maps each character to is not stated.
#[verifier::external_body]
fn decancer_cure_keeping_cyrillic(input: &str) -> (r: Option<String>)
    ensures
        match r {
            Some(cured) => decancer_cure(input@) == Some(cured@),
            None => decancer_cure(input@) is None,
        },
{
    let options = decancer::Options::default().retain_cyrillic().retain_capitalization();
    match decancer::cure(input, options) {
        Ok(cured) => Some(cured.to_string()),
        Err(_) => None,
    }
}

/// Calls `str::to_lowercase`; the contract claims that the result is the
/// lowercase mapping of the input (named `unicode_lowercase`), not what that
/// mapping is.
#[verifier::external_body]
fn lowercase(s: &str) -> (r: String)
    ensures
        r@ == unicode_lowercase(s@),
{
    s.to_lowercase()
}

/// The canonical form of a user name given what curing returned: the cured
/// text in lowercase, or, when curing failed, the name itself in lowercase.
pub fn lowercase_cured_or_given(cured: Option<String>, username: &str) -> (r: String)
    ensures
        r@ == unicode_lowercase(
            match cured {
                Some(c) => c@,
                None => username@,
            },
        ),
{
    match cured {
        Some(c) => lowercase(c.as_str()),
        None => lowercase(username),
    }
}

/// The canonical form of a user name used to detect look-alike names: Cyrillic
/// is kept, while accents, leetspeak, full-width forms and other confusables
/// are cured, and the result is lowercased.
pub fn cured_username(username: &str) -> (r: String)
    ensures
        r@ == unicode_lowercase(
            match decancer_cure(username@) {
                Some(c) => c,
                None => username@,
            },
        ),
{
    let cured = decancer_cure_keeping_cyrillic(username);
    lowercase_cured_or_given(cured, username)
}

// ---------------------------------------------------------------------------
// Chat messages
// ---------------------------------------------------------------------------

/// Invisible characters that `sanitize_message` removes: every invisible
/// character except the two joiners (U+200C, U+200D), which emoji sequences use.
pub open spec fn spec_is_stripped_invisible(c: char) -> bool {
    let v = c as int;
    ||| v == 0x200B
    ||| v == 0xFEFF
    ||| v == 0x00AD
    ||| v == 0x2060
    ||| v == 0x180E
    ||| 0xE0000 <= v <= 0xE007F
    ||| 0xFFF0 <= v <= 0xFFFF
}

/// The zero-width joiner and non-joiner.
pub open spec fn spec_is_joiner(c: char) -> bool {
    c as int == 0x200D || c as int == 0x200C
}

/// A character that `sanitize_message` removes wherever it stands.
pub open spec fn always_stripped(c: char) -> bool {
    spec_is_bidi_override(c) || spec_is_stripped_invisible(c)
}

/// Number of joiners at the end of `s`, not counting the always-stripped
/// characters among them.
pub open spec fn joiner_run(s: Seq<char>) -> nat
    decreases s.len(),
{
    if s.len() == 0 {
        0
    } else if always_stripped(s.last()) {
        joiner_run(s.drop_last())
    } else if spec_is_joiner(s.last()) {
        joiner_run(s.drop_last()) + 1
    } else {
        0
    }
}

/// Number of combining marks at the end of `s`, not counting the joiners and
/// always-stripped characters among them.
pub open spec fn mark_run(s: Seq<char>) -> nat
    decreases s.len(),
{
    if s.len() == 0 {
        0
    } else if always_stripped(s.last()) || spec_is_joiner(s.last()) {
        mark_run(s.drop_last())
    } else if spec_is_combining_mark(s.last()) {
        mark_run(s.drop_last()) + 1
    } else {
        0
    }
}

/// Whether the last character of the non-empty text `s` is kept: it is not
/// always stripped; a joiner is kept only as the first of its run; a combining
/// mark only as one of the first two of its run.
pub open spec fn keeps_last(s: Seq<char>) -> bool {
    let c = s.last();
    &&& !always_stripped(c)
    &&& (spec_is_joiner(c) ==> joiner_run(s) == 1)
    &&& (!spec_is_joiner(c) && spec_is_combining_mark(c) ==> mark_run(s) <= 2)
}

/// The sanitized form of `s`: the characters of `s` that are kept, in order.
pub open spec fn sanitized(s: Seq<char>) -> Seq<char>
    decreases s.len(),
{
    if s.len() == 0 {
        Seq::empty()
    } else if keeps_last(s) {
        sanitized(s.drop_last()).push(s.last())
    } else {
        sanitized(s.drop_last())
    }
}

/// Number of combining marks at the end of `s`.
pub open spec fn trailing_marks(s: Seq<char>) -> nat
    decreases s.len(),
{
    if s.len() > 0 && spec_is_combining_mark(s.last()) {
        trailing_marks(s.drop_last()) + 1
    } else {
        0
    }
}

/// No three combining marks stand next to each other in `s`.
pub open spec fn no_three_marks_in_a_row(s: Seq<char>) -> bool {
    forall|i: int|
        0 <= i && i + 2 < s.len() ==> !(spec_is_combining_mark(#[trigger] s[i])
            && spec_is_combining_mark(s[i + 1]) && spec_is_combining_mark(s[i + 2]))
}

proof fn lemma_sanitized_marks(s: Seq<char>)
    ensures
        trailing_marks(sanitized(s)) <= mark_run(s),
        trailing_marks(sanitized(s)) <= 2,
        no_three_marks_in_a_row(sanitized(s)),
        forall|i: int| 0 <= i < sanitized(s).len() ==> !always_stripped(#[trigger] sanitized(s)[i]),
    decreases s.len(),
{
    if s.len() > 0 {
        let p = s.drop_last();
        let c = s.last();
        lemma_sanitized_marks(p);
        let o = sanitized(p);
        if keeps_last(s) {
            let o2 = o.push(c);
            assert(sanitized(s) == o2);
            assert(o2.drop_last() =~= o);
            if spec_is_combining_mark(c) && !spec_is_joiner(c) {
                assert(trailing_marks(o2) == trailing_marks(o) + 1);
                assert forall|i: int|
                    0 <= i && i + 2 < o2.len() implies !(spec_is_combining_mark(#[trigger] o2[i])
                    && spec_is_combining_mark(o2[i + 1]) && spec_is_combining_mark(o2[i + 2])) by {
                    if i + 2 == o2.len() - 1 {
                        if spec_is_combining_mark(o2[i]) && spec_is_combining_mark(o2[i + 1]) {
                            assert(o.drop_last() =~= o.subrange(0, o.len() - 1));
                            assert(trailing_marks(o) >= 2) by {
                                let q = o.drop_last();
                                assert(q.last() == o2[i]);
                                assert(trailing_marks(q) >= 1);
                            }
                        }
                    } else {
                        assert(o2[i] == o[i] && o2[i + 1] == o[i + 1] && o2[i + 2] == o[i + 2]);
                    }
                }
            } else {
                assert(trailing_marks(o2) == 0);
                assert forall|i: int|
                    0 <= i && i + 2 < o2.len() implies !(spec_is_combining_mark(#[trigger] o2[i])
                    && spec_is_combining_mark(o2[i + 1]) && spec_is_combining_mark(o2[i + 2])) by {
                    if i + 2 < o.len() {
                        assert(o2[i] == o[i] && o2[i + 1] == o[i + 1] && o2[i + 2] == o[i + 2]);
                    }
                }
            }
            assert forall|i: int| 0 <= i < o2.len() implies !always_stripped(#[trigger] o2[i]) by {
                if i < o.len() {
                    assert(o2[i] == o[i]);
                }
            }
        }
    }
}


fn is_stripped_invisible(c: char) -> (r: bool)
    ensures
        r == spec_is_stripped_invisible(c),
{
    let v = c as u32;
    v == 0x200B || v == 0xFEFF || v == 0x00AD || v == 0x2060 || v == 0x180E || (0xE0000 <= v && v
        <= 0xE007F) || (0xFFF0 <= v && v <= 0xFFFF)
}

fn is_joiner(c: char) -> (r: bool)
    ensures
        r == spec_is_joiner(c),
{
    let v = c as u32;
    v == 0x200D || v == 0x200C
}

/// Sanitizes chat message text: removes bidirectional overrides (which can flip
/// how a link is displayed) and zero-width invisible characters, keeps a joiner
/// only when the previous kept-or-checked character was not one (emoji
/// sequences survive), and keeps at most two combining marks in a row (zalgo is
/// capped). Other text, in any script, passes unchanged.
pub fn sanitize_message(content: &str) -> (r: String)
    ensures
        r@ == sanitized(content@),
        forall|i: int| 0 <= i < r@.len() ==> !spec_is_bidi_override(#[trigger] r@[i])
            && !spec_is_stripped_invisible(r@[i]),
        no_three_marks_in_a_row(r@),
{
    let chars = chars_of(content);
    let n = chars.len();
    let mut sanitized_text = String::new();
    let mut consecutive_combining: usize = 0;
    let mut consecutive_zwj: usize = 0;
    let mut i: usize = 0;
    while i < n
        invariant
            n == chars@.len(),
            chars@ == content@,
            i <= n,
            sanitized_text@ == sanitized(chars@.take(i as int)),
            consecutive_zwj == joiner_run(chars@.take(i as int)),
            consecutive_combining == mark_run(chars@.take(i as int)),
            consecutive_zwj <= i,
            consecutive_combining <= i,
        decreases n - i,
    {
        let c = chars[i];
        let ghost p = chars@.take(i as int);
        let ghost q = chars@.take(i + 1);
        proof {
            assert(q.drop_last() =~= p);
            assert(q.last() == c);
        }
        i = i + 1;
        if is_bidi_override(c) {
            continue;
        }
        if is_stripped_invisible(c) {
            continue;
        }
        if is_joiner(c) {
            consecutive_zwj = consecutive_zwj + 1;
            if consecutive_zwj > 1 {
                continue;
            }
            push_char(&mut sanitized_text, c);
            continue;
        } else {
            consecutive_zwj = 0;
        }
        if is_combining_mark(c) {
            consecutive_combining = consecutive_combining + 1;
            if consecutive_combining > 2 {
                continue;
            }
        } else {
            consecutive_combining = 0;
        }
        push_char(&mut sanitized_text, c);
    }
    proof {
        assert(chars@.take(n as int) =~= chars@);
        lemma_sanitized_marks(content@);
    }
    sanitized_text
}

/// Why a chat message is refused.
#[derive(Clone, Copy, Debug, PartialEq, Eq)]
pub enum MessageFault {
    Empty,
    TooLong,
}

/// Longest accepted message, in characters, once sanitized and trimmed.
pub const MAX_MESSAGE_CHARS: usize = 4000;

/// The message that `validate_message` returns for each fault.
pub open spec fn message_fault_message(f: MessageFault) -> Seq<char> {
    match f {
        MessageFault::Empty => "Сообщение не может быть пустым"@,
        MessageFault::TooLong => "Сообщение слишком длинное (максимум 4000 символов)"@,
    }
}

/// The verdict on a chat message: `None` when accepted.
pub open spec fn message_fault(content: Seq<char>) -> Option<MessageFault> {
    let t = trim(sanitized(content));
    if t.len() == 0 {
        Some(MessageFault::Empty)
    } else if t.len() > MAX_MESSAGE_CHARS {
        Some(MessageFault::TooLong)
    } else {
        None
    }
}

impl MessageFault {
    pub fn message(self) -> (m: &'static str)
        ensures
            m@ == message_fault_message(self),
    {
        match self {
            MessageFault::Empty => "Сообщение не может быть пустым",
            MessageFault::TooLong => "Сообщение слишком длинное (максимум 4000 символов)",
        }
    }
}

/// Validates chat message text: sanitizes it, refuses it when nothing visible
/// is left (only whitespace, or only removed characters) or when it is longer
/// than 4000 characters once trimmed, and otherwise returns the sanitized text
/// (not trimmed).
pub fn validate_message(content: &str) -> (r: Result<String, &'static str>)
    ensures
        r is Ok <==> message_fault(content@) is None,
        r matches Ok(s) ==> s@ == sanitized(content@),
        r matches Err(m) ==> m@ == message_fault_message(message_fault(content@)->0),
{
    let sanitized_text = sanitize_message(content);
    let chars = chars_of(sanitized_text.as_str());
    let trimmed = trim_chars(&chars);
    if trimmed.len() == 0 {
        return Err(MessageFault::Empty.message());
    }
    if trimmed.len() > MAX_MESSAGE_CHARS {
        return Err(MessageFault::TooLong.message());
    }
    Ok(sanitized_text)
}


// ---------------------------------------------------------------------------
// Laws
// ---------------------------------------------------------------------------

/// Text as people write it: no character that is always stripped, no two
/// joiners in a row, no combining mark directly before a joiner, and no three
/// combining marks in a row.
pub open spec fn natural_text(s: Seq<char>) -> bool {
    &&& forall|i: int| 0 <= i < s.len() ==> !always_stripped(#[trigger] s[i])
    &&& forall|i: int|
        0 < i < s.len() && spec_is_joiner(#[trigger] s[i]) ==> !spec_is_joiner(s[i - 1])
            && !spec_is_combining_mark(s[i - 1])
    &&& no_three_marks_in_a_row(s)
}

proof fn lemma_natural_prefix(s: Seq<char>)
    requires
        natural_text(s),
        s.len() > 0,
    ensures
        natural_text(s.drop_last()),
{
    let p = s.drop_last();
    assert forall|i: int| 0 <= i < p.len() implies !always_stripped(#[trigger] p[i]) by {
        assert(p[i] == s[i]);
    }
    assert forall|i: int| 0 < i < p.len() && spec_is_joiner(#[trigger] p[i]) implies !spec_is_joiner(
        p[i - 1],
    ) && !spec_is_combining_mark(p[i - 1]) by {
        assert(p[i] == s[i] && p[i - 1] == s[i - 1]);
    }
    assert forall|i: int|
        0 <= i && i + 2 < p.len() implies !(spec_is_combining_mark(#[trigger] p[i])
        && spec_is_combining_mark(p[i + 1]) && spec_is_combining_mark(p[i + 2])) by {
        assert(p[i] == s[i] && p[i + 1] == s[i + 1] && p[i + 2] == s[i + 2]);
    }
}

proof fn lemma_natural_mark_run(s: Seq<char>)
    requires
        natural_text(s),
    ensures
        mark_run(s) <= 2,
        s.len() > 0 && !spec_is_combining_mark(s.last()) ==> mark_run(s) == 0,
        s.len() > 0 && spec_is_combining_mark(s.last()) && (s.len() < 2
            || !spec_is_combining_mark(s[s.len() - 2])) ==> mark_run(s) == 1,
    decreases s.len(),
{
    if s.len() > 0 {
        let p = s.drop_last();
        lemma_natural_prefix(s);
        lemma_natural_mark_run(p);
        let c = s.last();
        assert(!always_stripped(s[s.len() - 1]));
        if spec_is_joiner(c) {
            if p.len() > 0 {
                assert(s[s.len() - 1] == c);
                assert(p.last() == s[s.len() - 2]);
                assert(!spec_is_combining_mark(p.last()));
            }
        } else if spec_is_combining_mark(c) {
            if p.len() >= 1 && spec_is_combining_mark(p.last()) {
                assert(p.last() == s[s.len() - 2]);
                if p.len() >= 2 {
                    assert(p[p.len() - 2] == s[s.len() - 3]);
                    assert(!(spec_is_combining_mark(s[s.len() - 3]) && spec_is_combining_mark(
                        s[s.len() - 2],
                    ) && spec_is_combining_mark(s[s.len() - 1])));
                }
            } else if p.len() >= 1 {
                assert(p.last() == s[s.len() - 2]);
            }
        }
    }
}

/// Sanitizing leaves natural text (any script, emoji joined by single joiners,
/// up to two stacked diacritics) unchanged.
pub proof fn lemma_sanitize_keeps_natural_text(s: Seq<char>)
    requires
        natural_text(s),
    ensures
        sanitized(s) == s,
    decreases s.len(),
{
    if s.len() > 0 {
        let p = s.drop_last();
        let c = s.last();
        lemma_natural_prefix(s);
        lemma_sanitize_keeps_natural_text(p);
        lemma_natural_mark_run(s);
        assert(!always_stripped(s[s.len() - 1]));
        if spec_is_joiner(c) && p.len() > 0 {
            assert(p.last() == s[s.len() - 2]);
            assert(!spec_is_joiner(p.last()));
            assert(!always_stripped(p[p.len() - 1]));
            assert(joiner_run(p) == 0);
        }
        assert(!always_stripped(c));
        if spec_is_joiner(c) {
            assert(!always_stripped(s.last()));
            assert(s.drop_last() == p);
            assert(joiner_run(s) == joiner_run(p) + 1);
            assert(joiner_run(p) == 0);
        }
        assert(!spec_is_joiner(c) && spec_is_combining_mark(c) ==> mark_run(s) <= 2);
        assert(keeps_last(s));
        assert(p.push(c) =~= s);
    }
}

proof fn lemma_no_fault_after(t: Seq<char>, k: int, j: int)
    requires
        0 <= k <= j < t.len(),
        first_fault_from(t, k) is None,
    ensures
        fault_at(t, j) is None,
    decreases j - k,
{
    if k < j {
        lemma_no_fault_after(t, k + 1, j);
    }
}

proof fn lemma_marks_bounded(t: Seq<char>, k: int)
    requires
        0 <= k <= t.len(),
        forall|i: int| 0 <= i < t.len() ==> fault_at(t, i) is None,
    ensures
        count_marks(t.take(k)) <= 2,
    decreases k,
{
    if k > 0 {
        lemma_marks_bounded(t, k - 1);
        assert(t.take(k).drop_last() =~= t.take(k - 1));
        assert(fault_at(t, k - 1) is None);
    }
}

/// An accepted user name, once trimmed, has 2 to 32 characters, each a letter,
/// an ASCII digit, `_`, `.`, `-` or a combining mark (so no control, space,
/// bidirectional or invisible character), never two combining marks in a row
/// and at most two in all, and letters of at most one alphabet.
pub proof fn lemma_accepted_username(u: Seq<char>)
    requires
        username_fault(u) is None,
    ensures
        2 <= trim(u).len() <= 32,
        forall|i: int|
            0 <= i < trim(u).len() ==> username_char_allowed(#[trigger] trim(u)[i])
                && !spec_is_control(trim(u)[i]) && !spec_is_whitespace(trim(u)[i])
                && !spec_is_bidi_override(trim(u)[i]) && !spec_is_invisible_char(trim(u)[i]),
        forall|i: int|
            0 < i < trim(u).len() ==> !(spec_is_combining_mark(#[trigger] trim(u)[i])
                && spec_is_combining_mark(trim(u)[i - 1])),
        count_marks(trim(u)) <= 2,
        script_count(trim(u)) <= 1,
{
    let t = trim(u);
    assert forall|i: int| 0 <= i < t.len() implies fault_at(t, i) is None by {
        lemma_no_fault_after(t, 0, i);
    }
    assert forall|i: int| 0 <= i < t.len() implies username_char_allowed(#[trigger] t[i])
        && !spec_is_control(t[i]) && !spec_is_whitespace(t[i]) && !spec_is_bidi_override(t[i])
        && !spec_is_invisible_char(t[i]) by {
        assert(fault_at(t, i) is None);
    }
    assert forall|i: int| 0 < i < t.len() implies !(spec_is_combining_mark(#[trigger] t[i])
        && spec_is_combining_mark(t[i - 1])) by {
        assert(fault_at(t, i) is None);
    }
    lemma_marks_bounded(t, t.len() as int);
    assert(t.take(t.len() as int) =~= t);
}

/// An accepted message is its sanitized text, which holds no bidirectional
/// override, no stripped invisible character and no three combining marks in a
/// row, and which has between 1 and 4000 characters once trimmed.
pub proof fn lemma_accepted_message(content: Seq<char>)
    requires
        message_fault(content) is None,
    ensures
        1 <= trim(sanitized(content)).len() <= MAX_MESSAGE_CHARS,
        forall|i: int|
            0 <= i < sanitized(content).len() ==> !spec_is_bidi_override(
                #[trigger] sanitized(content)[i],
            ) && !spec_is_stripped_invisible(sanitized(content)[i]),
        no_three_marks_in_a_row(sanitized(content)),
{
    lemma_sanitized_marks(content);
}

/// `sub` is `s` with some characters left out (order kept).
pub open spec fn is_subsequence(sub: Seq<char>, s: Seq<char>) -> bool
    decreases s.len(),
{
    if sub.len() == 0 {
        true
    } else if s.len() == 0 {
        false
    } else if sub.last() == s.last() && is_subsequence(sub.drop_last(), s.drop_last()) {
        true
    } else {
        is_subsequence(sub, s.drop_last())
    }
}

/// Sanitizing only removes characters: it never adds, changes or reorders any.
pub proof fn lemma_sanitize_only_removes(s: Seq<char>)
    ensures
        is_subsequence(sanitized(s), s),
        sanitized(s).len() <= s.len(),
    decreases s.len(),
{
    if s.len() > 0 {
        let p = s.drop_last();
        lemma_sanitize_only_removes(p);
        if keeps_last(s) {
            let o = sanitized(p);
            assert(sanitized(s).drop_last() =~= o);
            assert(sanitized(s).last() == s.last());
        } else {
            lemma_subsequence_extend(sanitized(p), p, s.last());
            assert(p.push(s.last()) =~= s);
        }
    }
}

proof fn lemma_subsequence_extend(sub: Seq<char>, s: Seq<char>, c: char)
    requires
        is_subsequence(sub, s),
    ensures
        is_subsequence(sub, s.push(c)),
{
    let t = s.push(c);
    assert(t.drop_last() =~= s);
    if sub.len() > 0 && !(sub.last() == t.last() && is_subsequence(sub.drop_last(), t.drop_last())) {
        assert(is_subsequence(sub, t.drop_last()));
    }
}

/// An accepted user name, once trimmed, passes message sanitizing unchanged:
/// the user-name rules are stricter than the message rules.
pub proof fn lemma_accepted_username_is_sanitized(u: Seq<char>)
    requires
        username_fault(u) is None,
    ensures
        sanitized(trim(u)) == trim(u),
{
    let t = trim(u);
    lemma_accepted_username(u);
    assert forall|i: int| 0 <= i < t.len() implies !always_stripped(#[trigger] t[i]) by {
        assert(!spec_is_bidi_override(t[i]) && !spec_is_invisible_char(t[i]));
    }
    assert forall|i: int| 0 < i < t.len() && spec_is_joiner(#[trigger] t[i]) implies !spec_is_joiner(
        t[i - 1],
    ) && !spec_is_combining_mark(t[i - 1]) by {
        assert(!spec_is_invisible_char(t[i]));
    }
    assert forall|i: int|
        0 <= i && i + 2 < t.len() implies !(spec_is_combining_mark(#[trigger] t[i])
        && spec_is_combining_mark(t[i + 1]) && spec_is_combining_mark(t[i + 2])) by {
        assert(!(spec_is_combining_mark(t[i + 1]) && spec_is_combining_mark(t[i])));
    }
    lemma_sanitize_keeps_natural_text(t);
}

// ---------------------------------------------------------------------------
// Laws over the code points themselves
// ---------------------------------------------------------------------------

proof fn lemma_trim_keeps(u: Seq<char>)
    requires
        u.len() > 0,
        !spec_is_whitespace(u[0]),
        !spec_is_whitespace(u.last()),
    ensures
        trim(u) == u,
{
    assert(trim_start(u) == u);
    assert(trim_end(u) == u);
}

proof fn lemma_name_without_fault(u: Seq<char>)
    requires
        2 <= u.len() <= 32,
        forall|i: int|
            0 <= i < u.len() ==> !spec_is_control(#[trigger] u[i]) && !spec_is_whitespace(u[i])
                && !spec_is_bidi_override(u[i]) && !spec_is_invisible_char(u[i])
                && !spec_is_combining_mark(u[i]) && username_char_allowed(u[i]),
        script_count(u) <= 1,
    ensures
        username_fault(u) is None,
{
    assert(!spec_is_whitespace(u[0]));
    assert(!spec_is_whitespace(u[u.len() - 1]));
    lemma_trim_keeps(u);
    assert forall|j: int| 0 <= j < u.len() implies fault_at(u, j) is None by {
        assert(!spec_is_combining_mark(u[j]));
    }
    lemma_no_fault_before(u, 0, u.len() as int);
}

/// Names written in Cyrillic are accepted: 2 to 32 characters, each from the
/// Cyrillic or Cyrillic Supplement block (U+0400..U+052F, so `Ё` and `ё` too),
/// an ASCII digit, `_`, `.` or `-`, make an accepted user name (such as
/// "Артём", "Алёна" or "Олексій").
pub proof fn lemma_cyrillic_names_accepted(u: Seq<char>)
    requires
        2 <= u.len() <= 32,
        forall|i: int|
            0 <= i < u.len() ==> {
                let v = #[trigger] u[i] as int;
                ||| 0x0400 <= v <= 0x052F
                ||| 0x30 <= v <= 0x39
                ||| v == 0x5F || v == 0x2E || v == 0x2D
            },
    ensures
        username_fault(u) is None,
{
    assert forall|i: int| 0 <= i < u.len() implies !spec_is_latin_letter(#[trigger] u[i])
        && !spec_is_greek_letter(u[i]) by {
        let v = u[i] as int;
        assert(0x0400 <= v <= 0x052F || 0x30 <= v <= 0x39 || v == 0x5F || v == 0x2E || v == 0x2D);
    }
    assert(!has_latin(u));
    assert(!has_greek(u));
    assert forall|i: int|
        0 <= i < u.len() implies !spec_is_control(#[trigger] u[i]) && !spec_is_whitespace(u[i])
        && !spec_is_bidi_override(u[i]) && !spec_is_invisible_char(u[i]) && !spec_is_combining_mark(
        u[i],
    ) && username_char_allowed(u[i]) by {
        let v = u[i] as int;
        assert(0x0400 <= v <= 0x052F || 0x30 <= v <= 0x39 || v == 0x5F || v == 0x2E || v == 0x2D);
    }
    lemma_name_without_fault(u);
}

/// Names written in Latin letters are accepted: 2 to 32 characters, each an
/// ASCII letter, a letter of U+00C0..U+024F other than the signs `×` (U+00D7)
/// and `÷` (U+00F7), an ASCII digit, `_`, `.` or `-`, make an accepted user
/// name.
pub proof fn lemma_latin_names_accepted(u: Seq<char>)
    requires
        2 <= u.len() <= 32,
        forall|i: int|
            0 <= i < u.len() ==> {
                let v = #[trigger] u[i] as int;
                ||| 0x61 <= v <= 0x7A
                ||| 0x41 <= v <= 0x5A
                ||| 0xC0 <= v <= 0x024F && v != 0xD7 && v != 0xF7
                ||| 0x30 <= v <= 0x39
                ||| v == 0x5F || v == 0x2E || v == 0x2D
            },
    ensures
        username_fault(u) is None,
{
    assert forall|i: int| 0 <= i < u.len() implies !spec_is_cyrillic_letter(#[trigger] u[i])
        && !spec_is_greek_letter(u[i]) && !spec_is_control(u[i]) && !spec_is_whitespace(u[i])
        && !spec_is_bidi_override(u[i]) && !spec_is_invisible_char(u[i]) && !spec_is_combining_mark(
        u[i],
    ) && username_char_allowed(u[i]) by {
        let v = u[i] as int;
        assert(0x61 <= v <= 0x7A || 0x41 <= v <= 0x5A || (0xC0 <= v <= 0x024F && v != 0xD7 && v
            != 0xF7) || 0x30 <= v <= 0x39 || v == 0x5F || v == 0x2E || v == 0x2D);
    }
    assert(!has_cyrillic(u));
    assert(!has_greek(u));
    lemma_name_without_fault(u);
}

/// Names written in Greek are accepted: 2 to 32 characters, each from the
/// Greek and Coptic block (U+0370..U+03FF), an ASCII digit, `_`, `.` or `-`,
/// make an accepted user name.
pub proof fn lemma_greek_names_accepted(u: Seq<char>)
    requires
        2 <= u.len() <= 32,
        forall|i: int|
            0 <= i < u.len() ==> {
                let v = #[trigger] u[i] as int;
                ||| 0x0370 <= v <= 0x03FF
                ||| 0x30 <= v <= 0x39
                ||| v == 0x5F || v == 0x2E || v == 0x2D
            },
    ensures
        username_fault(u) is None,
{
    assert forall|i: int| 0 <= i < u.len() implies !spec_is_cyrillic_letter(#[trigger] u[i])
        && !spec_is_latin_letter(u[i]) && !spec_is_control(u[i]) && !spec_is_whitespace(u[i])
        && !spec_is_bidi_override(u[i]) && !spec_is_invisible_char(u[i]) && !spec_is_combining_mark(
        u[i],
    ) && username_char_allowed(u[i]) by {
        let v = u[i] as int;
        assert(0x0370 <= v <= 0x03FF || 0x30 <= v <= 0x39 || v == 0x5F || v == 0x2E || v == 0x2D);
    }
    assert(!has_cyrillic(u));
    assert(!has_latin(u));
    lemma_name_without_fault(u);
}

proof fn lemma_count_marks_step(t: Seq<char>, i: int)
    requires
        0 <= i < t.len(),
    ensures
        count_marks(t.take(i + 1)) == count_marks(t.take(i)) + if spec_is_combining_mark(t[i]) {
            1int
        } else {
            0int
        },
{
    assert(t.take(i + 1).drop_last() =~= t.take(i));
}

proof fn lemma_count_marks_mono(t: Seq<char>, a: int, b: int)
    requires
        0 <= a <= b <= t.len(),
    ensures
        count_marks(t.take(a)) <= count_marks(t.take(b)),
    decreases b - a,
{
    if a < b {
        lemma_count_marks_mono(t, a, b - 1);
        lemma_count_marks_step(t, b - 1);
    }
}

/// What an accepted user name is made of, by code point: once trimmed, every
/// character is an ASCII letter, a character of U+00C0..U+024F other than `×`
/// and `÷`, of U+0370..U+03FF (Greek), of U+0400..U+052F (Cyrillic), an ASCII
/// digit, `_`, `.`, `-`, or a combining mark (U+0300..U+036F, U+1AB0..U+1AFF,
/// U+1DC0..U+1DFF, U+20D0..U+20FF, U+FE20..U+FE2F); no two of the three
/// alphabets are mixed; no two combining marks stand side by side, and there
/// are never three of them.
pub proof fn lemma_accepted_username_code_points(u: Seq<char>)
    requires
        username_fault(u) is None,
    ensures
        2 <= trim(u).len() <= 32,
        forall|i: int|
            0 <= i < trim(u).len() ==> {
                let v = #[trigger] trim(u)[i] as int;
                ||| 0x61 <= v <= 0x7A
                ||| 0x41 <= v <= 0x5A
                ||| 0xC0 <= v <= 0x024F && v != 0xD7 && v != 0xF7
                ||| 0x0370 <= v <= 0x03FF
                ||| 0x0400 <= v <= 0x052F
                ||| 0x30 <= v <= 0x39
                ||| v == 0x5F || v == 0x2E || v == 0x2D
                ||| 0x0300 <= v <= 0x036F
                ||| 0x1AB0 <= v <= 0x1AFF
                ||| 0x1DC0 <= v <= 0x1DFF
                ||| 0x20D0 <= v <= 0x20FF
                ||| 0xFE20 <= v <= 0xFE2F
            },
        forall|i: int, j: int|
            0 <= i < trim(u).len() && 0 <= j < trim(u).len() ==> {
                let a = #[trigger] trim(u)[i] as int;
                let b = #[trigger] trim(u)[j] as int;
                let latin_a = 0x61 <= a <= 0x7A || 0x41 <= a <= 0x5A || 0xC0 <= a <= 0x024F;
                let greek_a = 0x0370 <= a <= 0x03FF;
                let cyr_a = 0x0400 <= a <= 0x052F;
                let latin_b = 0x61 <= b <= 0x7A || 0x41 <= b <= 0x5A || 0xC0 <= b <= 0x024F;
                let greek_b = 0x0370 <= b <= 0x03FF;
                let cyr_b = 0x0400 <= b <= 0x052F;
                &&& !(latin_a && cyr_b)
                &&& !(latin_a && greek_b)
                &&& !(cyr_a && greek_b)
            },
        forall|i: int|
            0 < i < trim(u).len() ==> {
                let a = trim(u)[i - 1] as int;
                let b = #[trigger] trim(u)[i] as int;
                !((0x0300 <= a <= 0x036F || 0x1AB0 <= a <= 0x1AFF || 0x1DC0 <= a <= 0x1DFF
                    || 0x20D0 <= a <= 0x20FF || 0xFE20 <= a <= 0xFE2F) && (0x0300 <= b <= 0x036F
                    || 0x1AB0 <= b <= 0x1AFF || 0x1DC0 <= b <= 0x1DFF || 0x20D0 <= b <= 0x20FF
                    || 0xFE20 <= b <= 0xFE2F))
            },
        forall|i: int, j: int, k: int|
            0 <= i < j < k < trim(u).len() ==> !(spec_is_combining_mark(#[trigger] trim(u)[i])
                && spec_is_combining_mark(#[trigger] trim(u)[j]) && spec_is_combining_mark(
                #[trigger] trim(u)[k],
            )),
{
    let t = trim(u);
    lemma_accepted_username(u);
    assert forall|i: int, j: int|
        0 <= i < t.len() && 0 <= j < t.len() implies {
        let a = #[trigger] t[i] as int;
        let b = #[trigger] t[j] as int;
        let latin_a = 0x61 <= a <= 0x7A || 0x41 <= a <= 0x5A || 0xC0 <= a <= 0x024F;
        let greek_a = 0x0370 <= a <= 0x03FF;
        let cyr_a = 0x0400 <= a <= 0x052F;
        let latin_b = 0x61 <= b <= 0x7A || 0x41 <= b <= 0x5A || 0xC0 <= b <= 0x024F;
        let greek_b = 0x0370 <= b <= 0x03FF;
        let cyr_b = 0x0400 <= b <= 0x052F;
        &&& !(latin_a && cyr_b)
        &&& !(latin_a && greek_b)
        &&& !(cyr_a && greek_b)
    } by {
        let a = t[i] as int;
        let b = t[j] as int;
        if spec_is_latin_letter(t[i]) {
            assert(has_latin(t));
        }
        if spec_is_cyrillic_letter(t[i]) {
            assert(has_cyrillic(t));
        }
        if spec_is_cyrillic_letter(t[j]) {
            assert(has_cyrillic(t));
        }
        if spec_is_greek_letter(t[j]) {
            assert(has_greek(t));
        }
    }
    assert forall|i: int| 0 < i < t.len() implies {
        let a = t[i - 1] as int;
        let b = #[trigger] t[i] as int;
        !((0x0300 <= a <= 0x036F || 0x1AB0 <= a <= 0x1AFF || 0x1DC0 <= a <= 0x1DFF || 0x20D0 <= a
            <= 0x20FF || 0xFE20 <= a <= 0xFE2F) && (0x0300 <= b <= 0x036F || 0x1AB0 <= b <= 0x1AFF
            || 0x1DC0 <= b <= 0x1DFF || 0x20D0 <= b <= 0x20FF || 0xFE20 <= b <= 0xFE2F))
    } by {
        assert(!(spec_is_combining_mark(t[i]) && spec_is_combining_mark(t[i - 1])));
    }
    assert forall|i: int, j: int, k: int|
        0 <= i < j < k < t.len() implies !(spec_is_combining_mark(#[trigger] t[i])
        && spec_is_combining_mark(#[trigger] t[j]) && spec_is_combining_mark(#[trigger] t[k])) by {
        if spec_is_combining_mark(t[i]) && spec_is_combining_mark(t[j]) && spec_is_combining_mark(
            t[k],
        ) {
            lemma_count_marks_step(t, i);
            lemma_count_marks_mono(t, i + 1, j);
            lemma_count_marks_step(t, j);
            lemma_count_marks_mono(t, j + 1, k);
            lemma_count_marks_step(t, k);
            lemma_count_marks_mono(t, k + 1, t.len() as int);
            assert(t.take(t.len() as int) =~= t);
        }
    }
}

/// Ordinary text passes sanitizing unchanged. Only these are ever removed:
/// the bidirectional controls U+202A..U+202E, U+2066..U+2069, U+061C, U+200E
/// and U+200F; the invisible characters U+200B, U+FEFF, U+00AD, U+2060,
/// U+180E, U+E0000..U+E007F and U+FFF0..U+FFFF; a joiner (U+200C, U+200D)
/// following another joiner or a combining mark; and a third combining mark
/// in a row. Text holding none of these (any script, punctuation such as `…`
/// U+2026 or `•` U+2022, emoji) comes back as it was.
pub proof fn lemma_sanitize_keeps_ordinary_text(s: Seq<char>)
    requires
        forall|i: int|
            0 <= i < s.len() ==> {
                let v = #[trigger] s[i] as int;
                &&& !(0x202A <= v <= 0x202E || 0x2066 <= v <= 0x2069 || v == 0x061C || v == 0x200E
                    || v == 0x200F)
                &&& !(v == 0x200B || v == 0xFEFF || v == 0x00AD || v == 0x2060 || v == 0x180E
                    || 0xE0000 <= v <= 0xE007F || 0xFFF0 <= v <= 0xFFFF)
            },
        forall|i: int|
            0 < i < s.len() ==> {
                let a = s[i - 1] as int;
                let b = #[trigger] s[i] as int;
                (b == 0x200C || b == 0x200D) ==> !(a == 0x200C || a == 0x200D || 0x0300 <= a
                    <= 0x036F || 0x1AB0 <= a <= 0x1AFF || 0x1DC0 <= a <= 0x1DFF || 0x20D0 <= a
                    <= 0x20FF || 0xFE20 <= a <= 0xFE2F)
            },
        forall|i: int|
            0 <= i && i + 2 < s.len() ==> {
                let a = #[trigger] s[i] as int;
                let b = s[i + 1] as int;
                let c = s[i + 2] as int;
                !((0x0300 <= a <= 0x036F || 0x1AB0 <= a <= 0x1AFF || 0x1DC0 <= a <= 0x1DFF
                    || 0x20D0 <= a <= 0x20FF || 0xFE20 <= a <= 0xFE2F) && (0x0300 <= b <= 0x036F
                    || 0x1AB0 <= b <= 0x1AFF || 0x1DC0 <= b <= 0x1DFF || 0x20D0 <= b <= 0x20FF
                    || 0xFE20 <= b <= 0xFE2F) && (0x0300 <= c <= 0x036F || 0x1AB0 <= c <= 0x1AFF
                    || 0x1DC0 <= c <= 0x1DFF || 0x20D0 <= c <= 0x20FF || 0xFE20 <= c <= 0xFE2F))
            },
    ensures
        sanitized(s) == s,
{
    assert forall|i: int| 0 <= i < s.len() implies !always_stripped(#[trigger] s[i]) by {
        let v = s[i] as int;
    }
    assert forall|i: int|
        0 < i < s.len() && spec_is_joiner(#[trigger] s[i]) implies !spec_is_joiner(s[i - 1])
        && !spec_is_combining_mark(s[i - 1]) by {
        let b = s[i] as int;
    }
    assert forall|i: int|
        0 <= i && i + 2 < s.len() implies !(spec_is_combining_mark(#[trigger] s[i])
        && spec_is_combining_mark(s[i + 1]) && spec_is_combining_mark(s[i + 2])) by {
        let a = s[i] as int;
    }
    lemma_sanitize_keeps_natural_text(s);
}

/// What sanitizing never lets through, by code point: no bidirectional
/// control (U+202A..U+202E, U+2066..U+2069, U+061C, U+200E, U+200F), none of
/// the invisible characters U+200B, U+FEFF, U+00AD, U+2060, U+180E,
/// U+E0000..U+E007F, U+FFF0..U+FFFF, and never three combining marks in a row.
pub proof fn lemma_sanitize_removes_code_points(s: Seq<char>)
    ensures
        forall|i: int|
            0 <= i < sanitized(s).len() ==> {
                let v = #[trigger] sanitized(s)[i] as int;
                &&& !(0x202A <= v <= 0x202E || 0x2066 <= v <= 0x2069 || v == 0x061C || v == 0x200E
                    || v == 0x200F)
                &&& !(v == 0x200B || v == 0xFEFF || v == 0x00AD || v == 0x2060 || v == 0x180E
                    || 0xE0000 <= v <= 0xE007F || 0xFFF0 <= v <= 0xFFFF)
            },
        forall|i: int|
            0 <= i && i + 2 < sanitized(s).len() ==> {
                let a = #[trigger] sanitized(s)[i] as int;
                let b = sanitized(s)[i + 1] as int;
                let c = sanitized(s)[i + 2] as int;
                !((0x0300 <= a <= 0x036F || 0x1AB0 <= a <= 0x1AFF || 0x1DC0 <= a <= 0x1DFF
                    || 0x20D0 <= a <= 0x20FF || 0xFE20 <= a <= 0xFE2F) && (0x0300 <= b <= 0x036F
                    || 0x1AB0 <= b <= 0x1AFF || 0x1DC0 <= b <= 0x1DFF || 0x20D0 <= b <= 0x20FF
                    || 0xFE20 <= b <= 0xFE2F) && (0x0300 <= c <= 0x036F || 0x1AB0 <= c <= 0x1AFF
                    || 0x1DC0 <= c <= 0x1DFF || 0x20D0 <= c <= 0x20FF || 0xFE20 <= c <= 0xFE2F))
            },
{
    lemma_sanitized_marks(s);
    let o = sanitized(s);
    assert forall|i: int| 0 <= i < o.len() implies {
        let v = #[trigger] o[i] as int;
        &&& !(0x202A <= v <= 0x202E || 0x2066 <= v <= 0x2069 || v == 0x061C || v == 0x200E || v
            == 0x200F)
        &&& !(v == 0x200B || v == 0xFEFF || v == 0x00AD || v == 0x2060 || v == 0x180E || 0xE0000
            <= v <= 0xE007F || 0xFFF0 <= v <= 0xFFFF)
    } by {
        assert(!always_stripped(o[i]));
    }
    assert forall|i: int| 0 <= i && i + 2 < o.len() implies {
        let a = #[trigger] o[i] as int;
        let b = o[i + 1] as int;
        let c = o[i + 2] as int;
        !((0x0300 <= a <= 0x036F || 0x1AB0 <= a <= 0x1AFF || 0x1DC0 <= a <= 0x1DFF || 0x20D0 <= a
            <= 0x20FF || 0xFE20 <= a <= 0xFE2F) && (0x0300 <= b <= 0x036F || 0x1AB0 <= b <= 0x1AFF
            || 0x1DC0 <= b <= 0x1DFF || 0x20D0 <= b <= 0x20FF || 0xFE20 <= b <= 0xFE2F) && (0x0300
            <= c <= 0x036F || 0x1AB0 <= c <= 0x1AFF || 0x1DC0 <= c <= 0x1DFF || 0x20D0 <= c
            <= 0x20FF || 0xFE20 <= c <= 0xFE2F))
    } by {
        assert(!(spec_is_combining_mark(o[i]) && spec_is_combining_mark(o[i + 1])
            && spec_is_combining_mark(o[i + 2])));
    }
}

/// The verdict on a message depends on its sanitized, trimmed text alone:
/// refused as empty exactly when that text has no character, as too long
/// exactly when it has more than 4000, and accepted otherwise (so a message
/// of a single visible character, such as "👍" or "?", is accepted).
pub proof fn lemma_message_verdict(content: Seq<char>)
    ensures
        message_fault(content) is None <==> 1 <= trim(sanitized(content)).len() <= 4000,
        message_fault(content) == Some(MessageFault::Empty) <==> trim(sanitized(content)).len()
            == 0,
        message_fault(content) == Some(MessageFault::TooLong) <==> trim(sanitized(content)).len()
            > 4000,
{
}

/// Sanitizing works character by character: appending an ordinary character
/// (none of the removed controls and invisibles, no joiner U+200C/U+200D, no
/// combining mark) appends it to the result; a joiner right after a joiner is
/// dropped; a combining mark right after two combining marks is dropped; and a
/// bidirectional control or a removed invisible character is always dropped.
pub proof fn lemma_sanitize_appending(s: Seq<char>, c: char)
    ensures
        ({
            let v = c as int;
            &&& !(0x202A <= v <= 0x202E || 0x2066 <= v <= 0x2069 || v == 0x061C || v == 0x200E
                || v == 0x200F)
            &&& !(v == 0x200B || v == 0xFEFF || v == 0x00AD || v == 0x2060 || v == 0x180E
                || 0xE0000 <= v <= 0xE007F || 0xFFF0 <= v <= 0xFFFF)
            &&& !(v == 0x200C || v == 0x200D)
            &&& !(0x0300 <= v <= 0x036F || 0x1AB0 <= v <= 0x1AFF || 0x1DC0 <= v <= 0x1DFF
                || 0x20D0 <= v <= 0x20FF || 0xFE20 <= v <= 0xFE2F)
        }) ==> sanitized(s.push(c)) == sanitized(s).push(c),
        ({
            let v = c as int;
            ||| 0x202A <= v <= 0x202E || 0x2066 <= v <= 0x2069 || v == 0x061C || v == 0x200E
                || v == 0x200F
            ||| v == 0x200B || v == 0xFEFF || v == 0x00AD || v == 0x2060 || v == 0x180E
                || 0xE0000 <= v <= 0xE007F || 0xFFF0 <= v <= 0xFFFF
        }) ==> sanitized(s.push(c)) == sanitized(s),
        (s.len() > 0 && (s.last() as int == 0x200C || s.last() as int == 0x200D) && (c as int
            == 0x200C || c as int == 0x200D)) ==> sanitized(s.push(c)) == sanitized(s),
        ({
            let v = c as int;
            let a = if s.len() >= 2 { s[s.len() - 2] as int } else { 0 };
            let b = if s.len() >= 1 { s[s.len() - 1] as int } else { 0 };
            &&& s.len() >= 2
            &&& (0x0300 <= a <= 0x036F || 0x1AB0 <= a <= 0x1AFF || 0x1DC0 <= a <= 0x1DFF
                || 0x20D0 <= a <= 0x20FF || 0xFE20 <= a <= 0xFE2F)
            &&& (0x0300 <= b <= 0x036F || 0x1AB0 <= b <= 0x1AFF || 0x1DC0 <= b <= 0x1DFF
                || 0x20D0 <= b <= 0x20FF || 0xFE20 <= b <= 0xFE2F)
            &&& (0x0300 <= v <= 0x036F || 0x1AB0 <= v <= 0x1AFF || 0x1DC0 <= v <= 0x1DFF
                || 0x20D0 <= v <= 0x20FF || 0xFE20 <= v <= 0xFE2F)
        }) ==> sanitized(s.push(c)) == sanitized(s),
{
    let t = s.push(c);
    assert(t.drop_last() =~= s);
    assert(t.last() == c);
    if s.len() >= 2 && spec_is_combining_mark(s[s.len() - 2]) && spec_is_combining_mark(
        s[s.len() - 1],
    ) && spec_is_combining_mark(c) {
        let p = s.drop_last();
        assert(p.last() == s[s.len() - 2]);
        assert(!always_stripped(p.last()) && !spec_is_joiner(p.last()));
        assert(mark_run(p) >= 1);
        assert(!always_stripped(s.last()) && !spec_is_joiner(s.last()));
        assert(mark_run(s) >= 2);
        assert(!always_stripped(c) && !spec_is_joiner(c));
        assert(mark_run(t) >= 3);
        assert(!keeps_last(t));
    }
}

} // verus!
