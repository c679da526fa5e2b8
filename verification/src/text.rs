//! Text helpers shared by the rule matching and the replies.
//!
//! Text is modelled as a sequence of characters. Each helper states its result as a plain
//! property of those sequences, so a rule such as "the title starts with the identifier"
//! reads the same way in a contract as it does in the configuration.

use vstd::prelude::*;
use vstd::string::StrSliceExecFns;
use vstd::string::StringExecFns;

verus! {

/// The suffix that application identifiers may carry over from other platforms.
pub open spec fn exe_suffix() -> Seq<char> {
    seq!['.', 'e', 'x', 'e']
}

/// `pattern` stands in `text` at character `at`.
pub open spec fn occurs_at(text: Seq<char>, pattern: Seq<char>, at: int) -> bool {
    &&& 0 <= at
    &&& at + pattern.len() <= text.len()
    &&& text.subrange(at, at + pattern.len()) == pattern
}

/// `text` begins with `pattern`.
pub open spec fn has_prefix(text: Seq<char>, pattern: Seq<char>) -> bool {
    occurs_at(text, pattern, 0)
}

/// `text` ends with `pattern`.
pub open spec fn has_suffix(text: Seq<char>, pattern: Seq<char>) -> bool {
    occurs_at(text, pattern, text.len() - pattern.len())
}

/// `pattern` stands somewhere in `text`.
pub open spec fn has_infix(text: Seq<char>, pattern: Seq<char>) -> bool {
    exists|at: int| #[trigger] occurs_at(text, pattern, at)
}

/// `text` from character `from` on, with every `.exe` taken out, looking from the left.
pub open spec fn exe_removed_from(text: Seq<char>, from: int) -> Seq<char>
    decreases text.len() - from,
{
    if from < 0 || from >= text.len() {
        Seq::empty()
    } else if occurs_at(text, exe_suffix(), from) {
        exe_removed_from(text, from + 4)
    } else {
        seq![text[from]] + exe_removed_from(text, from + 1)
    }
}

/// `text` with every `.exe` taken out.
pub open spec fn exe_removed(text: Seq<char>) -> Seq<char> {
    exe_removed_from(text, 0)
}

/// `text` with every `.exe` at its end taken off.
pub open spec fn exe_trimmed(text: Seq<char>) -> Seq<char>
    decreases text.len(),
{
    if has_suffix(text, exe_suffix()) {
        exe_trimmed(text.take(text.len() - 4))
    } else {
        text
    }
}

/// The decimal digit `d`.
pub open spec fn digit(d: nat) -> char {
    if d == 0 {
        '0'
    } else if d == 1 {
        '1'
    } else if d == 2 {
        '2'
    } else if d == 3 {
        '3'
    } else if d == 4 {
        '4'
    } else if d == 5 {
        '5'
    } else if d == 6 {
        '6'
    } else if d == 7 {
        '7'
    } else if d == 8 {
        '8'
    } else {
        '9'
    }
}

/// `n` written in decimal, without leading zeros.
pub open spec fn decimal_digits(n: nat) -> Seq<char>
    decreases n,
{
    if n < 10 {
        seq![digit(n)]
    } else {
        decimal_digits(n / 10).push(digit(n % 10))
    }
}

/// The characters of `text`, in order.
pub fn characters(text: &str) -> (found: Vec<char>)
    ensures
        found@ == text@,
{
    let mut found: Vec<char> = Vec::new();
    for c in iter: text.chars()
        invariant
            found@ == iter.seq().take(iter.index() as int),
            iter.seq() == text@,
    {
        found.push(c);
    }
    found
}

/// Whether two texts hold the same characters.
pub fn same_text(a: &str, b: &str) -> (same: bool)
    ensures
        same == (a@ == b@),
{
    a.to_owned() == b.to_owned()
}

/// Whether `pattern` stands in `text` at character `at`.
fn stands_at(text: &Vec<char>, pattern: &Vec<char>, at: usize) -> (found: bool)
    ensures
        found == occurs_at(text@, pattern@, at as int),
{
    if at > text.len() || pattern.len() > text.len() - at {
        return false;
    }
    let ghost window = text@.subrange(at as int, at + pattern@.len());
    let mut i: usize = 0;
    while i < pattern.len()
        invariant
            i <= pattern.len(),
            at + pattern.len() <= text.len(),
            window == text@.subrange(at as int, at + pattern@.len()),
            forall|k: int| 0 <= k < i ==> window[k] == pattern@[k],
        decreases pattern.len() - i,
    {
        if text[at + i] != pattern[i] {
            assert(window[i as int] != pattern@[i as int]);
            return false;
        }
        i += 1;
    }
    assert(window == pattern@);
    true
}

/// Whether `text` begins with `pattern`.
pub fn starts_with(text: &str, pattern: &str) -> (found: bool)
    ensures
        found == has_prefix(text@, pattern@),
{
    stands_at(&characters(text), &characters(pattern), 0)
}

/// Whether `text` ends with `pattern`.
pub fn ends_with(text: &str, pattern: &str) -> (found: bool)
    ensures
        found == has_suffix(text@, pattern@),
{
    let text = characters(text);
    let pattern = characters(pattern);
    if pattern.len() > text.len() {
        return false;
    }
    stands_at(&text, &pattern, text.len() - pattern.len())
}

/// Whether `pattern` stands somewhere in `text`.
pub fn contains(text: &str, pattern: &str) -> (found: bool)
    ensures
        found == has_infix(text@, pattern@),
{
    let letters = characters(text);
    let sought = characters(pattern);
    let mut at: usize = 0;
    while at < letters.len()
        invariant
            at <= letters.len(),
            letters@ == text@,
            sought@ == pattern@,
            forall|k: int| 0 <= k < at ==> !#[trigger] occurs_at(text@, pattern@, k),
        decreases letters.len() - at,
    {
        if stands_at(&letters, &sought, at) {
            return true;
        }
        at += 1;
    }
    stands_at(&letters, &sought, at)
}

/// The characters of `.exe`.
fn exe_characters() -> (suffix: Vec<char>)
    ensures
        suffix@ == exe_suffix(),
{
    vec!['.', 'e', 'x', 'e']
}

proof fn lemma_exe_removed_skips(text: Seq<char>, from: int, to: int)
    requires
        0 <= from <= to <= text.len(),
        forall|k: int| from <= k < to ==> !#[trigger] occurs_at(text, exe_suffix(), k),
    ensures
        exe_removed_from(text, from) == text.subrange(from, to) + exe_removed_from(text, to),
    decreases to - from,
{
    if from < to {
        lemma_exe_removed_skips(text, from + 1, to);
        assert(!occurs_at(text, exe_suffix(), from));
        assert(seq![text[from]] + text.subrange(from + 1, to) =~= text.subrange(from, to));
        assert(exe_removed_from(text, from) =~= text.subrange(from, to) + exe_removed_from(
            text,
            to,
        ));
    } else {
        assert(exe_removed_from(text, from) =~= text.subrange(from, to) + exe_removed_from(
            text,
            to,
        ));
    }
}

/// `text` with every `.exe` taken out.
pub fn remove_exe(text: &str) -> (rest: String)
    ensures
        rest@ == exe_removed(text@),
{
    let letters = characters(text);
    let suffix = exe_characters();
    let mut rest: String = String::new();
    let mut kept_from: usize = 0;
    let mut at: usize = 0;
    while at < letters.len()
        invariant
            letters@ == text@,
            suffix@ == exe_suffix(),
            kept_from <= at <= letters.len(),
            forall|k: int| kept_from <= k < at ==> !#[trigger] occurs_at(text@, exe_suffix(), k),
            rest@ + exe_removed_from(text@, kept_from as int) == exe_removed(text@),
        decreases letters.len() - at,
    {
        if stands_at(&letters, &suffix, at) {
            proof {
                lemma_exe_removed_skips(text@, kept_from as int, at as int);
                assert(exe_removed_from(text@, at as int) == exe_removed_from(text@, at + 4));
            }
            let ghost before = rest@;
            rest.append(text.substring_char(kept_from, at));
            at += 4;
            kept_from = at;
            assert(rest@ + exe_removed_from(text@, kept_from as int) =~= exe_removed(text@));
        } else {
            at += 1;
        }
    }
    proof {
        lemma_exe_removed_skips(text@, kept_from as int, at as int);
    }
    rest.append(text.substring_char(kept_from, at));
    assert(rest@ =~= exe_removed(text@));
    rest
}

/// `text` with every `.exe` at its end taken off.
pub fn trim_exe(text: &str) -> (rest: String)
    ensures
        rest@ == exe_trimmed(text@),
{
    let letters = characters(text);
    let suffix = exe_characters();
    let mut end: usize = letters.len();
    assert(text@.take(end as int) =~= text@);
    while end >= 4 && stands_at(&letters, &suffix, end - 4)
        invariant
            letters@ == text@,
            suffix@ == exe_suffix(),
            end <= letters.len(),
            exe_trimmed(text@) == exe_trimmed(text@.take(end as int)),
        decreases end,
    {
        proof {
            let head = text@.take(end as int);
            assert(text@.subrange(end - 4, end as int) =~= head.subrange(end - 4, end as int));
            assert(head.take(end - 4) =~= text@.take(end - 4));
        }
        end -= 4;
    }
    proof {
        let head = text@.take(end as int);
        if end >= 4 {
            assert(text@.subrange(end - 4, end as int) =~= head.subrange(end - 4, end as int));
        }
        assert(exe_trimmed(head) == head);
    }
    text.substring_char(0, end).to_owned()
}

/// The decimal digit `d`.
fn digit_text(d: usize) -> (text: &'static str)
    requires
        d < 10,
    ensures
        text@ == seq![digit(d as nat)],
{
    proof {
        reveal_strlit("0");
        reveal_strlit("1");
        reveal_strlit("2");
        reveal_strlit("3");
        reveal_strlit("4");
        reveal_strlit("5");
        reveal_strlit("6");
        reveal_strlit("7");
        reveal_strlit("8");
        reveal_strlit("9");
    }
    let text = match d {
        0 => "0",
        1 => "1",
        2 => "2",
        3 => "3",
        4 => "4",
        5 => "5",
        6 => "6",
        7 => "7",
        8 => "8",
        _ => "9",
    };
    assert(text@ =~= seq![digit(d as nat)]);
    text
}

/// `n` written in decimal.
pub fn decimal(n: usize) -> (text: String)
    ensures
        text@ == decimal_digits(n as nat),
    decreases n,
{
    if n < 10 {
        digit_text(n).to_owned()
    } else {
        let mut text = decimal(n / 10);
        text.append(digit_text(n % 10));
        assert(text@ =~= decimal_digits((n / 10) as nat).push(digit((n % 10) as nat)));
        text
    }
}

/// `n` written in decimal, with a sign where it is negative.
pub open spec fn signed_digits(n: int) -> Seq<char> {
    if n < 0 {
        "-"@ + decimal_digits((-n) as nat)
    } else {
        decimal_digits(n as nat)
    }
}

/// `n` written in decimal, with a sign where it is negative.
pub fn signed_decimal(n: i32) -> (text: String)
    ensures
        text@ == signed_digits(n as int),
{
    if n < 0 {
        let magnitude: i64 = 0 - (n as i64);
        let mut text: String = "-".to_owned();
        text.append(decimal(magnitude as u32 as usize).as_str());
        text
    } else {
        decimal(n as usize)
    }
}

/// Whether `list` holds `text`.
pub fn list_contains(list: &Vec<String>, text: &str) -> (found: bool)
    ensures
        found == list.deep_view().contains(text@),
{
    let mut i: usize = 0;
    while i < list.len()
        invariant
            i <= list.len(),
            forall|k: int| 0 <= k < i ==> #[trigger] list.deep_view()[k] != text@,
        decreases list.len() - i,
    {
        if same_text(list[i].as_str(), text) {
            assert(list.deep_view()[i as int] == text@);
            return true;
        }
        i += 1;
    }
    false
}


/// The number that a character stands for among the digits.
pub open spec fn digit_value(c: char) -> int {
    c as int - '0' as int
}

/// The number that some digits stand for.
pub open spec fn number_of(digits: Seq<char>) -> int
    decreases digits.len(),
{
    if digits.len() == 0 {
        0
    } else {
        10 * number_of(digits.drop_last()) + digit_value(digits.last())
    }
}

/// A number in decimal consists of digits, does not start with a zero unless it is one, and reads as
/// the number.
pub proof fn law_digits_read_as_the_number(n: nat)
    ensures
        decimal_digits(n).len() > 0,
        forall|i: int|
            0 <= i < decimal_digits(n).len() ==> '0' <= (#[trigger] decimal_digits(n)[i]) <= '9',
        n > 0 ==> decimal_digits(n)[0] != '0',
        number_of(decimal_digits(n)) == n,
    decreases n,
{
    let digits = decimal_digits(n);
    if n < 10 {
        assert(digits.drop_last() =~= Seq::<char>::empty());
        assert(number_of(digits.drop_last()) == 0);
    } else {
        law_digits_read_as_the_number(n / 10);
        assert(digits.drop_last() =~= decimal_digits(n / 10));
    }
}

/// A negative number in decimal is a sign and what is left without it.
pub proof fn law_negative_numbers_have_a_sign(n: int)
    ensures
        n >= 0 ==> signed_digits(n) == decimal_digits(n as nat),
        n < 0 ==> signed_digits(n) == seq!['-'] + decimal_digits((-n) as nat),
{
    reveal_strlit("-");
    assert("-"@ =~= seq!['-']);
}

} // verus!
