//! How the browser is come by.

use vstd::prelude::*;

use crate::text;

verus! {

/// The port of a running browser where none can be read.
pub const DEFAULT_PORT: u16 = 9222;

/// How the browser is come by.
pub enum LaunchPlan {
    /// Attach to a browser that runs already and listens on this port.
    Connect(u16),
    /// Start one, with or without a window. Only one without is patched.
    Launch { headless: bool, inject_stealth: bool },
}

/// Whether a character is a decimal digit.
pub open spec fn is_digit(c: char) -> bool {
    '0' <= c <= '9'
}

/// The number that digits spell.
pub open spec fn value(digits: Seq<char>) -> nat
    decreases digits.len(),
{
    if digits.len() == 0 {
        0
    } else {
        value(digits.drop_last()) * 10 + (digits.last() as u32 - '0' as u32) as nat
    }
}

/// A number behind its plus sign, where it has one.
pub open spec fn unsigned(s: Seq<char>) -> Seq<char> {
    if s.len() > 0 && s[0] == '+' {
        s.drop_first()
    } else {
        s
    }
}

/// The port that a text spells: digits, at least one, with or without a plus
/// sign before them, of a number that fits.
pub open spec fn port_of(s: Seq<char>) -> Option<u16> {
    let digits = unsigned(s);
    if digits.len() > 0 && (forall|i: int| 0 <= i < digits.len() ==> is_digit(#[trigger] digits[i]))
        && value(digits) <= u16::MAX {
        Some(value(digits) as u16)
    } else {
        None
    }
}

/// How the browser is come by: attached to where a port is set, else started. The
/// patch of its scripts is for a browser without a window.
pub open spec fn planned(connect: Option<Seq<char>>, headless: bool, stealth: bool) -> LaunchPlan {
    match connect {
        Some(port) => LaunchPlan::Connect(
            match port_of(text::trim(port)) {
                Some(p) => p,
                None => DEFAULT_PORT,
            },
        ),
        None => LaunchPlan::Launch { headless, inject_stealth: headless && stealth },
    }
}

proof fn lemma_value_grows(s: Seq<char>, k: int)
    requires
        0 <= k <= s.len(),
        forall|i: int| 0 <= i < s.len() ==> is_digit(#[trigger] s[i]),
    ensures
        value(s.take(k)) <= value(s),
    decreases s.len() - k,
{
    if k == s.len() {
        assert(s.take(k) =~= s);
    } else {
        lemma_value_grows(s.drop_last(), k);
        assert(s.drop_last().take(k) =~= s.take(k));
    }
}

/// Reads a port.
pub fn parse_port(s: &str) -> (r: Option<u16>)
    ensures
        r == port_of(s@),
{
    let chars = text::chars_of(s);
    let start: usize = if chars.len() > 0 && chars[0] == '+' {
        1
    } else {
        0
    };
    let ghost digits = unsigned(s@);
    assert(digits =~= chars@.skip(start as int));
    if start == chars.len() {
        return None;
    }
    let mut total: u32 = 0;
    let mut i: usize = start;
    assert(digits.take(0) =~= Seq::<char>::empty());
    while i < chars.len()
        invariant
            start <= i <= chars.len(),
            digits == chars@.skip(start as int),
            digits == unsigned(s@),
            digits.len() > 0,
            total == value(digits.take(i - start)),
            total <= u16::MAX,
            forall|j: int| 0 <= j < i - start ==> is_digit(#[trigger] digits[j]),
        decreases chars.len() - i,
    {
        let c = chars[i];
        assert(digits[i - start] == c);
        if !('0' <= c && c <= '9') {
            return None;
        }
        total = total * 10 + (c as u32 - '0' as u32);
        assert(digits.take(i - start + 1).drop_last() =~= digits.take(i - start));
        i = i + 1;
        if total > u16::MAX as u32 {
            proof {
                if forall|j: int| 0 <= j < digits.len() ==> is_digit(#[trigger] digits[j]) {
                    lemma_value_grows(digits, i - start);
                }
            }
            return None;
        }
    }
    assert(digits.take(i - start) =~= digits);
    Some(total as u16)
}

/// Decides how the browser is come by from what the environment sets: a port to
/// attach to, whether to run headless, and whether to patch scripts, which is done
/// headless only. A port that cannot be read is taken to be the usual one.
pub fn plan_launch(connect: Option<&str>, headless: bool, stealth: bool) -> (r: LaunchPlan)
    ensures
        r == planned(
            match connect {
                Some(port) => Some(port@),
                None => None,
            },
            headless,
            stealth,
        ),
{
    match connect {
        Some(port) => {
            let spelled = text::trimmed(port);
            match parse_port(spelled.as_str()) {
                Some(p) => LaunchPlan::Connect(p),
                None => LaunchPlan::Connect(DEFAULT_PORT),
            }
        },
        None => LaunchPlan::Launch { headless, inject_stealth: headless && stealth },
    }
}

/// A port to attach to leaves nothing else to decide. Without one the browser is
/// started, headless exactly if that is asked for, and its scripts are patched
/// exactly if that is asked for and it runs headless.
pub proof fn attaching_comes_first(port: Seq<char>, headless: bool, stealth: bool)
    ensures
        planned(Some(port), headless, stealth) is Connect,
        planned(Some(port), headless, stealth) == planned(Some(port), false, false),
        planned(None, headless, stealth) == (LaunchPlan::Launch {
            headless,
            inject_stealth: headless && stealth,
        }),
{
}

/// A port is read digit by digit: one digit is its number, with or without a plus
/// sign, and each further digit makes the number ten times as great and adds its
/// own, as long as it fits. A text that ends in anything else is no port, nor is
/// one that goes on behind what is none, nor the empty text.
pub proof fn port_digit_by_digit(s: Seq<char>, d: nat, c: char)
    requires
        d < 10,
    ensures
        port_of(Seq::empty()) is None,
        port_of(seq!["0123456789"@[d as int]]) == Some(d as u16),
        port_of(seq!['+', "0123456789"@[d as int]]) == Some(d as u16),
        port_of(s) matches Some(p) ==> port_of(s.push("0123456789"@[d as int])) == (if 10 * p + d
            <= 65535 {
            Some((10 * p + d) as u16)
        } else {
            None
        }),
        s.len() > 0 && s != seq!['+'] && port_of(s) is None ==> port_of(s.push(c)) is None,
        !"0123456789"@.contains(c) ==> port_of(s.push(c)) is None,
{
    reveal_strlit("0123456789");
    let x = "0123456789"@[d as int];
    let none = Seq::<char>::empty();
    assert(x as u32 == '0' as u32 + d && is_digit(x) && x != '+');
    assert(value(none) == 0);
    assert(unsigned(seq![x]) == seq![x] && seq![x].drop_last() =~= none);
    assert(unsigned(seq!['+', x]) =~= seq![x]);
    assert(value(seq![x]) == d);
    lemma_unsigned_push(s, c);
    lemma_unsigned_push(s, x);
    let digits = unsigned(s);
    assert(digits.push(x).drop_last() =~= digits && digits.push(c).drop_last() =~= digits);
    if s.len() > 0 {
        if port_of(s) is Some {
            assert forall|i: int| 0 <= i < digits.push(x).len() implies is_digit(
                #[trigger] digits.push(x)[i],
            ) by {
                if i < digits.len() {
                    assert(digits.push(x)[i] == digits[i]);
                }
            }
            assert(value(digits.push(x)) == value(digits) * 10 + d);
        }
        if s != seq!['+'] && port_of(s) is None && port_of(s.push(c)) is Some {
            if digits.len() == 0 {
                assert(s =~= seq!['+']);
            }
            assert forall|i: int| 0 <= i < digits.len() implies is_digit(#[trigger] digits[i]) by {
                assert(digits.push(c)[i] == digits[i]);
            }
            lemma_value_grows(digits.push(c), digits.len() as int);
            assert(digits.push(c).take(digits.len() as int) =~= digits);
        }
    }
    if !"0123456789"@.contains(c) {
        if is_digit(c) {
            assert("0123456789"@[c as u32 - '0' as u32] == c);
        }
        if s.len() == 0 {
            assert(s.push(c) =~= seq![c]);
            if c == '+' {
                assert(unsigned(seq![c]) =~= none);
            } else {
                assert(!is_digit(unsigned(seq![c])[0]));
            }
        } else {
            assert(digits.push(c)[digits.len() as int] == c);
        }
    }
}

proof fn lemma_unsigned_push(s: Seq<char>, c: char)
    ensures
        s.len() > 0 ==> unsigned(s.push(c)) == unsigned(s).push(c),
{
    if s.len() > 0 && s[0] == '+' {
        assert(s.push(c).drop_first() =~= s.drop_first().push(c));
    }
}

/// A port that is written down is the one that is attached to, whatever blanks
/// stand around it.
pub proof fn written_port_is_attached_to(
    before: Seq<char>,
    n: u16,
    after: Seq<char>,
    headless: bool,
    stealth: bool,
)
    requires
        forall|i: int| 0 <= i < before.len() ==> text::is_blank(#[trigger] before[i]),
        forall|i: int| 0 <= i < after.len() ==> text::is_blank(#[trigger] after[i]),
    ensures
        planned(Some(before + text::decimal(n as nat) + after), headless, stealth)
            == LaunchPlan::Connect(n),
{
    lemma_decimal_is_port(n as nat);
    text::blanks_around_are_trimmed(before, text::decimal(n as nat), after);
}

proof fn lemma_decimal_is_port(n: nat)
    requires
        n <= 65535,
    ensures
        port_of(text::decimal(n)) == Some(n as u16),
        text::decimal(n).len() > 0,
        is_digit(text::decimal(n)[0]) && !text::is_blank(text::decimal(n)[0]),
        is_digit(text::decimal(n).last()) && !text::is_blank(text::decimal(n).last()),
    decreases n,
{
    reveal_strlit("0123456789");
    let d = n % 10;
    text::decimal_digit_by_digit(n / 10, d);
    port_digit_by_digit(text::decimal(n / 10), d, 'x');
    if n >= 10 {
        lemma_decimal_is_port(n / 10);
        assert(10 * (n / 10) + d == n);
    }
}

/// What is attached to is the port that the trimmed text spells, or the usual one,
/// 9222, where it spells none.
pub proof fn unreadable_port_is_the_usual_one(port: Seq<char>, headless: bool, stealth: bool)
    ensures
        planned(Some(port), headless, stealth) == LaunchPlan::Connect(
            if port_of(text::trim(port)) is Some {
                port_of(text::trim(port))->0
            } else {
                9222
            },
        ),
{
}

} // verus!
