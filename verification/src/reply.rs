//! Classification of inbound replies.  A reply resolves a pending choice
//! when its trimmed body is either a number between 1 and the number of
//! listed options, or the cancellation keyword "cancel" in any letter
//! case.  Everything else is not a qualifying reply: it neither resolves
//! the session nor resets its deadline.

use vstd::prelude::*;

use crate::digits::{all_dec_digits, dec_value, is_dec_digit, parse_choice_number};

verus! {

/// Whitespace stripped from the ends of a reply body.
pub open spec fn is_space_char(c: char) -> bool {
    c == ' ' || c == '\t' || c == '\n' || c == '\r'
}

/// `s` without its leading whitespace.
pub open spec fn trim_front(s: Seq<char>) -> Seq<char>
    decreases s.len(),
{
    if s.len() > 0 && is_space_char(s.first()) {
        trim_front(s.drop_first())
    } else {
        s
    }
}

/// `s` without its trailing whitespace.
pub open spec fn trim_back(s: Seq<char>) -> Seq<char>
    decreases s.len(),
{
    if s.len() > 0 && is_space_char(s.last()) {
        trim_back(s.drop_last())
    } else {
        s
    }
}

/// `s` without leading and trailing whitespace.
pub open spec fn trimmed(s: Seq<char>) -> Seq<char> {
    trim_back(trim_front(s))
}

/// The cancellation keyword, compared letter by letter ignoring case.
pub open spec fn is_cancel_word(s: Seq<char>) -> bool {
    &&& s.len() == 6
    &&& (s[0] == 'c' || s[0] == 'C')
    &&& (s[1] == 'a' || s[1] == 'A')
    &&& (s[2] == 'n' || s[2] == 'N')
    &&& (s[3] == 'c' || s[3] == 'C')
    &&& (s[4] == 'e' || s[4] == 'E')
    &&& (s[5] == 'l' || s[5] == 'L')
}

/// The trimmed body reads as the choice of option `i` (counting from 0)
/// out of `n_options`: all digits, at least one, value `i + 1`, within
/// the listed range.
pub open spec fn reply_selects(body: Seq<char>, n_options: nat, i: nat) -> bool {
    let t = trimmed(body);
    &&& t.len() > 0
    &&& all_dec_digits(t)
    &&& 1 <= dec_value(t) <= n_options
    &&& i + 1 == dec_value(t)
}

/// The trimmed body reads as a cancellation.
pub open spec fn reply_cancels(body: Seq<char>) -> bool {
    is_cancel_word(trimmed(body))
}

/// The body resolves a pending choice over `n_options` options, one way
/// or the other.
pub open spec fn reply_qualifies(body: Seq<char>, n_options: nat) -> bool {
    reply_cancels(body) || exists|i: nat| reply_selects(body, n_options, i)
}

/// One body cannot both select and cancel: a selection is all digits and
/// the cancellation keyword starts with a letter.
pub proof fn lemma_select_excludes_cancel(body: Seq<char>, n_options: nat, i: nat)
    requires
        reply_selects(body, n_options, i),
    ensures
        !reply_cancels(body),
{
    let t = trimmed(body);
    if is_cancel_word(t) {
        assert(is_dec_digit(t[0]));
        assert(false);
    }
}

/// How one reply body relates to a pending choice.
pub enum ReplyClass {
    /// The body picks the option with this position (counting from 0).
    Choice { index: usize },
    /// The body is the cancellation keyword.
    Cancel,
    /// The body resolves nothing; the session keeps waiting.
    NotQualifying,
}

/// Every character of `s` is a decimal digit (an empty string passes
/// vacuously).  This is the shape a reply must have to be read as a
/// number at all.
pub fn is_string_numeric(s: String) -> (r: bool)
    ensures
        r == all_dec_digits(s@),
{
    let text = s.as_str();
    let n = text.unicode_len();
    let mut i: usize = 0;
    while i < n
        invariant
            0 <= i <= n,
            n == text@.len(),
            text@ == s@,
            forall|j: int| 0 <= j < i ==> is_dec_digit(#[trigger] s@[j]),
        decreases n - i,
    {
        let c = text.get_char(i);
        if c < '0' || c > '9' {
            assert(!is_dec_digit(s@[i as int]));
            return false;
        }
        i = i + 1;
    }
    true
}

/// Is `c` whitespace that trimming strips?
fn space_char(c: char) -> (r: bool)
    ensures
        r == is_space_char(c),
{
    c == ' ' || c == '\t' || c == '\n' || c == '\r'
}

/// Returns `s` with leading and trailing whitespace removed.
pub fn trim_reply<'a>(s: &'a str) -> (t: &'a str)
    ensures
        t@ == trimmed(s@),
{
    let n = s.unicode_len();
    let mut start: usize = 0;
    proof {
        assert(s@.skip(0) =~= s@);
    }
    while start < n && space_char(s.get_char(start))
        invariant
            0 <= start <= n,
            n == s@.len(),
            trim_front(s@) == trim_front(s@.skip(start as int)),
        decreases n - start,
    {
        proof {
            let rest = s@.skip(start as int);
            assert(rest.len() > 0 && is_space_char(rest.first()));
            assert(rest.drop_first() =~= s@.skip(start as int + 1));
        }
        start = start + 1;
    }
    proof {
        let rest = s@.skip(start as int);
        if start < n {
            assert(rest.first() == s@[start as int]);
            assert(!is_space_char(rest.first()));
        }
        assert(trim_front(s@) == rest);
    }
    let mut end: usize = n;
    while end > start && space_char(s.get_char(end - 1))
        invariant
            start <= end <= n,
            n == s@.len(),
            trim_front(s@) == s@.skip(start as int),
            trim_back(s@.skip(start as int)) == trim_back(
                s@.subrange(start as int, end as int),
            ),
        decreases end,
    {
        proof {
            let piece = s@.subrange(start as int, end as int);
            assert(piece.last() == s@[end - 1]);
            assert(piece.len() > 0 && is_space_char(piece.last()));
            assert(piece.drop_last() =~= s@.subrange(start as int, end as int - 1));
        }
        end = end - 1;
    }
    proof {
        let piece = s@.subrange(start as int, end as int);
        if end > start {
            assert(piece.last() == s@[end - 1]);
            assert(!is_space_char(piece.last()));
        }
        assert(trim_back(piece) == piece);
        assert(s@.skip(start as int) =~= s@.subrange(start as int, n as int));
    }
    s.substring_char(start, end)
}

/// Is `s` (already trimmed) the cancellation keyword, ignoring letter
/// case?
pub fn is_cancel_reply(s: &str) -> (r: bool)
    ensures
        r == is_cancel_word(s@),
{
    let n = s.unicode_len();
    if n != 6 {
        return false;
    }
    let c0 = s.get_char(0);
    let c1 = s.get_char(1);
    let c2 = s.get_char(2);
    let c3 = s.get_char(3);
    let c4 = s.get_char(4);
    let c5 = s.get_char(5);
    (c0 == 'c' || c0 == 'C') && (c1 == 'a' || c1 == 'A') && (c2 == 'n' || c2 == 'N') && (c3
        == 'c' || c3 == 'C') && (c4 == 'e' || c4 == 'E') && (c5 == 'l' || c5 == 'L')
}

/// Reads one reply body against a pending choice over `n_options`
/// options: the number of a listed option picks it, the cancellation
/// keyword cancels, and anything else resolves nothing.
pub fn classify_reply(body: &str, n_options: usize) -> (r: ReplyClass)
    ensures
        match r {
            ReplyClass::Choice { index } => reply_selects(body@, n_options as nat, index as nat)
                && index < n_options,
            ReplyClass::Cancel => reply_cancels(body@),
            ReplyClass::NotQualifying => !reply_qualifies(body@, n_options as nat),
        },
{
    let t = trim_reply(body);
    if is_cancel_reply(t) {
        return ReplyClass::Cancel;
    }
    match parse_choice_number(t, n_options) {
        Some(k) => ReplyClass::Choice { index: k - 1 },
        None => {
            proof {
                assert(!reply_cancels(body@));
                assert(forall|i: nat| !reply_selects(body@, n_options as nat, i));
            }
            ReplyClass::NotQualifying
        },
    }
}

} // verus!
