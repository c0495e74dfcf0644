//! Rendering of the numbered-options message.  Each option appears on its
//! own line as `"{number}. {label}"`, numbered from 1 in display order,
//! and a literal final line `"Cancel"` is always appended as the
//! universal cancel affordance.

use vstd::prelude::*;

use crate::choice::ChoiceSet;
use crate::digits::{dec_digits_of, decimal_string};

verus! {

/// The literal final line of every presented list.
pub open spec fn cancel_line() -> Seq<char> {
    seq!['C', 'a', 'n', 'c', 'e', 'l']
}

/// The display line of the option at `i` (counting from 0): its
/// user-facing number, a dot, a space, and its label.
pub open spec fn option_line(i: nat, label: Seq<char>) -> Seq<char> {
    dec_digits_of(i + 1) + seq!['.', ' '] + label
}

/// The first `k` option lines, each followed by a line break.
pub open spec fn rendered_upto(labels: Seq<Seq<char>>, k: nat) -> Seq<char>
    decreases k,
{
    if k == 0 {
        Seq::<char>::empty()
    } else {
        rendered_upto(labels, (k - 1) as nat) + option_line((k - 1) as nat, labels[k - 1])
            + seq!['\n']
    }
}

/// The whole display body: every option line in order, then the cancel
/// line.
pub open spec fn choice_body(labels: Seq<Seq<char>>) -> Seq<char> {
    rendered_upto(labels, labels.len()) + cancel_line()
}

/// How many lines the body of `n_options` options displays: one per
/// option and the cancel line.
pub open spec fn display_line_count(n_options: nat) -> nat {
    n_options + 1
}

/// Identity of the message shown to the user, kept for the later edit or
/// delete.
#[derive(Clone, Copy, PartialEq, Eq, Structural, Debug)]
pub struct PresentedMessage {
    pub channel_id: u64,
    pub message_id: u64,
}

/// Builds the display body for the given candidates.
pub fn render_choice_body(choices: &ChoiceSet) -> (s: String)
    ensures
        s@ == choice_body(choices.labels()),
{
    let mut out = String::new();
    let n = choices.len();
    let mut i: usize = 0;
    while i < n
        invariant
            0 <= i <= n,
            n == choices.labels().len(),
            out@ == rendered_upto(choices.labels(), i as nat),
        decreases n - i,
    {
        let number = decimal_string((i as u64) + 1);
        out.append(number.as_str());
        out.append(". ");
        out.append(choices.label_at(i).as_str());
        out.append("\n");
        proof {
            reveal_strlit(". ");
            reveal_strlit("\n");
            assert(out@ =~= rendered_upto(choices.labels(), (i + 1) as nat));
        }
        i = i + 1;
    }
    out.append("Cancel");
    proof {
        reveal_strlit("Cancel");
        assert(out@ =~= choice_body(choices.labels()));
    }
    out
}

} // verus!
