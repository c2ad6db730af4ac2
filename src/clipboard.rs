use vstd::prelude::*;

verus! {

/// A clipboard action that a UI pass asked the platform for.
#[derive(Clone, Copy, Debug, PartialEq, Eq, Structural)]
pub enum ClipboardAction {
    Cut,
    Copy,
    Paste,
}

/// An input event queued for the next UI pass in answer to an action.
#[derive(Clone, Debug, PartialEq, Eq)]
pub enum FollowUp {
    Cut,
    Copy,
    Paste(Vec<char>),
}

/// `s` with each `"\r\n"` replaced by `"\n"`, scanning left to right.
pub open spec fn crlf_to_lf(s: Seq<char>) -> Seq<char>
    decreases s.len(),
{
    if s.len() == 0 {
        s
    } else if s.len() >= 2 && s[0] == '\r' && s[1] == '\n' {
        seq!['\n'] + crlf_to_lf(s.subrange(2, s.len() as int))
    } else {
        seq![s[0]] + crlf_to_lf(s.subrange(1, s.len() as int))
    }
}

/// Clipboard text as it is pasted: line ends normalised to `'\n'`.
pub fn normalize_line_ends(text: &Vec<char>) -> (r: Vec<char>)
    ensures
        r@ == crlf_to_lf(text@),
{
    let n = text.len();
    let mut out: Vec<char> = Vec::new();
    let mut i: usize = 0;
    assert(text@.subrange(0, n as int) =~= text@);
    assert(out@ + crlf_to_lf(text@) =~= crlf_to_lf(text@));
    while i < n
        invariant
            n == text@.len(),
            i <= n,
            out@ + crlf_to_lf(text@.subrange(i as int, n as int)) == crlf_to_lf(text@),
        decreases n - i,
    {
        let ghost rest = text@.subrange(i as int, n as int);
        if text[i] == '\r' && i + 1 < n && text[i + 1] == '\n' {
            assert(rest.subrange(2, rest.len() as int) =~= text@.subrange(i + 2, n as int));
            out.push('\n');
            i = i + 2;
        } else {
            assert(rest.subrange(1, rest.len() as int) =~= text@.subrange(i + 1, n as int));
            out.push(text[i]);
            i = i + 1;
        }
        assert(out@ + crlf_to_lf(text@.subrange(i as int, n as int)) =~= crlf_to_lf(text@));
    }
    assert(text@.subrange(n as int, n as int) =~= Seq::<char>::empty());
    assert(out@ + Seq::<char>::empty() =~= out@);
    out
}

/// The event queued for the next UI pass in answer to `action`; `clipboard`
/// is the clipboard's text where the caller could read it.
pub fn follow_up_event(action: ClipboardAction, clipboard: Option<Vec<char>>) -> (r: Option<
    FollowUp,
>)
    ensures
        action == ClipboardAction::Cut ==> r == Some(FollowUp::Cut),
        action == ClipboardAction::Copy ==> r == Some(FollowUp::Copy),
        action == ClipboardAction::Paste ==> match clipboard {
            Some(text) => if crlf_to_lf(text@).len() == 0 {
                r is None
            } else {
                r matches Some(FollowUp::Paste(p)) && p@ == crlf_to_lf(text@)
            },
            None => r is None,
        },
{
    match action {
        ClipboardAction::Cut => Some(FollowUp::Cut),
        ClipboardAction::Copy => Some(FollowUp::Copy),
        ClipboardAction::Paste => match clipboard {
            Some(text) => {
                let contents = normalize_line_ends(&text);
                if contents.len() == 0 {
                    None
                } else {
                    Some(FollowUp::Paste(contents))
                }
            },
            None => None,
        },
    }
}

} // verus!
