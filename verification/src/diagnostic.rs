//! Construction of the sentinel link names.
//!
//! The sentinel's exported name is itself the build diagnostic. Both platform
//! variants carry the identical semantic payload; the Unix-family variant
//! wraps it in ANSI control sequences so that, inside the linker's native
//! undefined-symbol error, it renders as a conventional compiler-error line.

use vstd::prelude::*;

verus! {

/// The semantic payload carried by both variants of the diagnostic.
pub open spec fn payload() -> Seq<char> {
    "the static assertion that no panics are present has failed"@
}

/// The plain-text link name used on targets outside the Unix family.
pub open spec fn plain_message() -> Seq<char> {
    "\n\nerror: "@ + payload() + "\n\n"@
}

/// An ANSI control sequence: the escape character, an opening bracket,
/// parameter bytes, and one final byte.
pub open spec fn control_seq(params: Seq<char>, fin: char) -> Seq<char> {
    seq!['\u{1b}', '['] + params + seq![fin]
}

/// Styling that precedes the word "error": save the cursor, move it to the
/// leftmost column, and switch to bold red.
pub open spec fn style_lead() -> Seq<char> {
    control_seq(Seq::empty(), 's') + control_seq("1000"@, 'D') + control_seq("0;31"@, 'm')
        + control_seq("1"@, 'm')
}

/// Styling between "error" and the rest of the message: reset, then bold in
/// the default color.
pub open spec fn style_mid() -> Seq<char> {
    control_seq("0"@, 'm') + control_seq("1"@, 'm')
}

/// Styling after the message: reset, then restore the saved cursor position.
pub open spec fn style_tail() -> Seq<char> {
    control_seq("0"@, 'm') + control_seq(Seq::empty(), 'u')
}

/// The styled link name used on Unix-family targets.
pub open spec fn styled_message() -> Seq<char> {
    "\n\n"@ + style_lead() + "error"@ + style_mid() + ": "@ + payload() + style_tail() + "\n\n"@
}

/// The link name chosen for a target: styled on the Unix family, plain
/// elsewhere.
pub open spec fn sentinel_message(unix_family: bool) -> Seq<char> {
    if unix_family {
        styled_message()
    } else {
        plain_message()
    }
}

/// True when `needle` occurs contiguously inside `hay`.
pub open spec fn contains_seq(hay: Seq<char>, needle: Seq<char>) -> bool {
    exists|i: int|
        0 <= i && i + needle.len() <= hay.len() && #[trigger] hay.subrange(i, i + needle.len())
            == needle
}

/// Removes ANSI styling, leaving the plain text: an escape character starts a
/// control sequence, which is consumed to its final byte.
pub open spec fn strip_styling(s: Seq<char>) -> Seq<char>
    decreases s.len(),
{
    if s.len() == 0 {
        Seq::empty()
    } else if s[0] == '\u{1b}' {
        strip_after_escape(s.skip(1))
    } else {
        seq![s[0]] + strip_styling(s.skip(1))
    }
}

/// Continues stripping past an escape character: a bracket opens a control
/// sequence; any other character closes a two-character escape.
pub open spec fn strip_after_escape(s: Seq<char>) -> Seq<char>
    decreases s.len(),
{
    if s.len() == 0 {
        Seq::empty()
    } else if s[0] == '[' {
        strip_in_control(s.skip(1))
    } else {
        strip_styling(s.skip(1))
    }
}

/// Continues stripping inside a control sequence: parameter and intermediate
/// bytes are consumed until the final byte closes the sequence.
pub open spec fn strip_in_control(s: Seq<char>) -> Seq<char>
    decreases s.len(),
{
    if s.len() == 0 {
        Seq::empty()
    } else if ' ' <= s[0] && s[0] <= '?' {
        strip_in_control(s.skip(1))
    } else {
        strip_styling(s.skip(1))
    }
}

/// Returns the sentinel link name for targets outside the Unix family:
/// the diagnostic with no terminal styling.
pub fn plain_sentinel_name() -> (r: &'static str)
    ensures
        r@ == plain_message(),
{
    let r = "\n\nerror: the static assertion that no panics are present has failed\n\n";
    proof {
        reveal_strlit("\n\nerror: the static assertion that no panics are present has failed\n\n");
        reveal_strlit("the static assertion that no panics are present has failed");
        reveal_strlit("\n\nerror: ");
        reveal_strlit("\n\n");
        assert(r@ =~= plain_message());
    }
    r
}

/// Returns the sentinel link name for Unix-family targets: the diagnostic
/// wrapped in ANSI styling.
pub fn styled_sentinel_name() -> (r: &'static str)
    ensures
        r@ == styled_message(),
{
    let r = "\n\n\x1b[s\x1b[1000D\x1b[0;31m\x1b[1merror\x1b[0m\x1b[1m: the static assertion that no panics are present has failed\x1b[0m\x1b[u\n\n";
    proof {
        reveal_strlit("\n\n\x1b[s\x1b[1000D\x1b[0;31m\x1b[1merror\x1b[0m\x1b[1m: the static assertion that no panics are present has failed\x1b[0m\x1b[u\n\n");
        reveal_strlit("the static assertion that no panics are present has failed");
        reveal_strlit("error");
        reveal_strlit(": ");
        reveal_strlit("\n\n");
        reveal_strlit("1000");
        reveal_strlit("0;31");
        reveal_strlit("1");
        reveal_strlit("0");
        assert(r@ =~= styled_message());
    }
    r
}

/// Returns the sentinel link name for a target, chosen by platform family.
pub fn sentinel_link_name(unix_family: bool) -> (r: &'static str)
    ensures
        r@ == sentinel_message(unix_family),
{
    if unix_family {
        styled_sentinel_name()
    } else {
        plain_sentinel_name()
    }
}

/// A sequence occurs in any concatenation that surrounds it.
proof fn lemma_contains_middle(pre: Seq<char>, mid: Seq<char>, post: Seq<char>)
    ensures
        contains_seq(pre + mid + post, mid),
{
    let hay = pre + mid + post;
    let i = pre.len() as int;
    assert(hay.subrange(i, i + mid.len()) =~= mid);
}

/// Whichever platform family is targeted, the diagnostic carries the payload
/// verbatim.
pub proof fn lemma_diagnostic_contains_payload(unix_family: bool)
    ensures
        contains_seq(sentinel_message(unix_family), payload()),
{
    if unix_family {
        let pre = "\n\n"@ + style_lead() + "error"@ + style_mid() + ": "@;
        let post = style_tail() + "\n\n"@;
        assert(styled_message() =~= pre + payload() + post);
        lemma_contains_middle(pre, payload(), post);
        assert(pre + payload() + post =~= styled_message());
    } else {
        lemma_contains_middle("\n\nerror: "@, payload(), "\n\n"@);
        assert("\n\nerror: "@ + payload() + "\n\n"@ =~= plain_message());
    }
}

/// Stripping passes a prefix through untouched when no escape character
/// occurs in it.
proof fn lemma_strip_plain_prefix(pre: Seq<char>, rest: Seq<char>)
    requires
        forall|i: int| 0 <= i < pre.len() ==> pre[i] != '\u{1b}',
    ensures
        strip_styling(pre + rest) == pre + strip_styling(rest),
    decreases pre.len(),
{
    if pre.len() == 0 {
        assert(pre + rest =~= rest);
        assert(pre + strip_styling(rest) =~= strip_styling(rest));
    } else {
        let s = pre + rest;
        assert(s[0] == pre[0]);
        assert(s.skip(1) =~= pre.skip(1) + rest);
        assert forall|i: int| 0 <= i < pre.skip(1).len() implies pre.skip(1)[i] != '\u{1b}' by {
            assert(pre.skip(1)[i] == pre[i + 1]);
        }
        lemma_strip_plain_prefix(pre.skip(1), rest);
        assert(strip_styling(s) == seq![pre[0]] + (pre.skip(1) + strip_styling(rest)));
        assert(seq![pre[0]] + (pre.skip(1) + strip_styling(rest)) =~= pre + strip_styling(rest));
    }
}

/// Inside a control sequence, stripping consumes the parameter bytes and the
/// final byte, then resumes on the rest.
proof fn lemma_strip_params(params: Seq<char>, fin: char, rest: Seq<char>)
    requires
        forall|i: int| 0 <= i < params.len() ==> ' ' <= params[i] && params[i] <= '?',
        !(' ' <= fin && fin <= '?'),
    ensures
        strip_in_control(params + seq![fin] + rest) == strip_styling(rest),
    decreases params.len(),
{
    let s = params + seq![fin] + rest;
    if params.len() == 0 {
        assert(s =~= seq![fin] + rest);
        assert(s[0] == fin);
        assert(s.skip(1) =~= rest);
    } else {
        assert(s[0] == params[0]);
        assert(s.skip(1) =~= params.skip(1) + seq![fin] + rest);
        assert forall|i: int| 0 <= i < params.skip(1).len() implies ' ' <= params.skip(1)[i]
            && params.skip(1)[i] <= '?' by {
            assert(params.skip(1)[i] == params[i + 1]);
        }
        lemma_strip_params(params.skip(1), fin, rest);
    }
}

/// Stripping removes a leading control sequence whole.
proof fn lemma_strip_control_prefix(params: Seq<char>, fin: char, rest: Seq<char>)
    requires
        forall|i: int| 0 <= i < params.len() ==> ' ' <= params[i] && params[i] <= '?',
        !(' ' <= fin && fin <= '?'),
    ensures
        strip_styling(control_seq(params, fin) + rest) == strip_styling(rest),
{
    let s = control_seq(params, fin) + rest;
    let t = params + seq![fin] + rest;
    assert(s.len() > 0);
    assert(s[0] == '\u{1b}');
    assert(strip_styling(s) == strip_after_escape(s.skip(1)));
    assert(s.skip(1) =~= seq!['['] + t);
    assert((seq!['['] + t)[0] == '[');
    assert(strip_after_escape(seq!['['] + t) == strip_in_control((seq!['['] + t).skip(1)));
    assert((seq!['['] + t).skip(1) =~= t);
    lemma_strip_params(params, fin, rest);
    assert(strip_in_control(t) == strip_styling(rest));
}

/// The plain variant carries no styling at all: stripping leaves it
/// unchanged.
pub proof fn lemma_plain_free_of_styling()
    ensures
        strip_styling(plain_message()) == plain_message(),
{
    reveal_strlit("\n\nerror: ");
    reveal_strlit("the static assertion that no panics are present has failed");
    reveal_strlit("\n\n");
    let nn = "\n\n"@;
    let empty = Seq::<char>::empty();
    assert(strip_styling(empty) == empty);
    lemma_strip_plain_prefix(nn, empty);
    assert(nn + empty =~= nn);
    assert(nn + strip_styling(empty) =~= nn);
    assert(strip_styling(nn) == nn);
    let r1 = payload() + nn;
    lemma_strip_plain_prefix(payload(), nn);
    assert(strip_styling(r1) == payload() + nn);
    let r2 = "\n\nerror: "@ + r1;
    lemma_strip_plain_prefix("\n\nerror: "@, r1);
    assert(strip_styling(r2) == "\n\nerror: "@ + (payload() + nn));
    assert(plain_message() =~= r2);
    assert("\n\nerror: "@ + (payload() + nn) =~= plain_message());
}

/// Platform fidelity: the styled and the plain link name differ only in the
/// ANSI styling bytes. Stripping the control sequences from the Unix-family
/// variant yields the plain variant, character for character.
pub proof fn lemma_platform_fidelity()
    ensures
        strip_styling(styled_message()) == plain_message(),
{
    reveal_strlit("\n\n");
    reveal_strlit("error");
    reveal_strlit(": ");
    reveal_strlit("the static assertion that no panics are present has failed");
    reveal_strlit("1000");
    reveal_strlit("0;31");
    reveal_strlit("1");
    reveal_strlit("0");
    reveal_strlit("\n\nerror: ");
    let nn = "\n\n"@;
    let err = "error"@;
    let colon = ": "@;
    let empty = Seq::<char>::empty();

    // The tail: stripping "\n\n" leaves it untouched.
    assert(strip_styling(empty) == empty);
    lemma_strip_plain_prefix(nn, empty);
    assert(nn + empty =~= nn);
    assert(nn + strip_styling(empty) =~= nn);
    assert(strip_styling(nn) == nn);

    // Peel the closing styling: reset, then restore the cursor.
    let r1 = control_seq(empty, 'u') + nn;
    lemma_strip_control_prefix(empty, 'u', nn);
    assert(strip_styling(r1) == nn);
    let r2 = control_seq("0"@, 'm') + r1;
    lemma_strip_control_prefix("0"@, 'm', r1);
    assert(strip_styling(r2) == nn);

    // Peel the payload.
    let r3 = payload() + r2;
    lemma_strip_plain_prefix(payload(), r2);
    assert(strip_styling(r3) == payload() + nn);

    // Peel ": ".
    let r4 = colon + r3;
    lemma_strip_plain_prefix(colon, r3);
    assert(strip_styling(r4) == colon + (payload() + nn));

    // Peel the middle styling: reset, then bold.
    let r5 = control_seq("1"@, 'm') + r4;
    lemma_strip_control_prefix("1"@, 'm', r4);
    let r6 = control_seq("0"@, 'm') + r5;
    lemma_strip_control_prefix("0"@, 'm', r5);
    assert(strip_styling(r6) == colon + (payload() + nn));

    // Peel "error".
    let r7 = err + r6;
    lemma_strip_plain_prefix(err, r6);
    assert(strip_styling(r7) == err + (colon + (payload() + nn)));

    // Peel the leading styling: save cursor, move to the leftmost column,
    // bold red.
    let r8 = control_seq("1"@, 'm') + r7;
    lemma_strip_control_prefix("1"@, 'm', r7);
    let r9 = control_seq("0;31"@, 'm') + r8;
    lemma_strip_control_prefix("0;31"@, 'm', r8);
    let r10 = control_seq("1000"@, 'D') + r9;
    lemma_strip_control_prefix("1000"@, 'D', r9);
    let r11 = control_seq(empty, 's') + r10;
    lemma_strip_control_prefix(empty, 's', r10);
    assert(strip_styling(r11) == err + (colon + (payload() + nn)));

    // Peel the opening "\n\n", and reassemble.
    let r12 = nn + r11;
    lemma_strip_plain_prefix(nn, r11);
    assert(strip_styling(r12) == nn + (err + (colon + (payload() + nn))));
    assert(styled_message() =~= r12);
    assert(nn + (err + (colon + (payload() + nn))) =~= plain_message());
}

} // verus!
