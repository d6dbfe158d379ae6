//! The tree pretty-printer: reformats flat, parenthesized AST text into an
//! indented tree view.
//!
//! The transform scans one character at a time with an integer indent depth
//! starting at zero. An opening parenthesis is emitted and then opens a new,
//! deeper line; a closing parenthesis closes the level (never below zero) and
//! is emitted on a fresh line at the closed depth; the source's own line
//! breaks are suppressed; every other character is copied verbatim; a final
//! line break terminates the output.

use vstd::prelude::*;

verus! {

/// The indentation for a nesting depth: two spaces per level.
pub open spec fn indent(depth: nat) -> Seq<char>
    decreases depth,
{
    if depth == 0 {
        Seq::empty()
    } else {
        indent((depth - 1) as nat) + seq![' ', ' ']
    }
}

/// The depth after one character: `(` opens a level, `)` closes one but never
/// drives the depth below zero, and every other character leaves it.
pub open spec fn next_depth(depth: nat, c: char) -> nat {
    if c == '(' {
        depth + 1
    } else if c == ')' {
        if depth > 0 {
            (depth - 1) as nat
        } else {
            0
        }
    } else {
        depth
    }
}

/// What one character contributes to the output when read at a depth: `(`
/// itself, then a synthesized line break and the deeper indentation; `)` a
/// synthesized line break and the closed depth's indentation, then itself;
/// the source's own line breaks nothing; any other character itself.
pub open spec fn emitted(depth: nat, c: char) -> Seq<char> {
    if c == '(' {
        seq!['(', '\n'] + indent(depth + 1)
    } else if c == ')' {
        seq!['\n'] + indent(next_depth(depth, c)) + seq![')']
    } else if c == '\n' || c == '\r' {
        Seq::empty()
    } else {
        seq![c]
    }
}

/// The output's body for an input read starting at a depth.
pub open spec fn pretty_body(s: Seq<char>, depth: nat) -> Seq<char>
    decreases s.len(),
{
    if s.len() == 0 {
        Seq::empty()
    } else {
        emitted(depth, s[0]) + pretty_body(s.drop_first(), next_depth(depth, s[0]))
    }
}

/// The depth after reading a whole input starting at a depth.
pub open spec fn depth_after(s: Seq<char>, depth: nat) -> nat
    decreases s.len(),
{
    if s.len() == 0 {
        depth
    } else {
        depth_after(s.drop_first(), next_depth(depth, s[0]))
    }
}

/// The whole pretty-printed form: the body read from depth zero, terminated
/// by a line break.
pub open spec fn pretty(s: Seq<char>) -> Seq<char> {
    pretty_body(s, 0) + seq!['\n']
}

/// Reading one more character extends the output by that character's
/// contribution at the reached depth, and steps the reached depth once.
proof fn lemma_pretty_body_push(s: Seq<char>, depth: nat, c: char)
    ensures
        pretty_body(s.push(c), depth) == pretty_body(s, depth) + emitted(depth_after(s, depth), c),
        depth_after(s.push(c), depth) == next_depth(depth_after(s, depth), c),
    decreases s.len(),
{
    if s.len() == 0 {
        assert(s.push(c)[0] == c);
        assert(s.push(c).drop_first() =~= Seq::<char>::empty());
        assert(pretty_body(s.push(c), depth) == emitted(depth, c) + pretty_body(
            Seq::<char>::empty(),
            next_depth(depth, c),
        ));
        assert(pretty_body(s.push(c), depth) =~= pretty_body(s, depth) + emitted(
            depth_after(s, depth),
            c,
        ));
        assert(depth_after(s.push(c), depth) == depth_after(
            Seq::<char>::empty(),
            next_depth(depth, c),
        ));
    } else {
        lemma_pretty_body_push(s.drop_first(), next_depth(depth, s[0]), c);
        assert(s.push(c)[0] == s[0]);
        assert(s.push(c).drop_first() =~= s.drop_first().push(c));
        assert(pretty_body(s.push(c), depth) =~= pretty_body(s, depth) + emitted(
            depth_after(s, depth),
            c,
        ));
    }
}

/// The subsequence of characters a predicate keeps, in order.
pub open spec fn kept(s: Seq<char>, p: spec_fn(char) -> bool) -> Seq<char>
    decreases s.len(),
{
    if s.len() == 0 {
        Seq::empty()
    } else if p(s[0]) {
        seq![s[0]] + kept(s.drop_first(), p)
    } else {
        kept(s.drop_first(), p)
    }
}

/// Keeps the parentheses.
pub open spec fn paren_pred() -> spec_fn(char) -> bool {
    |c: char| c == '(' || c == ')'
}

/// Keeps everything but layout: spaces and line breaks, the only characters
/// the pretty-printer synthesizes or suppresses.
pub open spec fn visible_pred() -> spec_fn(char) -> bool {
    |c: char| c != ' ' && c != '\n' && c != '\r'
}

/// The parenthesis sequence of a text: all nesting structure lies in it.
pub open spec fn parens(s: Seq<char>) -> Seq<char> {
    kept(s, paren_pred())
}

/// A text with all indentation stripped: its spaces and line breaks removed,
/// synthesized or not.
pub open spec fn strip_indentation(s: Seq<char>) -> Seq<char> {
    kept(s, visible_pred())
}

/// Keeping distributes over concatenation.
proof fn lemma_kept_add(a: Seq<char>, b: Seq<char>, p: spec_fn(char) -> bool)
    ensures
        kept(a + b, p) == kept(a, p) + kept(b, p),
    decreases a.len(),
{
    if a.len() == 0 {
        assert(a + b =~= b);
        assert(kept(a, p) + kept(b, p) =~= kept(b, p));
    } else {
        lemma_kept_add(a.drop_first(), b, p);
        assert((a + b)[0] == a[0]);
        assert((a + b).drop_first() =~= a.drop_first() + b);
        assert(kept(a + b, p) =~= kept(a, p) + kept(b, p));
    }
}

/// What a single character leaves behind.
proof fn lemma_kept_singleton(c: char, p: spec_fn(char) -> bool)
    ensures
        kept(seq![c], p) == if p(c) {
            seq![c]
        } else {
            Seq::<char>::empty()
        },
{
    assert(seq![c].len() == 1);
    assert(seq![c][0] == c);
    assert(seq![c].drop_first() =~= Seq::<char>::empty());
    if p(c) {
        assert(kept(seq![c], p) == seq![c] + kept(Seq::<char>::empty(), p));
        assert(kept(seq![c], p) =~= seq![c]);
    } else {
        assert(kept(seq![c], p) == kept(Seq::<char>::empty(), p));
    }
}

/// Indentation consists of spaces alone, so a predicate that drops spaces
/// drops all of it.
proof fn lemma_kept_indent(depth: nat, p: spec_fn(char) -> bool)
    requires
        !p(' '),
    ensures
        kept(indent(depth), p) == Seq::<char>::empty(),
    decreases depth,
{
    if depth > 0 {
        lemma_kept_indent((depth - 1) as nat, p);
        lemma_kept_add(indent((depth - 1) as nat), seq![' ', ' '], p);
        assert(seq![' ', ' '] =~= seq![' '] + seq![' ']);
        lemma_kept_add(seq![' '], seq![' '], p);
        lemma_kept_singleton(' ', p);
        assert(kept(indent(depth), p) =~= Seq::<char>::empty());
    }
}

/// A predicate that drops all layout sees, of one character's contribution,
/// exactly what it sees of the character itself.
proof fn lemma_kept_emitted(depth: nat, c: char, p: spec_fn(char) -> bool)
    requires
        !p(' '),
        !p('\n'),
        !p('\r'),
    ensures
        kept(emitted(depth, c), p) == kept(seq![c], p),
{
    lemma_kept_singleton(c, p);
    lemma_kept_singleton('\n', p);
    if c == '(' {
        assert(emitted(depth, c) =~= seq!['('] + (seq!['\n'] + indent(depth + 1)));
        lemma_kept_add(seq!['('], seq!['\n'] + indent(depth + 1), p);
        lemma_kept_add(seq!['\n'], indent(depth + 1), p);
        lemma_kept_singleton('(', p);
        lemma_kept_indent(depth + 1, p);
        assert(kept(emitted(depth, c), p) =~= kept(seq![c], p));
    } else if c == ')' {
        assert(emitted(depth, c) =~= seq!['\n'] + (indent(next_depth(depth, c)) + seq![')']));
        lemma_kept_add(seq!['\n'], indent(next_depth(depth, c)) + seq![')'], p);
        lemma_kept_add(indent(next_depth(depth, c)), seq![')'], p);
        lemma_kept_singleton(')', p);
        lemma_kept_indent(next_depth(depth, c), p);
        assert(kept(emitted(depth, c), p) =~= kept(seq![c], p));
    } else if c == '\n' || c == '\r' {
        assert(kept(emitted(depth, c), p) =~= kept(seq![c], p));
    } else {
        assert(emitted(depth, c) =~= seq![c]);
    }
}

/// A predicate that drops all layout sees the same text in the
/// pretty-printer's output body as in its input.
proof fn lemma_kept_pretty_body(s: Seq<char>, depth: nat, p: spec_fn(char) -> bool)
    requires
        !p(' '),
        !p('\n'),
        !p('\r'),
    ensures
        kept(pretty_body(s, depth), p) == kept(s, p),
    decreases s.len(),
{
    if s.len() > 0 {
        lemma_kept_pretty_body(s.drop_first(), next_depth(depth, s[0]), p);
        lemma_kept_add(
            emitted(depth, s[0]),
            pretty_body(s.drop_first(), next_depth(depth, s[0])),
            p,
        );
        lemma_kept_emitted(depth, s[0], p);
        assert(s =~= seq![s[0]] + s.drop_first());
        lemma_kept_add(seq![s[0]], s.drop_first(), p);
        assert(kept(pretty_body(s, depth), p) =~= kept(s, p));
    }
}

/// The depth a text reaches is a function of its parenthesis sequence alone.
proof fn lemma_depth_after_parens(t: Seq<char>, depth: nat)
    ensures
        depth_after(t, depth) == depth_after(parens(t), depth),
    decreases t.len(),
{
    if t.len() > 0 {
        lemma_depth_after_parens(t.drop_first(), next_depth(depth, t[0]));
        if t[0] == '(' || t[0] == ')' {
            assert(parens(t) == seq![t[0]] + parens(t.drop_first()));
            assert(parens(t)[0] == t[0]);
            assert(parens(t).drop_first() =~= parens(t.drop_first()));
        } else {
            assert(next_depth(depth, t[0]) == depth);
        }
    }
}

/// Two texts with the same parenthesis sequence reach the same depth from any
/// starting depth: nesting structure lives in the parentheses alone.
pub proof fn lemma_depth_from_parens(t1: Seq<char>, t2: Seq<char>, depth: nat)
    requires
        parens(t1) == parens(t2),
    ensures
        depth_after(t1, depth) == depth_after(t2, depth),
{
    lemma_depth_after_parens(t1, depth);
    lemma_depth_after_parens(t2, depth);
}

/// The pretty-printer is idempotent on structure. It synthesizes and
/// suppresses layout only: stripping the indentation from its output yields
/// the input stripped the same way, the parenthesis sequence is kept exactly,
/// and pretty-printing the stripped output therefore reaches the same nesting
/// depth at every starting depth as pretty-printing the original flat text.
pub proof fn lemma_pretty_idempotent_on_structure(s: Seq<char>, depth: nat)
    ensures
        strip_indentation(pretty(s)) == strip_indentation(s),
        parens(pretty(s)) == parens(s),
        parens(strip_indentation(pretty(s))) == parens(s),
        depth_after(strip_indentation(pretty(s)), depth) == depth_after(s, depth),
{
    assert(!paren_pred()(' ') && !paren_pred()('\n') && !paren_pred()('\r'));
    assert(!visible_pred()(' ') && !visible_pred()('\n') && !visible_pred()('\r'));
    lemma_kept_pretty_body(s, 0, paren_pred());
    lemma_kept_pretty_body(s, 0, visible_pred());
    lemma_kept_add(pretty_body(s, 0), seq!['\n'], paren_pred());
    lemma_kept_add(pretty_body(s, 0), seq!['\n'], visible_pred());
    lemma_kept_singleton('\n', paren_pred());
    lemma_kept_singleton('\n', visible_pred());
    assert(parens(pretty(s)) =~= parens(s));
    assert(strip_indentation(pretty(s)) =~= strip_indentation(s));
    lemma_strip_keeps_parens(pretty(s));
    lemma_strip_keeps_parens(s);
    lemma_depth_from_parens(strip_indentation(pretty(s)), s, depth);
}

/// Stripping indentation removes no parenthesis.
proof fn lemma_strip_keeps_parens(t: Seq<char>)
    ensures
        parens(strip_indentation(t)) == parens(t),
    decreases t.len(),
{
    if t.len() > 0 {
        lemma_strip_keeps_parens(t.drop_first());
        if visible_pred()(t[0]) {
            assert(strip_indentation(t) == seq![t[0]] + strip_indentation(t.drop_first()));
            lemma_kept_add(seq![t[0]], strip_indentation(t.drop_first()), paren_pred());
            lemma_kept_singleton(t[0], paren_pred());
            assert(parens(t) =~= kept(seq![t[0]], paren_pred()) + parens(t.drop_first()));
            assert(parens(strip_indentation(t)) =~= parens(t));
        } else {
            assert(strip_indentation(t) == strip_indentation(t.drop_first()));
            assert(parens(t) =~= parens(t.drop_first()));
        }
    }
}

/// A closing parenthesis in excess of the openings before it never drives the
/// depth below zero: read at depth zero it leaves the depth at zero, and it
/// is rendered on a fresh line with no indentation. (The depth is a natural
/// number throughout; no input underflows it.)
pub proof fn lemma_excess_close_at_depth_zero(s: Seq<char>, i: int)
    requires
        0 <= i < s.len(),
        s[i] == ')',
        depth_after(s.take(i), 0) == 0,
    ensures
        depth_after(s.take(i + 1), 0) == 0,
        emitted(depth_after(s.take(i), 0), ')') == seq!['\n', ')'],
{
    assert(s.take(i + 1) =~= s.take(i).push(s[i]));
    lemma_pretty_body_push(s.take(i), 0, s[i]);
    assert(seq!['\n'] + indent(0) + seq![')'] =~= seq!['\n', ')']);
}

/// Relies on String::push: appends the given character to the end of the
/// string.
#[verifier::external_body]
fn push_char(s: &mut String, c: char)
    ensures
        final(s)@ == old(s)@ + seq![c],
{
    s.push(c);
}

/// Appends the indentation for a nesting depth: two spaces per level.
fn push_indent(out: &mut String, depth: usize)
    ensures
        final(out)@ == old(out)@ + indent(depth as nat),
{
    let mut level: usize = 0;
    while level < depth
        invariant
            level <= depth,
            out@ == old(out)@ + indent(level as nat),
        decreases depth - level,
    {
        push_char(out, ' ');
        push_char(out, ' ');
        level = level + 1;
        proof {
            assert(out@ =~= old(out)@ + indent(level as nat));
        }
    }
}

/// Pretty-prints flat parenthesized AST text as an indented tree view. A pure
/// text transform with no error conditions: nesting grows two spaces per
/// level, the source's own line breaks are suppressed, a closing parenthesis
/// at depth zero is rendered at depth zero, and a final line break terminates
/// the output.
pub fn print_indented(s: &str) -> (r: String)
    ensures
        r@ == pretty(s@),
{
    let n = s.unicode_len();
    let mut out = String::new();
    let mut depth: usize = 0;
    let mut i: usize = 0;
    while i < n
        invariant
            n == s@.len(),
            i <= n,
            depth <= i,
            depth as nat == depth_after(s@.take(i as int), 0),
            out@ == pretty_body(s@.take(i as int), 0),
        decreases n - i,
    {
        let c = s.get_char(i);
        proof {
            assert(s@.take(i + 1int) =~= s@.take(i as int).push(s@[i as int]));
            lemma_pretty_body_push(s@.take(i as int), 0, s@[i as int]);
        }
        if c == '(' {
            push_char(&mut out, '(');
            depth = depth + 1;
            push_char(&mut out, '\n');
            push_indent(&mut out, depth);
        } else if c == ')' {
            if depth > 0 {
                depth = depth - 1;
            }
            push_char(&mut out, '\n');
            push_indent(&mut out, depth);
            push_char(&mut out, ')');
        } else if c == '\n' || c == '\r' {
        } else {
            push_char(&mut out, c);
        }
        i = i + 1;
        proof {
            assert(out@ =~= pretty_body(s@.take(i as int), 0));
        }
    }
    proof {
        assert(s@.take(n as int) =~= s@);
    }
    push_char(&mut out, '\n');
    out
}

} // verus!
