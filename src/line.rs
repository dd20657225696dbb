use vstd::prelude::*;
use crate::clock::LocalTime;
use crate::paint::{paint, reset, sgr, shaded, Hue};
use crate::severity::Severity;
use crate::text::{dec, decimal, holds};

verus! {

/// `module (file:line^column)`: a record's origin with its call site.
pub open spec fn tag_spec(module: Seq<char>, file: Seq<char>, line: u32, column: u32) -> Seq<char> {
    module + seq![' ', '('] + file + seq![':'] + dec(line as nat) + seq!['^'] + dec(
        column as nat,
    ) + seq![')']
}

/// `(stamp) [glyph] [target] body`, each part as it was handed over.
pub open spec fn line_spec(
    stamp: Seq<char>,
    glyph: Seq<char>,
    target: Seq<char>,
    body: Seq<char>,
) -> Seq<char> {
    seq!['('] + stamp + seq![')', ' ', '['] + glyph + seq![']', ' ', '['] + target + seq![
        ']',
        ' ',
    ] + body
}

/// `r` is a record's line: the stamp in cyan, the severity's mark in its own
/// colour, the target in magenta (each as it is when colouring is off), then
/// the body untouched.
pub open spec fn record_line(
    r: Seq<char>,
    stamp: Seq<char>,
    level: Severity,
    target: Seq<char>,
    body: Seq<char>,
) -> bool {
    exists|a: Seq<char>, b: Seq<char>, c: Seq<char>|
        shaded(a, stamp, Hue::Cyan) && shaded(b, seq![level.glyph_spec()], level.hue_spec())
            && shaded(c, target, Hue::Magenta) && r == #[trigger] line_spec(a, b, c, body)
}

/// `b` is what a record of `level` carries for `message`: warnings in yellow,
/// errors in red, the rest as they are.
pub open spec fn body_of(b: Seq<char>, level: Severity, message: Seq<char>) -> bool {
    match level {
        Severity::Warn => shaded(b, message, Hue::Yellow),
        Severity::Error => shaded(b, message, Hue::Red),
        _ => b == message,
    }
}

/// Builds the target of a record from a module path and the call site.
pub fn target_tag(module: &str, file: &str, line: u32, column: u32) -> (r: String)
    ensures
        r@ == tag_spec(module@, file@, line, column),
{
    proof {
        reveal_strlit(" (");
        reveal_strlit(":");
        reveal_strlit("^");
        reveal_strlit(")");
    }
    let mut s = String::from_str(module);
    s.append(" (");
    s.append(file);
    s.append(":");
    s.append(decimal(line as u64).as_str());
    s.append("^");
    s.append(decimal(column as u64).as_str());
    s.append(")");
    s
}

/// Joins the four parts of a line.
pub fn compose_line(stamp: &str, glyph: &str, target: &str, body: &str) -> (r: String)
    ensures
        r@ == line_spec(stamp@, glyph@, target@, body@),
{
    proof {
        reveal_strlit("(");
        reveal_strlit(") [");
        reveal_strlit("] [");
        reveal_strlit("] ");
    }
    let mut s = String::from_str("(");
    s.append(stamp);
    s.append(") [");
    s.append(glyph);
    s.append("] [");
    s.append(target);
    s.append("] ");
    s.append(body);
    s
}

/// What a record of `level` carries for `message`.
pub fn emission_body(level: Severity, message: &str) -> (r: String)
    ensures
        body_of(r@, level, message@),
{
    match level {
        Severity::Warn => paint(message, Hue::Yellow),
        Severity::Error => paint(message, Hue::Red),
        _ => String::from_str(message),
    }
}

/// The line for a record read at `time`.
pub fn format_record(time: &LocalTime, level: Severity, target: &str, body: &str) -> (r: String)
    ensures
        record_line(r@, time.stamp_spec(), level, target@, body@),
{
    let stamp = time.stamp();
    let a = paint(stamp.as_str(), Hue::Cyan);
    let b = paint(level.glyph(), level.hue());
    let c = paint(target, Hue::Magenta);
    let r = compose_line(a.as_str(), b.as_str(), c.as_str(), body);
    assert(r@ == line_spec(a@, b@, c@, body@));
    r
}

/// Whether no character of `s` is a line break.
pub open spec fn single_line(s: Seq<char>) -> bool {
    forall|i: int| 0 <= i < s.len() ==> #[trigger] s[i] != '\n'
}

proof fn lemma_short_holds_no_reset(s: Seq<char>)
    requires
        s.len() < 4,
    ensures
        !holds(s, reset()),
{
}

proof fn lemma_shaded_holds(r: Seq<char>, s: Seq<char>, h: Hue)
    requires
        shaded(r, s, h),
        !holds(s, reset()),
    ensures
        holds(r, s),
{
    if r == s {
        let i: int = 0;
        assert(r.subrange(i, i + s.len()) =~= s);
    } else {
        assert(r == sgr(h) + s + reset());
        let i: int = 5;
        assert(r.subrange(i, i + s.len()) =~= s);
    }
}

proof fn lemma_holds_within(pre: Seq<char>, mid: Seq<char>, post: Seq<char>, s: Seq<char>)
    requires
        holds(mid, s),
    ensures
        holds(pre + mid + post, s),
{
    let i = choose|i: int|
        0 <= i && i + s.len() <= mid.len() && #[trigger] mid.subrange(i, i + s.len()) == s;
    let whole = pre + mid + post;
    let j: int = pre.len() + i;
    assert(whole.subrange(j, j + s.len()) =~= mid.subrange(i, i + s.len()));
}

proof fn lemma_shaded_single_line(r: Seq<char>, s: Seq<char>, h: Hue)
    requires
        shaded(r, s, h),
        single_line(s),
    ensures
        single_line(r),
{
    if r != s {
        assert forall|i: int| 0 <= i < r.len() implies #[trigger] r[i] != '\n' by {
            if s.contains(r[i]) {
                let k = choose|k: int| 0 <= k < s.len() && s[k] == r[i];
            }
        }
    }
}

proof fn lemma_dec_single_line(n: nat)
    ensures
        single_line(dec(n)),
    decreases n,
{
    if n >= 10 {
        lemma_dec_single_line(n / 10);
    }
}

proof fn lemma_pad_single_line(n: nat, w: nat)
    ensures
        single_line(crate::text::pad(n, w)),
{
    lemma_dec_single_line(n);
}

proof fn lemma_stamp_single_line(t: LocalTime)
    ensures
        single_line(t.stamp_spec()),
{
    lemma_pad_single_line(t.year as nat, 4);
    lemma_pad_single_line((-t.year) as nat, 4);
    lemma_pad_single_line(t.month as nat, 2);
    lemma_pad_single_line(t.day as nat, 2);
    lemma_pad_single_line(t.hour as nat, 2);
    lemma_pad_single_line(t.minute as nat, 2);
    lemma_pad_single_line(t.shown_second(), 2);
    lemma_pad_single_line(t.millis(), 3);
    assert(single_line(crate::clock::year_text(t.year as int)));
    let st = t.stamp_spec();
    assert forall|i: int| 0 <= i < st.len() implies #[trigger] st[i] != '\n' by {
    }
}

proof fn lemma_parts_carry_message(
    a: Seq<char>,
    b: Seq<char>,
    c: Seq<char>,
    body: Seq<char>,
    level: Severity,
    message: Seq<char>,
)
    requires
        shaded(b, seq![level.glyph_spec()], level.hue_spec()),
        body_of(body, level, message),
        !holds(message, reset()),
    ensures
        holds(line_spec(a, b, c, body), message),
        holds(line_spec(a, b, c, body), seq![level.glyph_spec()]),
{
    let r = line_spec(a, b, c, body);
    let g = seq![level.glyph_spec()];
    let pre_b = seq!['('] + a + seq![')', ' ', '['];
    let post_b = seq![']', ' ', '['] + c + seq![']', ' '] + body;
    assert(r =~= pre_b + b + post_b);
    lemma_short_holds_no_reset(g);
    lemma_shaded_holds(b, g, level.hue_spec());
    lemma_holds_within(pre_b, b, post_b, g);
    let head = seq!['('] + a + seq![')', ' ', '['] + b + seq![']', ' ', '['] + c + seq![']', ' '];
    assert(r =~= head + body + Seq::<char>::empty());
    match level {
        Severity::Warn => lemma_shaded_holds(body, message, Hue::Yellow),
        Severity::Error => lemma_shaded_holds(body, message, Hue::Red),
        _ => {
            let i: int = 0;
            assert(body.subrange(i, i + message.len()) =~= message);
        },
    }
    lemma_holds_within(head, body, Seq::<char>::empty(), message);
}

proof fn lemma_parts_single_line(a: Seq<char>, b: Seq<char>, c: Seq<char>, body: Seq<char>)
    requires
        single_line(a),
        single_line(b),
        single_line(c),
        single_line(body),
    ensures
        single_line(line_spec(a, b, c, body)),
{
    let r = line_spec(a, b, c, body);
    assert forall|i: int| 0 <= i < r.len() implies #[trigger] r[i] != '\n' by {
    }
}

/// A record's line shows the message verbatim and the severity's mark, and
/// stays one line when neither the target nor the message breaks a line.
/// (Colouring wraps the message of a warning or an error; a message that holds
/// a reset sequence of its own comes out with the colour re-applied after it.)
pub proof fn lemma_line_carries_message(
    r: Seq<char>,
    time: LocalTime,
    level: Severity,
    target: Seq<char>,
    body: Seq<char>,
    message: Seq<char>,
)
    requires
        record_line(r, time.stamp_spec(), level, target, body),
        body_of(body, level, message),
        !holds(message, reset()),
    ensures
        holds(r, message),
        holds(r, seq![level.glyph_spec()]),
        single_line(target) && single_line(message) ==> single_line(r),
{
    let stamp = time.stamp_spec();
    let (a, b, c) = choose|a: Seq<char>, b: Seq<char>, c: Seq<char>|
        shaded(a, stamp, Hue::Cyan) && shaded(b, seq![level.glyph_spec()], level.hue_spec())
            && shaded(c, target, Hue::Magenta) && r == #[trigger] line_spec(a, b, c, body);
    lemma_parts_carry_message(a, b, c, body, level, message);
    if single_line(target) && single_line(message) {
        let g = seq![level.glyph_spec()];
        lemma_stamp_single_line(time);
        lemma_shaded_single_line(a, stamp, Hue::Cyan);
        assert(single_line(g));
        lemma_shaded_single_line(b, g, level.hue_spec());
        lemma_shaded_single_line(c, target, Hue::Magenta);
        match level {
            Severity::Warn => lemma_shaded_single_line(body, message, Hue::Yellow),
            Severity::Error => lemma_shaded_single_line(body, message, Hue::Red),
            _ => {},
        }
        lemma_parts_single_line(a, b, c, body);
    }
}

/// An inferred target is never empty and begins with the module path; two
/// module paths that differ (module paths hold no spaces) give different
/// targets, wherever the two call sites are.
pub proof fn lemma_tags_tell_modules_apart(
    m1: Seq<char>,
    f1: Seq<char>,
    l1: u32,
    c1: u32,
    m2: Seq<char>,
    f2: Seq<char>,
    l2: u32,
    c2: u32,
)
    requires
        m1 != m2,
        !m1.contains(' '),
        !m2.contains(' '),
    ensures
        tag_spec(m1, f1, l1, c1).len() > 0,
        tag_spec(m1, f1, l1, c1).subrange(0, m1.len() as int) == m1,
        tag_spec(m1, f1, l1, c1) != tag_spec(m2, f2, l2, c2),
{
    let t1 = tag_spec(m1, f1, l1, c1);
    let t2 = tag_spec(m2, f2, l2, c2);
    assert(t1.subrange(0, m1.len() as int) =~= m1);
    assert(t2.subrange(0, m2.len() as int) =~= m2);
    assert(t1[m1.len() as int] == ' ');
    assert(t2[m2.len() as int] == ' ');
    if t1 == t2 {
        if m1.len() < m2.len() {
            assert(m2[m1.len() as int] == t2[m1.len() as int]);
            assert(m2.contains(' '));
        } else if m2.len() < m1.len() {
            assert(m1[m2.len() as int] == t1[m2.len() as int]);
            assert(m1.contains(' '));
        } else {
            assert(m1 =~= m2);
        }
    }
}

} // verus!
