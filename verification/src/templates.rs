//! Moderation reason templates: a label and the reason it stands for,
//! stored in the guild configuration as one `label|reason` line each.

use vstd::prelude::*;
use crate::config::{ascii_lower_seq, lower_chars};
use crate::text::{chars_eq, chars_of, copy_range, index_from, index_of, int_text, lemma_index_of_first, lemma_index_of_none, owned, push_str, push_u64, string_of, trim_chars, trim_spec};

verus! {

/// A moderation reason template.
#[derive(Clone, Debug)]
pub struct ReasonTemplate {
    pub label: String,
    pub reason: String,
}

/// A template as a pair of texts.
pub open spec fn tview(t: ReasonTemplate) -> (Seq<char>, Seq<char>) {
    (t.label@, t.reason@)
}

/// The templates of a list as pairs of texts.
pub open spec fn tviews(ts: Seq<ReasonTemplate>) -> Seq<(Seq<char>, Seq<char>)> {
    ts.map_values(|t: ReasonTemplate| tview(t))
}

// ───────────────────────── serialisation ─────────────────────────

/// Stored line of one template.
pub open spec fn line_of(t: (Seq<char>, Seq<char>)) -> Seq<char> {
    t.0 + seq!['|'] + t.1
}

/// Stored text of a list of templates: their lines joined by newlines.
pub open spec fn serialize_spec(ts: Seq<(Seq<char>, Seq<char>)>) -> Seq<char>
    decreases ts.len(),
{
    if ts.len() == 0 {
        Seq::empty()
    } else if ts.len() == 1 {
        line_of(ts[0])
    } else {
        line_of(ts[0]) + seq!['\n'] + serialize_spec(ts.drop_first())
    }
}

proof fn lemma_serialize_push(ts: Seq<(Seq<char>, Seq<char>)>, t: (Seq<char>, Seq<char>))
    ensures
        serialize_spec(ts.push(t)) == if ts.len() == 0 {
            line_of(t)
        } else {
            serialize_spec(ts) + seq!['\n'] + line_of(t)
        },
    decreases ts.len(),
{
    if ts.len() == 0 {
        assert(ts.push(t).len() == 1);
    } else if ts.len() == 1 {
        assert(ts.push(t).drop_first() =~= seq![t]);
        assert(serialize_spec(seq![t]) == line_of(t));
    } else {
        lemma_serialize_push(ts.drop_first(), t);
        assert(ts.push(t).drop_first() =~= ts.drop_first().push(t));
    }
}

/// Stored text of `templates`: `label|reason` lines joined by newlines.
pub fn serialize_templates(templates: &[ReasonTemplate]) -> (s: String)
    ensures
        s@ == serialize_spec(tviews(templates@)),
{
    let mut s = String::new();
    let n = templates.len();
    for i in 0..n
        invariant
            n == templates@.len(),
            s@ == serialize_spec(tviews(templates@).take(i as int)),
    {
        let t = &templates[i];
        let ghost before = tviews(templates@).take(i as int);
        if i > 0 {
            push_str(&mut s, "\n");
        }
        push_str(&mut s, t.label.as_str());
        push_str(&mut s, "|");
        push_str(&mut s, t.reason.as_str());
        proof {
            reveal_strlit("\n");
            reveal_strlit("|");
            lemma_serialize_push(before, tview(*t));
            assert(tviews(templates@).take(i + 1) =~= before.push(tview(*t)));
            if i == 0 {
                assert(s@ =~= line_of(tview(*t)));
            } else {
                assert(s@ =~= serialize_spec(before) + seq!['\n'] + line_of(tview(*t)));
            }
        }
    }
    assert(tviews(templates@).take(n as int) =~= tviews(templates@));
    s
}

// ───────────────────────── parsing ─────────────────────────

/// `s` cut at every `c` (what `str::split(c)` yields).
pub open spec fn split_spec(s: Seq<char>, c: char) -> Seq<Seq<char>>
    decreases s.len(),
{
    match index_of(s, c) {
        Some(i) => if 0 <= i < s.len() {
            seq![s.take(i)] + split_spec(s.skip(i + 1), c)
        } else {
            seq![s]
        },
        None => seq![s],
    }
}

/// Template read from one stored line: text before the first `|` as the
/// label and after it as the reason, both trimmed; lines without `|` or
/// with an empty part are ignored.
pub open spec fn parse_line(l: Seq<char>) -> Option<(Seq<char>, Seq<char>)> {
    match index_of(l, '|') {
        Some(i) => {
            let label = trim_spec(l.take(i));
            let reason = trim_spec(l.skip(i + 1));
            if label.len() > 0 && reason.len() > 0 {
                Some((label, reason))
            } else {
                None
            }
        },
        None => None,
    }
}

/// Templates read from stored lines, in order.
pub open spec fn parse_lines(ls: Seq<Seq<char>>) -> Seq<(Seq<char>, Seq<char>)>
    decreases ls.len(),
{
    if ls.len() == 0 {
        Seq::empty()
    } else {
        match parse_line(ls[0]) {
            Some(t) => seq![t] + parse_lines(ls.drop_first()),
            None => parse_lines(ls.drop_first()),
        }
    }
}

/// Templates read from a stored text.
pub open spec fn parse_spec(raw: Seq<char>) -> Seq<(Seq<char>, Seq<char>)> {
    parse_lines(split_spec(raw, '\n'))
}

/// Template read from one line.
fn parse_line_exec(l: &[char]) -> (r: Option<ReasonTemplate>)
    ensures
        match r {
            Some(t) => parse_line(l@) == Some(tview(t)),
            None => parse_line(l@) is None,
        },
{
    assert(l@.skip(0) =~= l@);
    match index_from(l, 0, '|') {
        None => None,
        Some(i) => {
            let before = copy_range(l, 0, i);
            let after = copy_range(l, i + 1, l.len());
            assert(before@ =~= l@.take(i as int));
            assert(after@ =~= l@.skip(i + 1));
            let label = trim_chars(before.as_slice());
            let reason = trim_chars(after.as_slice());
            if label.len() > 0 && reason.len() > 0 {
                Some(ReasonTemplate { label: string_of(label.as_slice()), reason: string_of(reason.as_slice()) })
            } else {
                None
            }
        },
    }
}

/// Templates stored in `raw`, one `label|reason` per line; malformed lines
/// are skipped.
pub fn parse_templates(raw: &str) -> (r: Vec<ReasonTemplate>)
    ensures
        tviews(r@) == parse_spec(raw@),
{
    let cs = chars_of(raw);
    let n = cs.len();
    let mut out: Vec<ReasonTemplate> = Vec::new();
    let mut start: usize = 0;
    assert(cs@.skip(0) =~= cs@);
    loop
        invariant
            n == cs@.len(),
            start <= n,
            parse_spec(raw@) == tviews(out@) + parse_lines(split_spec(cs@.skip(start as int), '\n')),
        decreases n - start,
    {
        let ghost rest = cs@.skip(start as int);
        match index_from(cs.as_slice(), start, '\n') {
            None => {
                let line = copy_range(cs.as_slice(), start, n);
                assert(line@ =~= rest);
                assert(split_spec(rest, '\n') == seq![rest]);
                let ghost before = out@;
                if let Some(t) = parse_line_exec(line.as_slice()) {
                    out.push(t);
                    assert(tviews(out@) =~= tviews(before) + seq![tview(t)]);
                }
                assert(seq![rest].drop_first() =~= Seq::<Seq<char>>::empty());
                assert(parse_lines(Seq::<Seq<char>>::empty()) =~= Seq::empty());
                assert(tviews(out@) =~= tviews(before) + parse_lines(seq![rest]));
                return out;
            },
            Some(i) => {
                let line = copy_range(cs.as_slice(), start, i);
                let k = i - start;
                assert(line@ =~= rest.take(k as int));
                assert(rest.skip(k + 1) =~= cs@.skip(i + 1));
                let ghost lines = split_spec(rest, '\n');
                assert(lines == seq![rest.take(k as int)] + split_spec(rest.skip(k + 1), '\n'));
                assert(lines[0] == rest.take(k as int));
                assert(lines.drop_first() =~= split_spec(cs@.skip(i + 1), '\n'));
                let ghost before = out@;
                if let Some(t) = parse_line_exec(line.as_slice()) {
                    out.push(t);
                    assert(tviews(out@) =~= tviews(before) + seq![tview(t)]);
                } else {
                    assert(tviews(out@) =~= tviews(before));
                }
                start = i + 1;
            },
        }
    }
}

// ───────────────────────── roundtrip ─────────────────────────

/// A template that survives storage: label and reason are trimmed and
/// non-empty, the label holds neither `|` nor a newline, the reason no
/// newline. `/template add` only stores such templates.
pub open spec fn storable(t: (Seq<char>, Seq<char>)) -> bool {
    &&& t.0.len() > 0
    &&& t.1.len() > 0
    &&& trim_spec(t.0) == t.0
    &&& trim_spec(t.1) == t.1
    &&& !t.0.contains('|')
    &&& !t.0.contains('\n')
    &&& !t.1.contains('\n')
}

proof fn lemma_parse_storable_line(t: (Seq<char>, Seq<char>))
    requires
        storable(t),
    ensures
        parse_line(line_of(t)) == Some(t),
        !line_of(t).contains('\n'),
{
    let l = line_of(t);
    let i = t.0.len() as int;
    assert(l[i] == '|');
    assert forall|j: int| 0 <= j < i implies l[j] != '|' by {
        assert(l[j] == t.0[j]);
        if l[j] == '|' {
            assert(t.0.contains('|'));
        }
    }
    lemma_index_of_first(l, '|', i);
    assert(l.take(i) =~= t.0);
    assert(l.skip(i + 1) =~= t.1);
    if l.contains('\n') {
        let k = choose|k: int| 0 <= k < l.len() && l[k] == '\n';
        if k < i {
            assert(t.0[k] == '\n');
            assert(t.0.contains('\n'));
        } else if k > i {
            assert(t.1[k - i - 1] == '\n');
            assert(t.1.contains('\n'));
        }
    }
}

proof fn lemma_split_no_sep(s: Seq<char>, c: char)
    requires
        !s.contains(c),
    ensures
        split_spec(s, c) == seq![s],
{
    lemma_index_of_none(s, c);
}

/// Reading back what was stored gives the same templates, for every list
/// of storable templates.
pub proof fn law_serialize_parse_roundtrip(ts: Seq<(Seq<char>, Seq<char>)>)
    requires
        forall|i: int| 0 <= i < ts.len() ==> storable(#[trigger] ts[i]),
    ensures
        parse_spec(serialize_spec(ts)) == ts,
    decreases ts.len(),
{
    assert(parse_lines(Seq::<Seq<char>>::empty()) =~= Seq::empty());
    if ts.len() == 0 {
        let e = Seq::<char>::empty();
        assert(serialize_spec(ts) == e);
        assert(!e.contains('\n'));
        lemma_split_no_sep(e, '\n');
        lemma_index_of_none(e, '|');
        assert(parse_line(e) is None);
        assert(seq![e][0] == e);
        assert(seq![e].drop_first() =~= Seq::<Seq<char>>::empty());
    } else if ts.len() == 1 {
        lemma_parse_storable_line(ts[0]);
        let l = line_of(ts[0]);
        assert(serialize_spec(ts) == l);
        lemma_split_no_sep(l, '\n');
        assert(seq![l].drop_first() =~= Seq::<Seq<char>>::empty());
        assert(parse_lines(Seq::<Seq<char>>::empty()) =~= Seq::empty());
        assert(seq![l][0] == l);
        assert(parse_lines(seq![l]) =~= seq![ts[0]] + Seq::empty());
        assert(seq![ts[0]] =~= ts);
    } else {
        let rest = ts.drop_first();
        assert forall|i: int| 0 <= i < rest.len() implies storable(#[trigger] rest[i]) by {
            assert(rest[i] == ts[i + 1]);
        }
        law_serialize_parse_roundtrip(rest);
        lemma_parse_storable_line(ts[0]);
        let l = line_of(ts[0]);
        let s = serialize_spec(ts);
        assert(s == l + seq!['\n'] + serialize_spec(rest));
        let i = l.len() as int;
        assert(s[i] == '\n');
        assert forall|j: int| 0 <= j < i implies s[j] != '\n' by {
            assert(s[j] == l[j]);
            if s[j] == '\n' {
                assert(l.contains('\n'));
            }
        }
        lemma_index_of_first(s, '\n', i);
        assert(s.take(i) =~= l);
        assert(s.skip(i + 1) =~= serialize_spec(rest));
        let lines = split_spec(s, '\n');
        assert(lines == seq![l] + split_spec(serialize_spec(rest), '\n'));
        assert(lines[0] == l);
        assert(lines.drop_first() =~= split_spec(serialize_spec(rest), '\n'));
        assert(parse_lines(lines) =~= seq![ts[0]] + rest);
        assert(seq![ts[0]] + rest =~= ts);
    }
}

// ───────────────────────── editing ─────────────────────────

/// Why a template command was refused.
#[derive(PartialEq, Eq, Structural, Clone, Copy, Debug)]
pub enum TemplateError {
    /// Label or reason empty after trimming.
    Empty,
    /// The label holds `|` or a newline.
    LabelForbiddenChar,
    /// The reason holds a newline.
    ReasonNewline,
    /// A template with the same label (ignoring ASCII case) exists.
    Duplicate,
    /// No template carries the label.
    NotFound,
}

/// Two labels are the same ignoring ASCII case (`eq_ignore_ascii_case`).
pub open spec fn same_label(a: Seq<char>, b: Seq<char>) -> bool {
    ascii_lower_seq(a) == ascii_lower_seq(b)
}

/// Outcome of `/template add` on the current templates.
pub open spec fn add_spec(ts: Seq<(Seq<char>, Seq<char>)>, label: Seq<char>, reason: Seq<char>) -> Result<
    Seq<(Seq<char>, Seq<char>)>,
    TemplateError,
> {
    let l = trim_spec(label);
    let r = trim_spec(reason);
    if l.len() == 0 || r.len() == 0 {
        Err(TemplateError::Empty)
    } else if l.contains('|') || l.contains('\n') {
        Err(TemplateError::LabelForbiddenChar)
    } else if r.contains('\n') {
        Err(TemplateError::ReasonNewline)
    } else if exists|i: int| 0 <= i < ts.len() && same_label(#[trigger] ts[i].0, l) {
        Err(TemplateError::Duplicate)
    } else {
        Ok(ts.push((l, r)))
    }
}

/// Templates left by `/template remove` of `label`: those whose label
/// differs from it ignoring ASCII case.
pub open spec fn keep_spec(ts: Seq<(Seq<char>, Seq<char>)>, label: Seq<char>) -> Seq<(Seq<char>, Seq<char>)> {
    ts.filter(|t: (Seq<char>, Seq<char>)| !same_label(t.0, label))
}

/// Outcome of `/template remove`: the kept templates and how many went.
pub open spec fn remove_spec(ts: Seq<(Seq<char>, Seq<char>)>, label: Seq<char>) -> Result<
    (Seq<(Seq<char>, Seq<char>)>, nat),
    TemplateError,
> {
    let l = trim_spec(label);
    if l.len() == 0 {
        Err(TemplateError::Empty)
    } else if keep_spec(ts, l).len() == ts.len() {
        Err(TemplateError::NotFound)
    } else {
        Ok((keep_spec(ts, l), (ts.len() - keep_spec(ts, l).len()) as nat))
    }
}

/// `c` occurs in `cs`.
fn has_char(cs: &[char], c: char) -> (r: bool)
    ensures
        r == cs@.contains(c),
{
    let n = cs.len();
    for i in 0..n
        invariant
            n == cs@.len(),
            forall|j: int| 0 <= j < i ==> cs@[j] != c,
    {
        if cs[i] == c {
            assert(cs@[i as int] == c);
            return true;
        }
    }
    false
}

/// Labels equal ignoring ASCII case.
fn same_label_exec(a: &str, b: &[char]) -> (r: bool)
    ensures
        r == same_label(a@, b@),
{
    let ca = chars_of(a);
    let la = lower_chars(ca.as_slice());
    let lb = lower_chars(b);
    chars_eq(la.as_slice(), lb.as_slice())
}

/// A copy of one template.
fn copy_template(t: &ReasonTemplate) -> (r: ReasonTemplate)
    ensures
        tview(r) == tview(*t),
{
    ReasonTemplate { label: owned(t.label.as_str()), reason: owned(t.reason.as_str()) }
}

/// A copy of a list of templates.
fn copy_templates(ts: &Vec<ReasonTemplate>) -> (r: Vec<ReasonTemplate>)
    ensures
        tviews(r@) == tviews(ts@),
{
    let mut r: Vec<ReasonTemplate> = Vec::new();
    let n = ts.len();
    for i in 0..n
        invariant
            n == ts@.len(),
            tviews(r@) == tviews(ts@).take(i as int),
    {
        let ghost before = r@;
        r.push(copy_template(&ts[i]));
        assert(tviews(ts@).take(i + 1) =~= tviews(ts@).take(i as int).push(tview(ts@[i as int])));
        assert(tviews(r@) =~= tviews(before).push(tview(ts@[i as int])));
    }
    assert(tviews(ts@).take(n as int) =~= tviews(ts@));
    r
}

/// Adds a template, after trimming both texts, unless one is empty, the
/// label holds `|` or a newline, the reason holds a newline, or the label
/// is taken.
#[verifier::loop_isolation(false)]
pub fn add_template(templates: &Vec<ReasonTemplate>, label: &str, reason: &str) -> (r: Result<
    Vec<ReasonTemplate>,
    TemplateError,
>)
    ensures
        match r {
            Ok(v) => add_spec(tviews(templates@), label@, reason@) == Ok::<Seq<(Seq<char>, Seq<char>)>, TemplateError>(tviews(v@)),
            Err(e) => add_spec(tviews(templates@), label@, reason@) == Err::<Seq<(Seq<char>, Seq<char>)>, TemplateError>(e),
        },
{
    let lc = chars_of(label);
    let rc = chars_of(reason);
    let l = trim_chars(lc.as_slice());
    let rs = trim_chars(rc.as_slice());
    if l.len() == 0 || rs.len() == 0 {
        return Err(TemplateError::Empty);
    }
    if has_char(l.as_slice(), '|') || has_char(l.as_slice(), '\n') {
        return Err(TemplateError::LabelForbiddenChar);
    }
    if has_char(rs.as_slice(), '\n') {
        return Err(TemplateError::ReasonNewline);
    }
    let ghost tv = tviews(templates@);
    let n = templates.len();
    for i in 0..n
        invariant
            n == templates@.len(),
            tv == tviews(templates@),
            forall|j: int| 0 <= j < i ==> !same_label(#[trigger] tv[j].0, l@),
    {
        if same_label_exec(templates[i].label.as_str(), l.as_slice()) {
            assert(tv[i as int] == tview(templates@[i as int]));
            assert(same_label(tv[i as int].0, l@));
            return Err(TemplateError::Duplicate);
        }
    }
    let mut v = copy_templates(templates);
    let t = ReasonTemplate { label: string_of(l.as_slice()), reason: string_of(rs.as_slice()) };
    v.push(t);
    assert(tviews(v@) =~= tv.push((l@, rs@)));
    Ok(v)
}

/// Removes every template whose label matches `label` (trimmed, ignoring
/// ASCII case); refused when the label is empty or matches nothing.
pub fn remove_templates(templates: &Vec<ReasonTemplate>, label: &str) -> (r: Result<
    (Vec<ReasonTemplate>, usize),
    TemplateError,
>)
    ensures
        match r {
            Ok((v, n)) => remove_spec(tviews(templates@), label@) == Ok::<(Seq<(Seq<char>, Seq<char>)>, nat), TemplateError>((tviews(v@), n as nat)),
            Err(e) => remove_spec(tviews(templates@), label@) == Err::<(Seq<(Seq<char>, Seq<char>)>, nat), TemplateError>(e),
        },
{
    let lc = chars_of(label);
    let l = trim_chars(lc.as_slice());
    if l.len() == 0 {
        return Err(TemplateError::Empty);
    }
    let ghost tv = tviews(templates@);
    let ghost f = |t: (Seq<char>, Seq<char>)| !same_label(t.0, l@);
    let mut kept: Vec<ReasonTemplate> = Vec::new();
    let n = templates.len();
    for i in 0..n
        invariant
            n == templates@.len(),
            tv == tviews(templates@),
            f == (|t: (Seq<char>, Seq<char>)| !same_label(t.0, l@)),
            tviews(kept@) == tv.take(i as int).filter(f),
    {
        let t = &templates[i];
        let same = same_label_exec(t.label.as_str(), l.as_slice());
        let ghost before = kept@;
        if !same {
            kept.push(copy_template(t));
            assert(tviews(kept@) =~= tviews(before).push(tview(*t)));
        }
        proof {
            assert(tv.take(i + 1).drop_last() =~= tv.take(i as int));
            assert(tv.take(i + 1).last() == tview(*t));
            reveal_with_fuel(Seq::filter, 1);
        }
    }
    assert(tv.take(n as int) =~= tv);
    proof {
        tv.lemma_filter_len(f);
    }
    if kept.len() == n {
        return Err(TemplateError::NotFound);
    }
    let removed = n - kept.len();
    Ok((kept, removed))
}

/// Listing shown by `/template list`: numbered lines
/// `n. **label** — reason`, or a hint when there is none.
pub open spec fn list_item(i: int, t: (Seq<char>, Seq<char>)) -> Seq<char> {
    int_text(i + 1) + ". **"@ + t.0 + "** \u{2014} "@ + t.1
}

/// Lines of the listing for the first `k` templates.
pub open spec fn list_lines(ts: Seq<(Seq<char>, Seq<char>)>, k: int) -> Seq<char>
    decreases k,
{
    if k <= 0 {
        Seq::empty()
    } else if k == 1 {
        list_item(0, ts[0])
    } else {
        list_lines(ts, k - 1) + seq!['\n'] + list_item(k - 1, ts[k - 1])
    }
}

/// Description of the template listing.
pub open spec fn list_spec(ts: Seq<(Seq<char>, Seq<char>)>) -> Seq<char> {
    if ts.len() == 0 {
        "Aucun template defini. Utilisez `/template add` pour en ajouter."@
    } else {
        list_lines(ts, ts.len() as int)
    }
}

/// Description of the `/template list` answer.
pub fn format_template_list(templates: &Vec<ReasonTemplate>) -> (s: String)
    ensures
        s@ == list_spec(tviews(templates@)),
{
    let mut s = String::new();
    let n = templates.len();
    if n == 0 {
        push_str(&mut s, "Aucun template defini. Utilisez `/template add` pour en ajouter.");
        return s;
    }
    let ghost tv = tviews(templates@);
    for i in 0..n
        invariant
            n == templates@.len(),
            tv == tviews(templates@),
            s@ == list_lines(tv, i as int),
    {
        let t = &templates[i];
        if i > 0 {
            push_str(&mut s, "\n");
        }
        push_u64(&mut s, (i as u64) + 1);
        push_str(&mut s, ". **");
        push_str(&mut s, t.label.as_str());
        push_str(&mut s, "** \u{2014} ");
        push_str(&mut s, t.reason.as_str());
        proof {
            reveal_strlit("\n");
            assert(tv[i as int] == tview(*t));
        }
    }
    s
}

} // verus!
