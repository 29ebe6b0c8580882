//! Text templates: plain text with `$$` standing for `$`, and `${TIME <format>}`
//! parts replaced by the current time in strftime format.
//!
//! Grammar (every character must be consumed):
//!
//! ```text
//! template  := component*
//! component := plain | special
//! plain     := ( "$$" | any character but '$' )+        -- longest run
//! special   := "${" "TIME " args "}"
//! args      := any characters up to the first '}'
//! ```

use vstd::prelude::*;

use crate::text::{chars_of, push_char};

verus! {

/// A part of a template.
#[derive(Debug, PartialEq, Clone)]
pub enum TextTemplatePart {
    /// Literal text, already unescaped.
    Str(String),
    /// The current time, in the given strftime format.
    Time(String),
}

/// The value of a template part.
pub enum TemplatePartValue {
    Str(Seq<char>),
    Time(Seq<char>),
}

impl View for TextTemplatePart {
    type V = TemplatePartValue;

    open spec fn view(&self) -> TemplatePartValue {
        match self {
            TextTemplatePart::Str(s) => TemplatePartValue::Str(s@),
            TextTemplatePart::Time(f) => TemplatePartValue::Time(f@),
        }
    }
}

/// The values of a list of parts.
pub open spec fn part_values(parts: Seq<TextTemplatePart>) -> Seq<TemplatePartValue> {
    parts.map_values(|p: TextTemplatePart| p@)
}

/// Length of the plain-text run at the start of `s`.
pub open spec fn plain_run_len(s: Seq<char>) -> nat
    decreases s.len(),
{
    if s.len() >= 2 && s[0] == '$' && s[1] == '$' {
        2 + plain_run_len(s.skip(2))
    } else if s.len() >= 1 && s[0] != '$' {
        1 + plain_run_len(s.skip(1))
    } else {
        0
    }
}

/// The text of the plain-text run at the start of `s`, `$$` read as `$`.
pub open spec fn plain_run_text(s: Seq<char>) -> Seq<char>
    decreases s.len(),
{
    if s.len() >= 2 && s[0] == '$' && s[1] == '$' {
        seq!['$'] + plain_run_text(s.skip(2))
    } else if s.len() >= 1 && s[0] != '$' {
        seq![s[0]] + plain_run_text(s.skip(1))
    } else {
        Seq::empty()
    }
}

/// Position of the first `}` in `s`, if any.
pub open spec fn first_close_brace(s: Seq<char>) -> Option<nat>
    decreases s.len(),
{
    if s.len() == 0 {
        None
    } else if s[0] == '}' {
        Some(0)
    } else {
        match first_close_brace(s.skip(1)) {
            Some(k) => Some(k + 1),
            None => None,
        }
    }
}

/// `s` starts with `${TIME `.
pub open spec fn starts_time_part(s: Seq<char>) -> bool {
    s.len() >= 7 && s[0] == '$' && s[1] == '{' && s[2] == 'T' && s[3] == 'I' && s[4] == 'M' && s[5]
        == 'E' && s[6] == ' '
}

/// Parts list `front` followed by the rest of a parse, if the rest parses.
pub open spec fn prepend_parts(front: Seq<TemplatePartValue>, rest: Option<Seq<TemplatePartValue>>) -> Option<Seq<TemplatePartValue>> {
    match rest {
        Some(r) => Some(front + r),
        None => None,
    }
}

/// The parts of a template text, or `None` if the text does not follow the grammar.
pub open spec fn template_parts(s: Seq<char>) -> Option<Seq<TemplatePartValue>>
    decreases s.len(),
{
    if s.len() == 0 {
        Some(Seq::empty())
    } else if plain_run_len(s) > 0 {
        let n = plain_run_len(s);
        if n <= s.len() {
            prepend_parts(seq![TemplatePartValue::Str(plain_run_text(s))], template_parts(s.skip(n as int)))
        } else {
            None
        }
    } else if starts_time_part(s) {
        proof {
            lemma_close_brace_in_range(s.skip(7));
        }
        match first_close_brace(s.skip(7)) {
            Some(k) => prepend_parts(
                seq![TemplatePartValue::Time(s.subrange(7, 7 + k as int))],
                template_parts(s.skip(8 + k as int)),
            ),
            None => None,
        }
    } else {
        None
    }
}

/// A `}` that is found lies inside the text.
pub proof fn lemma_close_brace_in_range(s: Seq<char>)
    ensures
        first_close_brace(s) matches Some(k) ==> k < s.len(),
    decreases s.len(),
{
    if s.len() > 0 && s[0] != '}' {
        lemma_close_brace_in_range(s.skip(1));
    }
}

/// Whether chrono accepts a strftime format: it contains no invalid or
/// unrecognised specifier.
pub uninterp spec fn strftime_format_valid(format: Seq<char>) -> bool;

/// Checks a strftime format.
///
/// Trusted: `chrono::format::StrftimeItems::new(format).parse_to_owned()`,
/// whose success is named.
#[verifier::external_body]
fn check_strftime(format: &str) -> (ok: bool)
    ensures
        ok == strftime_format_valid(format@),
{
    chrono::format::StrftimeItems::new(format).parse_to_owned().is_ok()
}

/// Why a template was refused.
#[derive(Debug, PartialEq, Eq, Structural, Clone, Copy)]
pub enum TextTemplateError {
    /// The text does not follow the template grammar.
    Syntax,
    /// A time part's strftime format is not accepted.
    InvalidTimeFormat,
}

/// All time parts of a list have valid formats.
pub open spec fn time_formats_valid(parts: Seq<TemplatePartValue>) -> bool {
    forall|i: int| 0 <= i < parts.len() ==> (#[trigger] parts[i] matches TemplatePartValue::Time(f) ==> strftime_format_valid(f))
}

/// A parsed text template, with the text it was parsed from.
#[derive(Debug, PartialEq, Clone)]
pub struct TextStringTemplate {
    original: String,
    parts: Vec<TextTemplatePart>,
}

/// The length of the plain run at `start` and its unescaped text.
fn scan_plain(v: &Vec<char>, start: usize) -> (r: (usize, String))
    requires
        start <= v@.len(),
    ensures
        r.0 as nat == plain_run_len(v@.skip(start as int)),
        r.1@ == plain_run_text(v@.skip(start as int)),
        start + r.0 <= v@.len(),
{
    let mut j = start;
    let mut text = String::new();
    while j < v.len() && (v[j] != '$' || (j + 1 < v.len() && v[j + 1] == '$'))
        invariant
            start <= j <= v@.len(),
            plain_run_len(v@.skip(start as int)) == (j - start) + plain_run_len(v@.skip(j as int)),
            plain_run_text(v@.skip(start as int)) == text@ + plain_run_text(v@.skip(j as int)),
        decreases v@.len() - j,
    {
        let ghost t = v@.skip(j as int);
        assert(t[0] == v@[j as int]);
        if v[j] == '$' {
            assert(t[1] == v@[j + 1]);
            assert(t.skip(2) == v@.skip(j + 2));
            push_char(&mut text, '$');
            j = j + 2;
        } else {
            assert(t.skip(1) == v@.skip(j + 1));
            push_char(&mut text, v[j]);
            j = j + 1;
        }
    }
    proof {
        let t = v@.skip(j as int);
        if j < v@.len() {
            assert(t[0] == v@[j as int]);
            if j + 1 < v@.len() {
                assert(t[1] == v@[j + 1]);
            }
        }
        assert(plain_run_len(t) == 0);
        assert(plain_run_text(t) == Seq::<char>::empty());
        assert(text@ + Seq::<char>::empty() == text@);
    }
    (j - start, text)
}

/// Position of the first `}` at or after `start`, if any.
fn find_close_brace(v: &Vec<char>, start: usize) -> (r: Option<usize>)
    requires
        start <= v@.len(),
    ensures
        r matches Some(p) ==> start <= p < v@.len() && first_close_brace(v@.skip(start as int)) == Some((p - start) as nat),
        r is None ==> first_close_brace(v@.skip(start as int)) is None,
{
    let mut j = start;
    while j < v.len()
        invariant
            start <= j <= v@.len(),
            forall|i: int| start <= i < j ==> v@[i] != '}',
        decreases v@.len() - j,
    {
        if v[j] == '}' {
            proof {
                lemma_first_close_brace(v@, start as int, j as int);
            }
            return Some(j);
        }
        j = j + 1;
    }
    proof {
        lemma_no_close_brace(v@, start as int);
    }
    None
}

proof fn lemma_first_close_brace(v: Seq<char>, start: int, j: int)
    requires
        0 <= start <= j < v.len(),
        v[j] == '}',
        forall|i: int| start <= i < j ==> v[i] != '}',
    ensures
        first_close_brace(v.skip(start)) == Some((j - start) as nat),
    decreases j - start,
{
    let t = v.skip(start);
    assert(t[0] == v[start]);
    if start < j {
        assert(t.skip(1) == v.skip(start + 1));
        lemma_first_close_brace(v, start + 1, j);
    }
}

proof fn lemma_no_close_brace(v: Seq<char>, start: int)
    requires
        0 <= start <= v.len(),
        forall|i: int| start <= i < v.len() ==> v[i] != '}',
    ensures
        first_close_brace(v.skip(start)) is None,
    decreases v.len() - start,
{
    let t = v.skip(start);
    if start < v.len() {
        assert(t[0] == v[start]);
        assert(t.skip(1) == v.skip(start + 1));
        lemma_no_close_brace(v, start + 1);
    }
}

/// The characters `from..to` as a string.
fn string_of_range(v: &Vec<char>, from: usize, to: usize) -> (s: String)
    requires
        from <= to <= v@.len(),
    ensures
        s@ == v@.subrange(from as int, to as int),
{
    let mut s = String::new();
    let mut j = from;
    while j < to
        invariant
            from <= j <= to,
            to <= v@.len(),
            s@ == v@.subrange(from as int, j as int),
        decreases to - j,
    {
        push_char(&mut s, v[j]);
        assert(v@.subrange(from as int, j + 1) == v@.subrange(from as int, j as int).push(v@[j as int]));
        j = j + 1;
    }
    s
}

/// Splits a template text into its parts.
fn parse_template_parts(v: &Vec<char>) -> (r: Option<Vec<TextTemplatePart>>)
    ensures
        r matches Some(p) ==> template_parts(v@) == Some(part_values(p@)),
        r is None ==> template_parts(v@) is None,
{
    let mut parts: Vec<TextTemplatePart> = Vec::new();
    let mut i: usize = 0;
    assert(v@.skip(0) == v@);
    while i < v.len()
        invariant
            i <= v@.len(),
            template_parts(v@) == prepend_parts(part_values(parts@), template_parts(v@.skip(i as int))),
        decreases v@.len() - i,
    {
        let ghost t = v@.skip(i as int);
        let (n, text) = scan_plain(v, i);
        if n > 0 {
            proof {
                assert(t.skip(n as int) == v@.skip(i + n));
                let rest = template_parts(t.skip(n as int));
                assert(template_parts(t) == prepend_parts(seq![TemplatePartValue::Str(text@)], rest));
            }
            let ghost prev = parts@;
            parts.push(TextTemplatePart::Str(text));
            proof {
                assert(part_values(parts@) =~= part_values(prev) + seq![TemplatePartValue::Str(text@)]);
                let rest = template_parts(v@.skip(i + n));
                match rest {
                    Some(r) => {
                        assert(part_values(prev) + (seq![TemplatePartValue::Str(text@)] + r) =~= part_values(parts@) + r);
                    },
                    None => {},
                }
            }
            i = i + n;
        } else if v.len() - i >= 7 && v[i] == '$' && v[i + 1] == '{' && v[i + 2] == 'T' && v[i + 3] == 'I'
            && v[i + 4] == 'M' && v[i + 5] == 'E' && v[i + 6] == ' ' {
            proof {
                assert(t[0] == v@[i as int] && t[1] == v@[i + 1] && t[2] == v@[i + 2] && t[3] == v@[i + 3]);
                assert(t[4] == v@[i + 4] && t[5] == v@[i + 5] && t[6] == v@[i + 6]);
                assert(starts_time_part(t));
                assert(t.skip(7) == v@.skip(i + 7));
            }
            match find_close_brace(v, i + 7) {
                Some(close) => {
                    let format = string_of_range(v, i + 7, close);
                    proof {
                        let k = (close - (i + 7)) as nat;
                        assert(t.subrange(7, 7 + k as int) == v@.subrange(i + 7, close as int));
                        assert(t.skip(8 + k as int) == v@.skip(close + 1));
                    }
                    let ghost prev = parts@;
                    parts.push(TextTemplatePart::Time(format));
                    proof {
                        assert(part_values(parts@) =~= part_values(prev) + seq![TemplatePartValue::Time(format@)]);
                        let rest = template_parts(v@.skip(close + 1));
                        match rest {
                            Some(r) => {
                                assert(part_values(prev) + (seq![TemplatePartValue::Time(format@)] + r) =~= part_values(parts@) + r);
                            },
                            None => {},
                        }
                    }
                    i = close + 1;
                },
                None => {
                    return None;
                },
            }
        } else {
            proof {
                if i + 7 <= v@.len() && starts_time_part(t) {
                    assert(t[0] == v@[i as int] && t[1] == v@[i + 1] && t[2] == v@[i + 2] && t[3] == v@[i + 3]);
                    assert(t[4] == v@[i + 4] && t[5] == v@[i + 5] && t[6] == v@[i + 6]);
                }
                assert(template_parts(t) is None);
            }
            return None;
        }
    }
    proof {
        assert(v@.skip(i as int).len() == 0);
        assert(part_values(parts@) + Seq::<TemplatePartValue>::empty() =~= part_values(parts@));
    }
    Some(parts)
}

impl TextStringTemplate {
    /// The text the template was parsed from.
    pub closed spec fn spec_original(&self) -> Seq<char> {
        self.original@
    }

    /// The parts of the template.
    pub closed spec fn spec_parts(&self) -> Seq<TemplatePartValue> {
        part_values(self.parts@)
    }

    /// Parses a template text. It is refused when it does not follow the
    /// grammar, or when a time part's format is not a valid strftime format.
    pub fn from_str(s: &str) -> (res: Result<Self, TextTemplateError>)
        ensures
            template_parts(s@) is None ==> res == Err::<Self, TextTemplateError>(TextTemplateError::Syntax),
            template_parts(s@) matches Some(p) ==> (time_formats_valid(p) <==> res is Ok),
            template_parts(s@) matches Some(p) ==> (!time_formats_valid(p) ==> res == Err::<Self, TextTemplateError>(TextTemplateError::InvalidTimeFormat)),
            res matches Ok(t) ==> t.spec_original() == s@ && Some(t.spec_parts()) == template_parts(s@),
    {
        let v = chars_of(s);
        let parts = match parse_template_parts(&v) {
            Some(p) => p,
            None => return Err(TextTemplateError::Syntax),
        };
        let mut i: usize = 0;
        while i < parts.len()
            invariant
                i <= parts@.len(),
                template_parts(s@) == Some(part_values(parts@)),
                forall|j: int| 0 <= j < i ==> (#[trigger] part_values(parts@)[j] matches TemplatePartValue::Time(f) ==> strftime_format_valid(f)),
            decreases parts@.len() - i,
        {
            match &parts[i] {
                TextTemplatePart::Time(f) => {
                    if !check_strftime(f.as_str()) {
                        assert(part_values(parts@)[i as int] == TemplatePartValue::Time(f@));
                        return Err(TextTemplateError::InvalidTimeFormat);
                    }
                },
                TextTemplatePart::Str(_) => {},
            }
            i = i + 1;
        }
        Ok(Self { original: s.to_owned(), parts })
    }

    /// The text the template was parsed from.
    pub fn original(&self) -> (s: &String)
        ensures
            s@ == self.spec_original(),
    {
        &self.original
    }

    /// The text the template was parsed from (the template as displayed).
    pub fn to_string(&self) -> (s: String)
        ensures
            s@ == self.spec_original(),
    {
        self.original.clone()
    }

    /// The parts of the template.
    pub fn parts(&self) -> (p: &Vec<TextTemplatePart>)
        ensures
            part_values(p@) == self.spec_parts(),
    {
        &self.parts
    }
}

/// The strftime formats of the time parts of a list of parts, in order.
pub open spec fn time_formats(parts: Seq<TemplatePartValue>) -> Seq<Seq<char>>
    decreases parts.len(),
{
    if parts.len() == 0 {
        Seq::empty()
    } else {
        time_formats(parts.drop_last()) + match parts.last() {
            TemplatePartValue::Time(f) => seq![f],
            TemplatePartValue::Str(_) => Seq::empty(),
        }
    }
}

/// Number of time parts in a list of parts.
pub open spec fn time_part_count(parts: Seq<TemplatePartValue>) -> nat {
    time_formats(parts).len()
}

/// The text of a template with its time parts, in order, replaced by `times`.
pub open spec fn rendered_text(parts: Seq<TemplatePartValue>, times: Seq<Seq<char>>) -> Seq<char>
    decreases parts.len(),
{
    if parts.len() == 0 {
        Seq::empty()
    } else {
        let k = time_part_count(parts.drop_last());
        rendered_text(parts.drop_last(), times) + match parts.last() {
            TemplatePartValue::Str(s) => s,
            TemplatePartValue::Time(_) => times[k as int],
        }
    }
}

/// Appends `b` to `a`.
fn append_string(a: &mut String, b: &String)
    ensures
        final(a)@ == old(a)@ + b@,
{
    let v = chars_of(b.as_str());
    let mut i: usize = 0;
    let ghost start = a@;
    while i < v.len()
        invariant
            i <= v@.len(),
            v@ == b@,
            a@ == start + v@.take(i as int),
        decreases v@.len() - i,
    {
        push_char(a, v[i]);
        assert(v@.take(i + 1) == v@.take(i as int).push(v@[i as int]));
        i = i + 1;
    }
    assert(v@.take(v@.len() as int) == v@);
}

/// The template's text with its time parts, in order, replaced by the given
/// formatted times.
pub fn render_template(template: &TextStringTemplate, times: &Vec<String>) -> (out: String)
    requires
        times@.len() == time_part_count(template.spec_parts()),
    ensures
        out@ == rendered_text(template.spec_parts(), times@.map_values(|t: String| t@)),
{
    let parts = template.parts();
    let ghost pv = part_values(parts@);
    let ghost tv = times@.map_values(|t: String| t@);
    let mut out = String::new();
    let mut k: usize = 0;
    let mut i: usize = 0;
    let n_times = times.len();
    while i < parts.len()
        invariant
            n_times == times@.len(),
            pv == part_values(parts@),
            tv == times@.map_values(|t: String| t@),
            i <= parts@.len(),
            k as nat == time_part_count(pv.take(i as int)),
            time_part_count(pv) == times@.len(),
            out@ == rendered_text(pv.take(i as int), tv),
        decreases parts@.len() - i,
    {
        proof {
            assert(pv.take(i + 1).drop_last() == pv.take(i as int));
            assert(pv.take(i + 1).last() == pv[i as int]);
            lemma_time_count_prefix(pv, i as int);
        }
        match &parts[i] {
            TextTemplatePart::Str(s) => {
                assert(pv[i as int] == TemplatePartValue::Str(s@));
                append_string(&mut out, s);
            },
            TextTemplatePart::Time(f) => {
                assert(pv[i as int] == TemplatePartValue::Time(f@));
                assert(time_formats(pv.take(i + 1)).len() == k + 1);
                append_string(&mut out, &times[k]);
                k = k + 1;
            },
        }
        i = i + 1;
    }
    assert(pv.take(parts@.len() as int) == pv);
    out
}

/// The time formats of the first `i + 1` parts are those of the first `i`,
/// followed by the format of part `i` if it is a time part; and the formats of
/// any prefix are a prefix of all the formats.
proof fn lemma_time_count_prefix(pv: Seq<TemplatePartValue>, i: int)
    requires
        0 <= i < pv.len(),
    ensures
        time_formats(pv.take(i + 1)) == time_formats(pv.take(i)) + match pv[i] {
            TemplatePartValue::Time(f) => seq![f],
            TemplatePartValue::Str(_) => Seq::<Seq<char>>::empty(),
        },
        time_formats(pv.take(i + 1)).len() <= time_formats(pv).len(),
        forall|k: int| 0 <= k < time_formats(pv.take(i + 1)).len() ==> time_formats(pv.take(i + 1))[k] == time_formats(pv)[k],
{
    assert(pv.take(i + 1).drop_last() == pv.take(i));
    lemma_time_formats_prefix(pv, i + 1);
}

proof fn lemma_time_formats_prefix(pv: Seq<TemplatePartValue>, j: int)
    requires
        0 <= j <= pv.len(),
    ensures
        time_formats(pv.take(j)).len() <= time_formats(pv).len(),
        forall|k: int| 0 <= k < time_formats(pv.take(j)).len() ==> time_formats(pv.take(j))[k] == time_formats(pv)[k],
    decreases pv.len() - j,
{
    if j < pv.len() {
        lemma_time_formats_prefix(pv, j + 1);
        assert(pv.take(j + 1).drop_last() == pv.take(j));
        let a = time_formats(pv.take(j));
        let b = time_formats(pv.take(j + 1));
        assert forall|k: int| 0 <= k < a.len() implies a[k] == time_formats(pv)[k] by {
            assert(b[k] == a[k]);
        }
    } else {
        assert(pv.take(j) == pv);
    }
}

/// `text` is what `format_now` may give back for a format with the view `format`.
pub open spec fn formatted_by<F: Fn(&str) -> String>(format_now: F, format: Seq<char>, text: String) -> bool {
    exists|f: &str| f@ == format && #[trigger] format_now.ensures((f,), text)
}

/// The template's text with each time part replaced by the current time
/// formatted with the part's strftime format. `format_now` is asked once per
/// time part, in order, with that part's format; what it gives back stands in
/// place of the part.
pub fn make_string_from_template<F: Fn(&str) -> String>(
    template: &TextStringTemplate,
    format_now: F,
) -> (out: String)
    requires
        forall|f: &str| format_now.requires((f,)),
    ensures
        exists|times: Seq<String>|
            #![trigger times.len()]
            times.len() == time_part_count(template.spec_parts())
            && (forall|k: int| 0 <= k < times.len() ==> #[trigger] formatted_by(format_now, time_formats(template.spec_parts())[k], times[k]))
            && out@ == rendered_text(template.spec_parts(), times.map_values(|t: String| t@)),
{
    let parts = template.parts();
    let ghost pv = part_values(parts@);
    let mut times: Vec<String> = Vec::new();
    let mut i: usize = 0;
    while i < parts.len()
        invariant
            pv == part_values(parts@),
            pv == template.spec_parts(),
            i <= parts@.len(),
            times@.len() == time_part_count(pv.take(i as int)),
            times@.len() <= time_part_count(pv),
            forall|f: &str| format_now.requires((f,)),
            forall|k: int| 0 <= k < times@.len() ==> #[trigger] formatted_by(format_now, time_formats(pv)[k], times@[k]),
        decreases parts@.len() - i,
    {
        proof {
            lemma_time_count_prefix(pv, i as int);
        }
        match &parts[i] {
            TextTemplatePart::Time(f) => {
                let fs = f.as_str();
                let text = format_now(fs);
                proof {
                    assert(pv[i as int] == TemplatePartValue::Time(f@));
                    let k = times@.len() as int;
                    assert(time_formats(pv.take(i + 1))[k] == f@);
                    assert(time_formats(pv)[k] == fs@);
                }
                let ghost prev = times@;
                times.push(text);
                proof {
                    assert forall|k: int| 0 <= k < times@.len() implies #[trigger] formatted_by(format_now, time_formats(pv)[k], times@[k]) by {
                        if k < prev.len() {
                            assert(times@[k] == prev[k]);
                            assert(formatted_by(format_now, time_formats(pv)[k], prev[k]));
                        } else {
                            assert(times@[k] == text);
                            assert(fs@ == time_formats(pv)[k] && format_now.ensures((fs,), times@[k]));
                        }
                    }
                }

            },
            TextTemplatePart::Str(_) => {
                assert(pv[i as int] is Str);

            },
        }
        i = i + 1;
    }
    assert(pv.take(parts@.len() as int) == pv);
    let out = render_template(template, &times);
    assert(times@.len() == time_part_count(template.spec_parts()));
    out
}

} // verus!
