//! The texts that describe an object to whoever browses it: tags, keywords and examples, some
//! of them as JSON.

use vstd::prelude::*;
use vstd::string::*;

use crate::lists;
use crate::text;

verus! {

/// What becomes of a text inside of a JSON string.
#[derive(Debug, Clone, Copy, PartialEq, Eq, Structural)]
pub enum Escaping {
    /// The text is kept as it is.
    Exact,
    /// Carriage returns are dropped, and tabs are made into spaces.
    Layout,
}

/// The character of a hexadecimal digit.
pub open spec fn hex_digit(d: nat) -> char {
    if d < 10 {
        (48 + d) as char
    } else {
        (87 + d) as char
    }
}

/// A character as it stands inside of a JSON string, where no control character may stand as
/// it is.
pub open spec fn escaped_char(c: char, escaping: Escaping) -> Seq<char> {
    if c == '\\' || c == '"' {
        seq!['\\', c]
    } else if c == '\r' && escaping is Layout {
        seq![]
    } else if c == '\t' && escaping is Layout {
        seq![' ']
    } else if c == '\n' {
        seq!['\\', 'n']
    } else if c == '\r' {
        seq!['\\', 'r']
    } else if c == '\t' {
        seq!['\\', 't']
    } else if (c as u32) < 0x20 {
        let u = c as nat;
        seq!['\\', 'u', '0', '0', hex_digit(u / 16), hex_digit(u % 16)]
    } else {
        seq![c]
    }
}

/// A text as it stands inside of a JSON string.
pub open spec fn escaped(s: Seq<char>, escaping: Escaping) -> Seq<char>
    decreases s.len(),
{
    if s.len() == 0 {
        seq![]
    } else {
        escaped(s.drop_last(), escaping) + escaped_char(s.last(), escaping)
    }
}

/// Whether a text has no carriage returns and no tabs.
pub open spec fn is_plain(s: Seq<char>) -> bool {
    !s.contains('\r') && !s.contains('\t')
}

/// Whether there are no carriage returns and no tabs among the first `n` characters.
pub open spec fn plain_up_to(s: Seq<char>, n: nat) -> bool
    decreases n,
{
    n == 0 || (s[n - 1] != '\r' && s[n - 1] != '\t' && plain_up_to(s, (n - 1) as nat))
}

/// A text is plain where all its characters are.
pub proof fn lemma_plain_to_the_end(s: Seq<char>)
    requires
        plain_up_to(s, s.len()),
    ensures
        is_plain(s),
{
    assert forall|i: int| 0 <= i < s.len() implies s[i] != '\r' && s[i] != '\t' by {
        lemma_plain_at(s, s.len(), i);
    }
}

proof fn lemma_plain_at(s: Seq<char>, n: nat, i: int)
    requires
        plain_up_to(s, n),
        0 <= i < n,
    ensures
        s[i] != '\r',
        s[i] != '\t',
    decreases n,
{
    if i < n - 1 {
        lemma_plain_at(s, (n - 1) as nat, i);
    }
}

/// Plain texts one after the other are plain.
pub proof fn lemma_plain_joined(a: Seq<char>, b: Seq<char>)
    requires
        is_plain(a),
        is_plain(b),
    ensures
        is_plain(a + b),
{
    assert forall|c: char| #[trigger] (a + b).contains(c) implies a.contains(c) || b.contains(
        c,
    ) by {
        let i = choose|i: int| 0 <= i < (a + b).len() && (a + b)[i] == c;
        if i < a.len() {
            assert(a[i] == c);
        } else {
            assert(b[i - a.len()] == c);
        }
    }
}

/// Whether descriptions and queries are plain.
pub open spec fn are_plain(pairs: Seq<(Seq<char>, Seq<char>)>) -> bool {
    forall|i: int|
        0 <= i < pairs.len() ==> is_plain((#[trigger] pairs[i]).0) && is_plain(pairs[i].1)
}

/// A text as a JSON string.
pub open spec fn quoted(s: Seq<char>, escaping: Escaping) -> Seq<char> {
    seq!['"'] + escaped(s, escaping) + seq!['"']
}

fn push_hex_digit(out: &mut String, d: u8)
    requires
        d < 16,
    ensures
        final(out)@ == old(out)@.push(hex_digit(d as nat)),
{
    if d < 10 {
        out.push((48 + d) as char);
    } else {
        out.push((87 + d) as char);
    }
}

/// Appends a character as it stands inside of a JSON string.
fn push_escaped(out: &mut String, c: char, escaping: Escaping)
    ensures
        final(out)@ == old(out)@ + escaped_char(c, escaping),
{
    let ghost before = out@;
    let layout = matches!(escaping, Escaping::Layout);
    if c == '\\' || c == '"' {
        out.push('\\');
        out.push(c);
    } else if c == '\r' && layout {
    } else if c == '\t' && layout {
        out.push(' ');
    } else if c == '\n' {
        out.push('\\');
        out.push('n');
    } else if c == '\r' {
        out.push('\\');
        out.push('r');
    } else if c == '\t' {
        out.push('\\');
        out.push('t');
    } else if (c as u32) < 0x20 {
        let u: u8 = c as u8;
        out.push('\\');
        out.push('u');
        out.push('0');
        out.push('0');
        push_hex_digit(out, u / 16);
        push_hex_digit(out, u % 16);
    } else {
        out.push(c);
    }
    assert(out@ =~= before + escaped_char(c, escaping));
}

/// Appends a text as a JSON string.
pub fn push_quoted(out: &mut String, s: &str, escaping: Escaping)
    ensures
        final(out)@ == old(out)@ + quoted(s@, escaping),
{
    let ghost before = out@;
    out.push('"');
    let chars = text::chars_of(s);
    assert(out@ =~= before + seq!['"'] + escaped(s@.take(0), escaping));
    for i in 0..chars.len()
        invariant
            chars@ == s@,
            out@ == before + seq!['"'] + escaped(s@.take(i as int), escaping),
    {
        push_escaped(out, chars[i], escaping);
        assert(s@.take(i + 1).drop_last() =~= s@.take(i as int));
        assert(out@ =~= before + seq!['"'] + escaped(s@.take(i + 1), escaping));
    }
    assert(s@.take(s@.len() as int) =~= s@);
    out.push('"');
    assert(out@ =~= before + quoted(s@, escaping));
}

/// Texts one after the other, with commas between them.
pub open spec fn comma_separated(items: Seq<Seq<char>>) -> Seq<char>
    decreases items.len(),
{
    if items.len() == 0 {
        seq![]
    } else if items.len() == 1 {
        items[0]
    } else {
        comma_separated(items.drop_last()) + seq![','] + items.last()
    }
}

/// A JSON array of items that are JSON already.
pub open spec fn json_array(items: Seq<Seq<char>>) -> Seq<char> {
    seq!['['] + comma_separated(items) + seq![']']
}

/// A JSON array of items that are JSON already.
pub fn array_json(items: &Vec<String>) -> (res: String)
    ensures
        res@ == json_array(items.deep_view()),
{
    let ghost all = items.deep_view();
    let mut out = String::new();
    out.push('[');
    assert(out@ =~= seq!['['] + comma_separated(all.take(0)));
    for i in 0..items.len()
        invariant
            all == items.deep_view(),
            out@ == seq!['['] + comma_separated(all.take(i as int)),
    {
        if i > 0 {
            out.push(',');
        }
        out.append(items[i].as_str());
        assert(all.take(i + 1).drop_last() =~= all.take(i as int));
        assert(out@ =~= seq!['['] + comma_separated(all.take(i + 1)));
    }
    assert(all.take(items.len() as int) =~= all);
    out.push(']');
    assert(out@ =~= json_array(all));
    out
}

/// Whether a character is white space: the characters with the Unicode property
/// `White_Space`.
pub open spec fn is_white(c: char) -> bool {
    let u = c as u32;
    ||| 0x9 <= u <= 0xd
    ||| u == 0x20
    ||| u == 0x85
    ||| u == 0xa0
    ||| u == 0x1680
    ||| 0x2000 <= u <= 0x200a
    ||| u == 0x2028
    ||| u == 0x2029
    ||| u == 0x202f
    ||| u == 0x205f
    ||| u == 0x3000
}

fn white(c: char) -> (res: bool)
    ensures
        res == is_white(c),
{
    let u: u32 = c as u32;
    (0x9 <= u && u <= 0xd) || u == 0x20 || u == 0x85 || u == 0xa0 || u == 0x1680 || (0x2000 <= u
        && u <= 0x200a) || u == 0x2028 || u == 0x2029 || u == 0x202f || u == 0x205f || u == 0x3000
}

/// A text without the white space at its start.
pub open spec fn trimmed_start(s: Seq<char>) -> Seq<char>
    decreases s.len(),
{
    if s.len() > 0 && is_white(s.first()) {
        trimmed_start(s.drop_first())
    } else {
        s
    }
}

/// A text without the white space at its end.
pub open spec fn trimmed_end(s: Seq<char>) -> Seq<char>
    decreases s.len(),
{
    if s.len() > 0 && is_white(s.last()) {
        trimmed_end(s.drop_last())
    } else {
        s
    }
}

/// A text without the white space at its start and at its end.
pub open spec fn trimmed(s: Seq<char>) -> Seq<char> {
    trimmed_end(trimmed_start(s))
}

/// The parts of a text between its commas.
pub open spec fn split_at_commas(s: Seq<char>) -> Seq<Seq<char>>
    decreases s.len(),
{
    if s.len() == 0 {
        seq![seq![]]
    } else {
        let parts = split_at_commas(s.drop_last());
        if s.last() == ',' {
            parts.push(seq![])
        } else {
            parts.drop_last().push(parts.last().push(s.last()))
        }
    }
}

/// The texts, trimmed, without those that are empty then.
pub open spec fn trimmed_terms(parts: Seq<Seq<char>>) -> Seq<Seq<char>>
    decreases parts.len(),
{
    if parts.len() == 0 {
        seq![]
    } else {
        let terms = trimmed_terms(parts.drop_last());
        if trimmed(parts.last()).len() == 0 {
            terms
        } else {
            terms.push(trimmed(parts.last()))
        }
    }
}

/// The terms of a comma-separated list.
pub open spec fn keyword_terms(keywords: Seq<char>) -> Seq<Seq<char>> {
    trimmed_terms(split_at_commas(keywords))
}

/// Each term as a JSON string.
pub open spec fn quoted_terms(terms: Seq<Seq<char>>) -> Seq<Seq<char>> {
    Seq::new(terms.len(), |i: int| quoted(terms[i], Escaping::Exact))
}

/// The JSON array of the terms of a comma-separated list.
pub open spec fn keywords_text(keywords: Seq<char>) -> Seq<char> {
    json_array(quoted_terms(keyword_terms(keywords)))
}

/// The characters from `from` up to `to` as a text, trimmed.
fn trimmed_text(chars: &Vec<char>, from: usize, to: usize) -> (res: String)
    requires
        from <= to <= chars.len(),
    ensures
        res@ == trimmed(chars@.subrange(from as int, to as int)),
{
    let mut lo: usize = from;
    while lo < to && white(chars[lo])
        invariant
            from <= lo <= to <= chars.len(),
            trimmed_start(chars@.subrange(lo as int, to as int)) == trimmed_start(
                chars@.subrange(from as int, to as int),
            ),
        decreases to - lo,
    {
        assert(chars@.subrange(lo as int, to as int).drop_first() =~= chars@.subrange(
            lo + 1,
            to as int,
        ));
        lo += 1;
    }
    let ghost start = chars@.subrange(lo as int, to as int);
    let mut hi: usize = to;
    while hi > lo && white(chars[hi - 1])
        invariant
            lo <= hi <= to <= chars.len(),
            trimmed_end(chars@.subrange(lo as int, hi as int)) == trimmed_end(start),
        decreases hi,
    {
        assert(chars@.subrange(lo as int, hi as int).drop_last() =~= chars@.subrange(
            lo as int,
            hi - 1,
        ));
        hi -= 1;
    }
    let mut out = String::new();
    assert(out@ =~= chars@.subrange(lo as int, lo as int));
    for i in lo..hi
        invariant
            lo <= hi <= chars.len(),
            out@ == chars@.subrange(lo as int, i as int),
    {
        out.push(chars[i]);
        assert(out@ =~= chars@.subrange(lo as int, i + 1));
    }
    out
}

fn push_term(terms: &mut Vec<String>, term: String)
    ensures
        final(terms).deep_view() == (if term@.len() == 0 {
            old(terms).deep_view()
        } else {
            old(terms).deep_view().push(term@)
        }),
{
    if !term.as_str().is_empty() {
        lists::push_value(terms, term);
    }
}

/// The terms of a comma-separated list, trimmed, without empty ones.
fn split_keywords(keywords: &str) -> (res: Vec<String>)
    ensures
        res.deep_view() == keyword_terms(keywords@),
{
    let chars = text::chars_of(keywords);
    let mut terms: Vec<String> = Vec::new();
    let mut start: usize = 0;
    let ghost mut done: Seq<Seq<char>> = seq![];
    assert(terms.deep_view() =~= trimmed_terms(done));
    assert(chars@.subrange(0, 0) =~= seq![]);
    assert(split_at_commas(chars@.take(0)) =~= done.push(chars@.subrange(0, 0)));
    for i in 0..chars.len()
        invariant
            start <= i,
            terms.deep_view() == trimmed_terms(done),
            split_at_commas(chars@.take(i as int)) == done.push(
                chars@.subrange(start as int, i as int),
            ),
    {
        let ghost part = chars@.subrange(start as int, i as int);
        assert(chars@.take(i + 1).drop_last() =~= chars@.take(i as int));
        assert(done.push(part).drop_last() =~= done);
        if chars[i] == ',' {
            push_term(&mut terms, trimmed_text(&chars, start, i));
            start = i + 1;
            assert(chars@.subrange(start as int, i + 1) =~= seq![]);
            proof {
                done = done.push(part);
            }
        } else {
            assert(chars@.subrange(start as int, i + 1) =~= part.push(chars@[i as int]));
        }
    }
    let ghost part = chars@.subrange(start as int, chars@.len() as int);
    push_term(&mut terms, trimmed_text(&chars, start, chars.len()));
    assert(chars@.take(chars@.len() as int) =~= chars@);
    assert(done.push(part).drop_last() =~= done);
    terms
}

/// A comma-separated list of keywords as a JSON array of strings. Terms are trimmed, and empty
/// ones dropped: `"a, b"` becomes `["a","b"]`.
pub fn keywords_json(keywords: &str) -> (res: String)
    ensures
        res@ == keywords_text(keywords@),
{
    let terms = split_keywords(keywords);
    let mut items: Vec<String> = Vec::with_capacity(terms.len());
    let ghost all = quoted_terms(terms.deep_view());
    for i in 0..terms.len()
        invariant
            all == quoted_terms(terms.deep_view()),
            items.deep_view() == all.take(i as int),
    {
        let mut item = String::new();
        push_quoted(&mut item, terms[i].as_str(), Escaping::Exact);
        assert(item@ =~= all[i as int]);
        lists::push_value(&mut items, item);
        assert(all.take(i + 1) =~= all.take(i as int).push(all[i as int]));
    }
    assert(all.take(terms.len() as int) =~= all);
    array_json(&items)
}

/// Names and values as the members of a JSON object, all of them strings.
pub open spec fn json_members(members: Seq<(Seq<char>, Seq<char>)>, escaping: Escaping) -> Seq<
    Seq<char>,
> {
    Seq::new(
        members.len(),
        |i: int|
            quoted(members[i].0, Escaping::Exact) + seq![':'] + quoted(members[i].1, escaping),
    )
}

/// A JSON object with these members, in order.
pub open spec fn json_object(members: Seq<(Seq<char>, Seq<char>)>, escaping: Escaping) -> Seq<
    char,
> {
    seq!['{'] + comma_separated(json_members(members, escaping)) + seq!['}']
}

/// A JSON object with these members, in order.
pub fn object_json(members: &Vec<(&str, &str)>, escaping: Escaping) -> (res: String)
    ensures
        res@ == json_object(members.deep_view(), escaping),
{
    let ghost all = json_members(members.deep_view(), escaping);
    let mut out = String::new();
    out.push('{');
    assert(out@ =~= seq!['{'] + comma_separated(all.take(0)));
    for i in 0..members.len()
        invariant
            all == json_members(members.deep_view(), escaping),
            out@ == seq!['{'] + comma_separated(all.take(i as int)),
    {
        let ghost before = out@;
        if i > 0 {
            out.push(',');
        }
        let ghost separated = out@;
        let (name, value) = members[i];
        push_quoted(&mut out, name, Escaping::Exact);
        out.push(':');
        push_quoted(&mut out, value, escaping);
        assert(out@ =~= separated + all[i as int]);
        assert(all.take(i + 1).drop_last() =~= all.take(i as int));
        assert(out@ =~= seq!['{'] + comma_separated(all.take(i + 1)));
    }
    assert(all.take(members.len() as int) =~= all);
    out.push('}');
    assert(out@ =~= json_object(members.deep_view(), escaping));
    out
}

/// A described query as a JSON object.
pub open spec fn example_object(pair: (Seq<char>, Seq<char>)) -> Seq<char> {
    json_object(seq![("description"@, pair.0), ("sql"@, pair.1)], Escaping::Layout)
}

/// Described queries as a JSON array.
pub open spec fn example_queries_text(pairs: Seq<(Seq<char>, Seq<char>)>) -> Seq<char> {
    json_array(Seq::new(pairs.len(), |i: int| example_object(pairs[i])))
}

/// Descriptions and queries as a JSON array of objects with `description` and `sql`.
pub fn example_queries_json(pairs: &[(String, String)]) -> (res: String)
    ensures
        res@ == example_queries_text(pairs.deep_view()),
{
    let mut items: Vec<String> = Vec::with_capacity(pairs.len());
    let ghost all = Seq::new(pairs@.len(), |i: int| example_object(pairs.deep_view()[i]));
    for i in 0..pairs.len()
        invariant
            all == Seq::new(pairs@.len(), |i: int| example_object(pairs.deep_view()[i])),
            items.deep_view() == all.take(i as int),
    {
        let members = vec![
            ("description", pairs[i].0.as_str()),
            ("sql", pairs[i].1.as_str()),
        ];
        assert(members.deep_view() =~= seq![
            ("description"@, pairs@[i as int].0@),
            ("sql"@, pairs@[i as int].1@),
        ]);
        lists::push_value(&mut items, object_json(&members, Escaping::Layout));
        assert(all.take(i + 1) =~= all.take(i as int).push(all[i as int]));
    }
    assert(all.take(pairs.len() as int) =~= all);
    array_json(&items)
}

/// A task as a JSON object.
pub open spec fn task_object(task: (Seq<char>, Seq<char>, Seq<char>)) -> Seq<char> {
    json_object(
        seq![("name"@, task.0), ("prompt"@, task.1), ("reference_sql"@, task.2)],
        Escaping::Exact,
    )
}

/// Tasks as a JSON array.
pub open spec fn agent_test_tasks_text(tasks: Seq<(Seq<char>, Seq<char>, Seq<char>)>) -> Seq<
    char,
> {
    json_array(Seq::new(tasks.len(), |i: int| task_object(tasks[i])))
}

/// Names, prompts and reference queries of tasks as a JSON array of objects with `name`,
/// `prompt` and `reference_sql`.
pub fn agent_test_tasks_json(tasks: &[(&str, &str, &str)]) -> (res: String)
    ensures
        res@ == agent_test_tasks_text(tasks.deep_view()),
{
    let mut items: Vec<String> = Vec::with_capacity(tasks.len());
    let ghost all = Seq::new(tasks@.len(), |i: int| task_object(tasks.deep_view()[i]));
    for i in 0..tasks.len()
        invariant
            all == Seq::new(tasks@.len(), |i: int| task_object(tasks.deep_view()[i])),
            items.deep_view() == all.take(i as int),
    {
        let (name, prompt, reference_sql) = tasks[i];
        let members = vec![("name", name), ("prompt", prompt), ("reference_sql", reference_sql)];
        assert(members.deep_view() =~= seq![
            ("name"@, name@),
            ("prompt"@, prompt@),
            ("reference_sql"@, reference_sql@),
        ]);
        lists::push_value(&mut items, object_json(&members, Escaping::Exact));
        assert(all.take(i + 1) =~= all.take(i as int).push(all[i as int]));
    }
    assert(all.take(tasks.len() as int) =~= all);
    array_json(&items)
}

/// A result column as a JSON object.
pub open spec fn column_object(column: (Seq<char>, Seq<char>, Seq<char>)) -> Seq<char> {
    json_object(
        seq![("name"@, column.0), ("type"@, column.1), ("description"@, column.2)],
        Escaping::Exact,
    )
}

/// Result columns as a JSON array.
pub open spec fn result_columns_text(columns: Seq<(Seq<char>, Seq<char>, Seq<char>)>) -> Seq<
    char,
> {
    json_array(Seq::new(columns.len(), |i: int| column_object(columns[i])))
}

/// Names, types and descriptions of result columns as a JSON array of objects with `name`,
/// `type` and `description`.
pub fn result_columns_schema(columns: &[(&str, &str, &str)]) -> (res: String)
    ensures
        res@ == result_columns_text(columns.deep_view()),
{
    let mut items: Vec<String> = Vec::with_capacity(columns.len());
    let ghost all = Seq::new(columns@.len(), |i: int| column_object(columns.deep_view()[i]));
    for i in 0..columns.len()
        invariant
            all == Seq::new(columns@.len(), |i: int| column_object(columns.deep_view()[i])),
            items.deep_view() == all.take(i as int),
    {
        let (name, data_type, description) = columns[i];
        let members = vec![("name", name), ("type", data_type), ("description", description)];
        assert(members.deep_view() =~= seq![
            ("name"@, name@),
            ("type"@, data_type@),
            ("description"@, description@),
        ]);
        lists::push_value(&mut items, object_json(&members, Escaping::Exact));
        assert(all.take(i + 1) =~= all.take(i as int).push(all[i as int]));
    }
    assert(all.take(columns.len() as int) =~= all);
    array_json(&items)
}

/// An example of a call.
#[derive(Debug, Clone)]
pub struct FunctionExample {
    pub sql: String,
    pub description: String,
    pub expected_output: Option<String>,
}

/// The value of a [`FunctionExample`].
pub struct FunctionExampleView {
    pub sql: Seq<char>,
    pub description: Seq<char>,
    pub expected_output: Option<Seq<char>>,
}

impl DeepView for FunctionExample {
    type V = FunctionExampleView;

    open spec fn deep_view(&self) -> FunctionExampleView {
        FunctionExampleView {
            sql: self.sql@,
            description: self.description@,
            expected_output: self.expected_output.deep_view(),
        }
    }
}

/// What is told of a function.
#[derive(Debug, Clone)]
pub struct FunctionMetadata {
    pub description: String,
    pub examples: Vec<FunctionExample>,
    pub tags: Vec<(String, String)>,
}

/// The value of a [`FunctionMetadata`].
pub struct FunctionMetadataView {
    pub description: Seq<char>,
    pub examples: Seq<FunctionExampleView>,
    pub tags: Seq<(Seq<char>, Seq<char>)>,
}

impl DeepView for FunctionMetadata {
    type V = FunctionMetadataView;

    open spec fn deep_view(&self) -> FunctionMetadataView {
        FunctionMetadataView {
            description: self.description@,
            examples: self.examples.deep_view(),
            tags: self.tags.deep_view(),
        }
    }
}

/// Described queries as examples.
pub open spec fn examples_of(pairs: Seq<(Seq<char>, Seq<char>)>) -> Seq<FunctionExampleView> {
    Seq::new(
        pairs.len(),
        |i: int|
            FunctionExampleView {
                description: pairs[i].0,
                sql: pairs[i].1,
                expected_output: None,
            },
    )
}

/// The examples of a function, and the same examples as JSON, from one list of descriptions and
/// queries.
pub fn described_examples(pairs: Vec<(String, String)>) -> (res: (Vec<FunctionExample>, String))
    ensures
        res.0.deep_view() == examples_of(pairs.deep_view()),
        res.1@ == example_queries_text(pairs.deep_view()),
{
    let json = example_queries_json(pairs.as_slice());
    let ghost all = examples_of(pairs.deep_view());
    let mut examples: Vec<FunctionExample> = Vec::with_capacity(pairs.len());
    for i in 0..pairs.len()
        invariant
            all == examples_of(pairs.deep_view()),
            examples.deep_view() == all.take(i as int),
    {
        let example = FunctionExample {
            sql: pairs[i].1.clone(),
            description: pairs[i].0.clone(),
            expected_output: None,
        };
        lists::push_value(&mut examples, example);
        assert(all.take(i + 1) =~= all.take(i as int).push(all[i as int]));
    }
    assert(all.take(pairs.len() as int) =~= all);
    (examples, json)
}

/// The description of the `file` column.
pub const FILE_DESCRIPTION: &'static str =
    "Source path the row came from (NULL when the profile was passed as inline BLOB bytes).";

/// The description of the `error` column.
pub const ERROR_DESCRIPTION: &'static str =
    "NULL on success; otherwise this is an error row for a file that could not be read or \
     decoded, with every data column NULL and the failure message here.";

/// The two columns at the end of every table, by name, type and description.
pub open spec fn trailing_columns() -> Seq<(Seq<char>, Seq<char>, Seq<char>)> {
    seq![
        ("file"@, "VARCHAR"@, FILE_DESCRIPTION@),
        ("error"@, "VARCHAR"@, ERROR_DESCRIPTION@),
    ]
}

/// The two columns at the end of every table, by name, type and description.
pub fn trailing_result_columns() -> (res: [(&'static str, &'static str, &'static str); 2])
    ensures
        res.deep_view() == trailing_columns(),
{
    let columns = [
        ("file", "VARCHAR", FILE_DESCRIPTION),
        ("error", "VARCHAR", ERROR_DESCRIPTION),
    ];
    assert(columns.deep_view() =~= trailing_columns());
    columns
}

/// The tags that describe an object.
pub open spec fn object_tag_list(
    title: Seq<char>,
    description_llm: Seq<char>,
    description_md: Seq<char>,
    keywords: Seq<char>,
    category: Seq<char>,
) -> Seq<(Seq<char>, Seq<char>)> {
    seq![
        ("vgi.title"@, title),
        ("vgi.doc_llm"@, description_llm),
        ("vgi.doc_md"@, description_md),
        ("vgi.keywords"@, keywords_text(keywords)),
        ("vgi.category"@, category),
    ]
}

/// A tag.
pub fn tag(key: &str, value: &str) -> (res: (String, String))
    ensures
        res.deep_view() == (key@, value@),
{
    (key.to_owned(), value.to_owned())
}

/// The tags that describe an object: its title, what it is for a model and for a reader, its
/// keywords as a JSON array, and the category it is listed under.
pub fn object_tags(
    title: &str,
    description_llm: &str,
    description_md: &str,
    keywords: &str,
    category: &str,
) -> (res: Vec<(String, String)>)
    ensures
        res.deep_view() == object_tag_list(
            title@,
            description_llm@,
            description_md@,
            keywords@,
            category@,
        ),
{
    let tags = vec![
        tag("vgi.title", title),
        tag("vgi.doc_llm", description_llm),
        tag("vgi.doc_md", description_md),
        ("vgi.keywords".to_owned(), keywords_json(keywords)),
        tag("vgi.category", category),
    ];
    assert(tags.deep_view() =~= object_tag_list(
        title@,
        description_llm@,
        description_md@,
        keywords@,
        category@,
    ));
    tags
}

/// Base64 of a small Go CPU profile: `value[1]` is samples/count, `value[2]` cpu/nanoseconds.
pub const GO_CPU_B64: &'static str = "H4sIAAAAAAAA/yzQPU7rQBAH8Lcfjidr63kUIbAokOXKchFLW3EECgpqKoyJQkTiXWUT0U7HBRAtCCGgocgN0nMFKigouATaFc1/Zn4z1SgJDLmSIFCOUiUEZ3iAdPPyf5SA30W4vdvwfQSGRMRzoi2vokNWZsCQ5fRAvPR3aZkB9/AYgONumYHw8BRAYF1mID08B5AY1woYDvJBEVeqVsARciiG1U6tQKDKVTGsqlqBxCRPirSK9D8du3Zh5xOno86s+5UWnV3rpG974yad6S+cHjVrt2zmpmvnzfmsb1pr9XDRzvqxDx2Hdmr+7Nosr3Ts01sa7NKsjo2xWoXJtks30RDKeGqOiF43X/ff73sndPvzIU7D687o7VNa8RsAAP//CRIJN04BAAA=";

/// Base64 of a small Go heap profile with four sample types.
pub const GO_HEAP_B64: &'static str = "H4sIAAAAAAAA/zyMMU6EQBSGndlh9+0A+rKJES0MUhEKSV4sLI2VZ7DRAUeDIhCBwu7dRGNl6w3sPYaF1zAMxmbyzf++fFqBQKkVLFBpBZ7jJarNNkgQG7hhPkuZ9w8QBDKzjJg/Zbo6FckOCBQRv7JMpkiQ7IKchjc3LPAkUSDxKNMgECKI16nONEjUkY799DDTsMAgCmI/Jdqi0NR1W161xb0th568sh2bgfx57TtTWvKK58H2FFbN2Nt/05+/s7LJx/4pr9vS1HlRNbnpOlo/mqo5nh5aObxrKXTg4mawBI6mQ/AnP9jz8ZY8V71gfv/4fvn52rtUEKK6Zo675W8AAAD//wt6pw46AQAA";

/// The profile in base64 has no carriage returns and no tabs.
pub proof fn lemma_go_heap_is_plain()
    ensures
        is_plain(GO_HEAP_B64@),
{
    reveal_strlit("H4sIAAAAAAAA/zyMMU6EQBSGndlh9+0A+rKJES0MUhEKSV4sLI2VZ7DRAUeDIhCBwu7dRGNl6w3sPYaF1zAMxmbyzf++fFqBQKkVLFBpBZ7jJarNNkgQG7hhPkuZ9w8QBDKzjJg/Zbo6FckOCBQRv7JMpkiQ7IKchjc3LPAkUSDxKNMgECKI16nONEjUkY799DDTsMAgCmI/Jdqi0NR1W161xb0th568sh2bgfx57TtTWvKK58H2FFbN2Nt/05+/s7LJx/4pr9vS1HlRNbnpOlo/mqo5nh5aObxrKXTg4mawBI6mQ/AnP9jz8ZY8V71gfv/4fvn52rtUEKK6Zo675W8AAAD//wt6pw46AQAA");
    reveal_with_fuel(plain_up_to, 26);
    assert(plain_up_to(GO_HEAP_B64@, 25));
    assert(plain_up_to(GO_HEAP_B64@, 50));
    assert(plain_up_to(GO_HEAP_B64@, 75));
    assert(plain_up_to(GO_HEAP_B64@, 100));
    assert(plain_up_to(GO_HEAP_B64@, 125));
    assert(plain_up_to(GO_HEAP_B64@, 150));
    assert(plain_up_to(GO_HEAP_B64@, 175));
    assert(plain_up_to(GO_HEAP_B64@, 200));
    assert(plain_up_to(GO_HEAP_B64@, 225));
    assert(plain_up_to(GO_HEAP_B64@, 250));
    assert(plain_up_to(GO_HEAP_B64@, 275));
    assert(plain_up_to(GO_HEAP_B64@, 300));
    assert(plain_up_to(GO_HEAP_B64@, 325));
    assert(plain_up_to(GO_HEAP_B64@, 350));
    assert(plain_up_to(GO_HEAP_B64@, 360));
    lemma_plain_to_the_end(GO_HEAP_B64@);
}

/// Base64 of a small unsymbolized native profile whose mappings carry build ids.
pub const NATIVE_B64: &'static str = "H4sIAAAAAAAA/+Ji4WAUYOJi4WAWYBHi5mDkYBLgEWiYM8dSiJuDmYNRgF2gYfcGRSkhDkaBhoaGFawSDQ0tK1g1WA3YpMQ4mEBiDQ0P5CUaGg6AaA12Aw4lLg5GAUaJBR0NK1iVeDiYBJgktiwBq1Li4mAWYJRYPbFhBasRgxF7cWJuQU5qsRFrcn5pXokRc3JBqRF3XmJefnFqcn5eSrGRgH5+QYl+cVmyflJmHog24kk0TDJKNk4xSTVNMzOS18/JTNKvsDCLNzPRzcnMK63QTc8rBQkm6xXn65kZ8aSkJqYkpaamJSempXo0NKzY+Hj+89PiAQ2ntr5jjAJ7OqFh7SOWAgZAAAAA//9plBkzCAEAAA==";

/// The profile in base64 has no carriage returns and no tabs.
pub proof fn lemma_native_is_plain()
    ensures
        is_plain(NATIVE_B64@),
{
    reveal_strlit("H4sIAAAAAAAA/+Ji4WAUYOJi4WAWYBHi5mDkYBLgEWiYM8dSiJuDmYNRgF2gYfcGRSkhDkaBhoaGFawSDQ0tK1g1WA3YpMQ4mEBiDQ0P5CUaGg6AaA12Aw4lLg5GAUaJBR0NK1iVeDiYBJgktiwBq1Li4mAWYJRYPbFhBasRgxF7cWJuQU5qsRFrcn5pXokRc3JBqRF3XmJefnFqcn5eSrGRgH5+QYl+cVmyflJmHog24kk0TDJKNk4xSTVNMzOS18/JTNKvsDCLNzPRzcnMK63QTc8rBQkm6xXn65kZ8aSkJqYkpaamJSempXo0NKzY+Hj+89PiAQ2ntr5jjAJ7OqFh7SOWAgZAAAAA//9plBkzCAEAAA==");
    reveal_with_fuel(plain_up_to, 26);
    assert(plain_up_to(NATIVE_B64@, 25));
    assert(plain_up_to(NATIVE_B64@, 50));
    assert(plain_up_to(NATIVE_B64@, 75));
    assert(plain_up_to(NATIVE_B64@, 100));
    assert(plain_up_to(NATIVE_B64@, 125));
    assert(plain_up_to(NATIVE_B64@, 150));
    assert(plain_up_to(NATIVE_B64@, 175));
    assert(plain_up_to(NATIVE_B64@, 200));
    assert(plain_up_to(NATIVE_B64@, 225));
    assert(plain_up_to(NATIVE_B64@, 250));
    assert(plain_up_to(NATIVE_B64@, 275));
    assert(plain_up_to(NATIVE_B64@, 300));
    assert(plain_up_to(NATIVE_B64@, 325));
    assert(plain_up_to(NATIVE_B64@, 350));
    assert(plain_up_to(NATIVE_B64@, 372));
    lemma_plain_to_the_end(NATIVE_B64@);
}

} // verus!
