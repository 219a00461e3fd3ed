//! Laws of the JSON texts, over the functions of [`crate::meta`]: what is written can be read
//! back.

use vstd::prelude::*;

use crate::catalog;
use crate::meta;
use crate::meta::Escaping;

verus! {

/// The character that a backslash and one more character stand for in JSON.
pub open spec fn unescaped_char(c: char) -> Option<char> {
    if c == '\\' || c == '"' || c == '/' {
        Some(c)
    } else if c == 'b' {
        Some('\u{8}')
    } else if c == 'f' {
        Some('\u{c}')
    } else if c == 'n' {
        Some('\n')
    } else if c == 'r' {
        Some('\r')
    } else if c == 't' {
        Some('\t')
    } else {
        None
    }
}

/// The value of a hexadecimal digit.
pub open spec fn hex_value(c: char) -> Option<int> {
    if '0' <= c <= '9' {
        Some(c as int - 48)
    } else if 'a' <= c <= 'f' {
        Some(c as int - 87)
    } else if 'A' <= c <= 'F' {
        Some(c as int - 55)
    } else {
        None
    }
}

/// The character whose number four hexadecimal digits give. Half of a surrogate pair is none.
pub open spec fn numbered_char(s: Seq<char>) -> Option<char> {
    match (hex_value(s[0]), hex_value(s[1]), hex_value(s[2]), hex_value(s[3])) {
        (Some(a), Some(b), Some(c), Some(d)) => {
            let number = 4096 * a + 256 * b + 16 * c + d;
            if 0xd800 <= number < 0xe000 {
                None
            } else {
                Some(number as char)
            }
        },
        _ => None,
    }
}

/// Reads an escape, behind its backslash: the character, and what follows it.
pub open spec fn read_escape(s: Seq<char>) -> Option<(char, Seq<char>)> {
    if s.len() == 0 {
        None
    } else if s[0] != 'u' {
        match unescaped_char(s[0]) {
            Some(c) => Some((c, s.skip(1))),
            None => None,
        }
    } else if s.len() < 5 {
        None
    } else {
        match numbered_char(s.skip(1)) {
            Some(c) => Some((c, s.skip(5))),
            None => None,
        }
    }
}

/// Reads the rest of a JSON string, behind its opening quote: the text, and what follows the
/// closing quote. A control character may not stand there as it is. All that it reads is JSON;
/// of JSON it leaves out the surrogate pairs.
pub open spec fn read_string_rest(s: Seq<char>) -> Option<(Seq<char>, Seq<char>)>
    decreases s.len(),
{
    if s.len() == 0 || (s[0] as u32) < 0x20 {
        None
    } else if s[0] == '"' {
        Some((seq![], s.skip(1)))
    } else if s[0] == '\\' {
        match read_escape(s.skip(1)) {
            Some((c, end)) => match read_string_rest(end) {
                Some((text, rest)) => Some((seq![c] + text, rest)),
                None => None,
            },
            None => None,
        }
    } else {
        match read_string_rest(s.skip(1)) {
            Some((text, rest)) => Some((seq![s[0]] + text, rest)),
            None => None,
        }
    }
}

/// Reads a JSON string.
pub open spec fn read_string(s: Seq<char>) -> Option<(Seq<char>, Seq<char>)> {
    if s.len() > 0 && s[0] == '"' {
        read_string_rest(s.skip(1))
    } else {
        None
    }
}

/// What is kept of a text: [`Escaping::Layout`] drops carriage returns and makes tabs into
/// spaces.
pub open spec fn kept(s: Seq<char>, escaping: Escaping) -> Seq<char>
    decreases s.len(),
{
    if s.len() == 0 {
        seq![]
    } else {
        let rest = kept(s.drop_first(), escaping);
        if s[0] == '\r' && escaping is Layout {
            rest
        } else if s[0] == '\t' && escaping is Layout {
            seq![' '] + rest
        } else {
            seq![s[0]] + rest
        }
    }
}

proof fn lemma_escaped_front(s: Seq<char>, escaping: Escaping)
    requires
        s.len() > 0,
    ensures
        meta::escaped(s, escaping) == meta::escaped_char(s[0], escaping) + meta::escaped(
            s.drop_first(),
            escaping,
        ),
    decreases s.len(),
{
    if s.len() == 1 {
        assert(s.drop_last() =~= seq![]);
        assert(s.drop_first() =~= seq![]);
        assert(meta::escaped(s, escaping) =~= meta::escaped_char(s[0], escaping) + meta::escaped(
            s.drop_first(),
            escaping,
        ));
    } else {
        lemma_escaped_front(s.drop_last(), escaping);
        assert(s.drop_first().drop_last() =~= s.drop_last().drop_first());
        assert(meta::escaped(s, escaping) =~= meta::escaped_char(s[0], escaping) + meta::escaped(
            s.drop_first(),
            escaping,
        ));
    }
}

/// Reading an escape gives the character that it was written for.
proof fn lemma_escape_reads_back(c: char, escaping: Escaping, rest: Seq<char>)
    requires
        meta::escaped_char(c, escaping).len() > 1,
    ensures
        (meta::escaped_char(c, escaping) + rest)[0] == '\\',
        read_escape((meta::escaped_char(c, escaping) + rest).skip(1)) == Some((c, rest)),
{
    let head = meta::escaped_char(c, escaping);
    let behind = (head + rest).skip(1);
    if head.len() == 2 {
        assert(behind.skip(1) =~= rest);
    } else {
        assert(behind.skip(5) =~= rest);
        assert(numbered_char(behind.skip(1)) == Some(c));
    }
}

proof fn lemma_string_rest_reads_back(s: Seq<char>, escaping: Escaping, rest: Seq<char>)
    ensures
        read_string_rest(meta::escaped(s, escaping) + seq!['"'] + rest) == Some(
            (kept(s, escaping), rest),
        ),
    decreases s.len(),
{
    let written = meta::escaped(s, escaping) + seq!['"'] + rest;
    if s.len() == 0 {
        assert(written =~= seq!['"'] + rest);
        assert(written.skip(1) =~= rest);
    } else {
        let tail = meta::escaped(s.drop_first(), escaping) + seq!['"'] + rest;
        lemma_string_rest_reads_back(s.drop_first(), escaping, rest);
        lemma_escaped_front(s, escaping);
        let head = meta::escaped_char(s[0], escaping);
        assert(written =~= head + tail);
        if head.len() > 1 {
            lemma_escape_reads_back(s[0], escaping, tail);
        } else if head.len() == 1 {
            assert(written.skip(1) =~= tail);
        } else {
            assert(written =~= tail);
        }
    }
}

/// What is written for a text is a JSON string, whatever characters the text has. Reading it gives
/// what is kept of the text, and leaves what follows it: no text ends its string early.
pub proof fn law_strings_read_back(s: Seq<char>, escaping: Escaping, rest: Seq<char>)
    ensures
        read_string(meta::quoted(s, escaping) + rest) == Some((kept(s, escaping), rest)),
{
    let written = meta::quoted(s, escaping) + rest;
    assert(written.skip(1) =~= meta::escaped(s, escaping) + seq!['"'] + rest);
    lemma_string_rest_reads_back(s, escaping, rest);
}

/// Escaping keeps every text as it is, except that [`Escaping::Layout`] changes carriage returns
/// and tabs.
pub proof fn law_escaping_keeps_the_text(s: Seq<char>, escaping: Escaping)
    requires
        escaping is Layout ==> !s.contains('\r') && !s.contains('\t'),
    ensures
        kept(s, escaping) == s,
    decreases s.len(),
{
    if s.len() > 0 {
        let tail = s.drop_first();
        assert forall|c: char| #[trigger] tail.contains(c) implies s.contains(c) by {
            let i = choose|i: int| 0 <= i < tail.len() && tail[i] == c;
            assert(s[i + 1] == c);
        }
        assert(s.contains(s[0]));
        law_escaping_keeps_the_text(tail, escaping);
        assert(kept(s, escaping) =~= s);
    } else {
        assert(kept(s, escaping) =~= s);
    }
}

/// Reads elements with commas between them, up to a closing character.
pub open spec fn read_elements<A>(
    read: spec_fn(Seq<char>) -> Option<(A, Seq<char>)>,
    close: char,
    s: Seq<char>,
) -> Option<(Seq<A>, Seq<char>)>
    decreases s.len(),
{
    match read(s) {
        Some((first, rest)) => if 0 < rest.len() < s.len() {
            if rest[0] == close {
                Some((seq![first], rest.skip(1)))
            } else if rest[0] == ',' {
                match read_elements(read, close, rest.skip(1)) {
                    Some((more, end)) => Some((seq![first] + more, end)),
                    None => None,
                }
            } else {
                None
            }
        } else {
            None
        },
        None => None,
    }
}

/// Reads elements between an opening and a closing character, with commas between them.
pub open spec fn read_enclosed<A>(
    read: spec_fn(Seq<char>) -> Option<(A, Seq<char>)>,
    open: char,
    close: char,
    s: Seq<char>,
) -> Option<(Seq<A>, Seq<char>)> {
    if s.len() < 2 || s[0] != open {
        None
    } else if s[1] == close {
        Some((seq![], s.skip(2)))
    } else {
        read_elements(read, close, s.skip(1))
    }
}

proof fn lemma_comma_separated_front(items: Seq<Seq<char>>)
    requires
        items.len() > 1,
    ensures
        meta::comma_separated(items) == items[0] + seq![','] + meta::comma_separated(
            items.drop_first(),
        ),
    decreases items.len(),
{
    if items.len() == 2 {
        assert(items.drop_last() =~= seq![items[0]]);
        assert(items.drop_first() =~= seq![items[1]]);
        assert(meta::comma_separated(items.drop_last()) == items[0]);
        assert(meta::comma_separated(items.drop_first()) == items[1]);
    } else {
        lemma_comma_separated_front(items.drop_last());
        assert(items.drop_first().drop_last() =~= items.drop_last().drop_first());
        assert(meta::comma_separated(items) =~= items[0] + seq![','] + meta::comma_separated(
            items.drop_first(),
        ));
    }
}

/// Whether reading a text gives a value, whatever follows the text.
pub open spec fn reads_as<A>(
    read: spec_fn(Seq<char>) -> Option<(A, Seq<char>)>,
    text: Seq<char>,
    value: A,
) -> bool {
    forall|rest: Seq<char>| #[trigger] read(text + rest) == Some((value, rest))
}

proof fn lemma_elements_read_back<A>(
    read: spec_fn(Seq<char>) -> Option<(A, Seq<char>)>,
    close: char,
    texts: Seq<Seq<char>>,
    values: Seq<A>,
    rest: Seq<char>,
)
    requires
        close != ',',
        texts.len() == values.len(),
        texts.len() > 0,
        forall|i: int|
            0 <= i < texts.len() ==> (#[trigger] texts[i]).len() > 0 && reads_as(
                read,
                texts[i],
                values[i],
            ),
    ensures
        read_elements(read, close, meta::comma_separated(texts) + seq![close] + rest) == Some(
            (values, rest),
        ),
    decreases texts.len(),
{
    let s = meta::comma_separated(texts) + seq![close] + rest;
    assert(reads_as(read, texts[0], values[0]));
    if texts.len() == 1 {
        let tail = seq![close] + rest;
        assert(s =~= texts[0] + tail);
        assert(read(texts[0] + tail) == Some((values[0], tail)));
        assert(tail.skip(1) =~= rest);
        assert(seq![values[0]] =~= values);
    } else {
        let next = meta::comma_separated(texts.drop_first()) + seq![close] + rest;
        let tail = seq![','] + next;
        lemma_comma_separated_front(texts);
        assert(s =~= texts[0] + tail);
        assert(read(texts[0] + tail) == Some((values[0], tail)));
        assert(tail.skip(1) =~= next);
        assert forall|i: int| 0 <= i < texts.drop_first().len() implies (
        #[trigger] texts.drop_first()[i]).len() > 0 && reads_as(
            read,
            texts.drop_first()[i],
            values.drop_first()[i],
        ) by {
            assert(texts[i + 1].len() > 0);
        }
        lemma_elements_read_back(read, close, texts.drop_first(), values.drop_first(), rest);
        assert(seq![values[0]] + values.drop_first() =~= values);
    }
}

/// Elements that read back one by one read back together.
proof fn lemma_enclosed_reads_back<A>(
    read: spec_fn(Seq<char>) -> Option<(A, Seq<char>)>,
    open: char,
    close: char,
    texts: Seq<Seq<char>>,
    values: Seq<A>,
    rest: Seq<char>,
)
    requires
        close != ',',
        texts.len() == values.len(),
        forall|i: int|
            0 <= i < texts.len() ==> (#[trigger] texts[i]).len() > 0 && texts[i][0] != close
                && reads_as(read, texts[i], values[i]),
    ensures
        read_enclosed(
            read,
            open,
            close,
            seq![open] + meta::comma_separated(texts) + seq![close] + rest,
        ) == Some((values, rest)),
{
    let s = seq![open] + meta::comma_separated(texts) + seq![close] + rest;
    if texts.len() == 0 {
        assert(s.skip(2) =~= rest);
        assert(values =~= seq![]);
    } else {
        let inner = meta::comma_separated(texts) + seq![close] + rest;
        assert(s.skip(1) =~= inner);
        assert(texts[0].len() > 0);
        if texts.len() > 1 {
            lemma_comma_separated_front(texts);
        }
        assert(inner[0] == texts[0][0]);
        lemma_elements_read_back(read, close, texts, values, rest);
    }
}

/// Reads a JSON array of strings.
pub open spec fn read_strings(s: Seq<char>) -> Option<(Seq<Seq<char>>, Seq<char>)> {
    read_enclosed(|t: Seq<char>| read_string(t), '[', ']', s)
}

/// Keywords are a JSON array that holds the terms of the list: trimmed, and without empty ones.
pub proof fn law_keywords_read_back(keywords: Seq<char>)
    ensures
        read_strings(meta::keywords_text(keywords)) == Some(
            (meta::keyword_terms(keywords), Seq::<char>::empty()),
        ),
{
    let read = |t: Seq<char>| read_string(t);
    let terms = meta::keyword_terms(keywords);
    let texts = meta::quoted_terms(terms);
    assert forall|i: int| 0 <= i < texts.len() implies (#[trigger] texts[i]).len() > 0
        && texts[i][0] != ']' && reads_as(read, texts[i], terms[i]) by {
        assert forall|rest: Seq<char>| #[trigger] read(texts[i] + rest) == Some(
            (terms[i], rest),
        ) by {
            law_strings_read_back(terms[i], Escaping::Exact, rest);
            law_escaping_keeps_the_text(terms[i], Escaping::Exact);
        }
    }
    lemma_enclosed_reads_back(read, '[', ']', texts, terms, seq![]);
    assert(meta::keywords_text(keywords) + Seq::<char>::empty() =~= meta::keywords_text(keywords));
}

/// A term is never empty, and has no white space at its ends.
pub proof fn law_terms_are_trimmed(keywords: Seq<char>, i: int)
    requires
        0 <= i < meta::keyword_terms(keywords).len(),
    ensures
        meta::keyword_terms(keywords)[i].len() > 0,
        !meta::is_white(meta::keyword_terms(keywords)[i].first()),
        !meta::is_white(meta::keyword_terms(keywords)[i].last()),
{
    lemma_terms_are_trimmed(meta::split_at_commas(keywords), i);
}

proof fn lemma_trimmed_start(s: Seq<char>)
    ensures
        meta::trimmed_start(s).len() > 0 ==> !meta::is_white(meta::trimmed_start(s).first()),
    decreases s.len(),
{
    if s.len() > 0 && meta::is_white(s.first()) {
        lemma_trimmed_start(s.drop_first());
    }
}

proof fn lemma_trimmed_end(s: Seq<char>)
    ensures
        meta::trimmed_end(s).len() > 0 ==> !meta::is_white(meta::trimmed_end(s).last())
            && meta::trimmed_end(s).first() == s.first(),
    decreases s.len(),
{
    if s.len() > 0 && meta::is_white(s.last()) {
        lemma_trimmed_end(s.drop_last());
        if s.len() == 1 {
            assert(s.drop_last().len() == 0);
        }
    }
}

proof fn lemma_terms_are_trimmed(parts: Seq<Seq<char>>, i: int)
    requires
        0 <= i < meta::trimmed_terms(parts).len(),
    ensures
        meta::trimmed_terms(parts)[i].len() > 0,
        !meta::is_white(meta::trimmed_terms(parts)[i].first()),
        !meta::is_white(meta::trimmed_terms(parts)[i].last()),
    decreases parts.len(),
{
    if i < meta::trimmed_terms(parts.drop_last()).len() {
        lemma_terms_are_trimmed(parts.drop_last(), i);
    } else {
        lemma_trimmed_start(parts.last());
        lemma_trimmed_end(meta::trimmed_start(parts.last()));
    }
}

/// Reads a member of a JSON object whose value is a string.
pub open spec fn read_member(s: Seq<char>) -> Option<((Seq<char>, Seq<char>), Seq<char>)> {
    match read_string(s) {
        Some((name, rest)) => if rest.len() > 0 && rest[0] == ':' {
            match read_string(rest.skip(1)) {
                Some((value, end)) => Some(((name, value), end)),
                None => None,
            }
        } else {
            None
        },
        None => None,
    }
}

/// Reads a JSON object whose values are strings.
pub open spec fn read_object(s: Seq<char>) -> Option<(Seq<(Seq<char>, Seq<char>)>, Seq<char>)> {
    read_enclosed(|t: Seq<char>| read_member(t), '{', '}', s)
}

/// Reads a JSON array of objects whose values are strings.
pub open spec fn read_objects(s: Seq<char>) -> Option<
    (Seq<Seq<(Seq<char>, Seq<char>)>>, Seq<char>),
> {
    read_enclosed(|t: Seq<char>| read_object(t), '[', ']', s)
}

/// What is kept of the members of an object: their names, and what is kept of their values.
pub open spec fn kept_members(
    members: Seq<(Seq<char>, Seq<char>)>,
    escaping: Escaping,
) -> Seq<(Seq<char>, Seq<char>)> {
    Seq::new(members.len(), |i: int| (members[i].0, kept(members[i].1, escaping)))
}

proof fn lemma_member_reads_back(
    name: Seq<char>,
    value: Seq<char>,
    escaping: Escaping,
    end: Seq<char>,
)
    ensures
        read_member(
            meta::quoted(name, Escaping::Exact) + seq![':'] + meta::quoted(value, escaping) + end,
        ) == Some(((name, kept(value, escaping)), end)),
{
    let tail = seq![':'] + meta::quoted(value, escaping) + end;
    assert(meta::quoted(name, Escaping::Exact) + seq![':'] + meta::quoted(value, escaping) + end
        =~= meta::quoted(name, Escaping::Exact) + tail);
    law_strings_read_back(name, Escaping::Exact, tail);
    law_escaping_keeps_the_text(name, Escaping::Exact);
    assert(tail.skip(1) =~= meta::quoted(value, escaping) + end);
    law_strings_read_back(value, escaping, end);
}

/// Reading a written JSON object gives its members, and leaves what follows it.
#[verifier::spinoff_prover]
pub proof fn law_objects_read_back(
    members: Seq<(Seq<char>, Seq<char>)>,
    escaping: Escaping,
    rest: Seq<char>,
)
    ensures
        read_object(meta::json_object(members, escaping) + rest) == Some(
            (kept_members(members, escaping), rest),
        ),
{
    let read = |t: Seq<char>| read_member(t);
    let texts = meta::json_members(members, escaping);
    let values = kept_members(members, escaping);
    assert forall|i: int| 0 <= i < texts.len() implies (#[trigger] texts[i]).len() > 0
        && texts[i][0] != '}' && reads_as(read, texts[i], values[i]) by {
        assert forall|end: Seq<char>| #[trigger] read(texts[i] + end) == Some(
            (values[i], end),
        ) by {
            lemma_member_reads_back(members[i].0, members[i].1, escaping, end);
        }
    }
    lemma_enclosed_reads_back(read, '{', '}', texts, values, rest);
}

proof fn lemma_objects_read_back(
    objects: Seq<Seq<(Seq<char>, Seq<char>)>>,
    texts: Seq<Seq<char>>,
    escaping: Escaping,
)
    requires
        objects.len() == texts.len(),
        forall|i: int|
            0 <= i < texts.len() ==> #[trigger] texts[i] == meta::json_object(objects[i], escaping),
    ensures
        read_objects(meta::json_array(texts)) == Some(
            (
                Seq::new(objects.len(), |i: int| kept_members(objects[i], escaping)),
                Seq::<char>::empty(),
            ),
        ),
{
    let read = |t: Seq<char>| read_object(t);
    let values = Seq::new(objects.len(), |i: int| kept_members(objects[i], escaping));
    assert forall|i: int| 0 <= i < texts.len() implies (#[trigger] texts[i]).len() > 0
        && texts[i][0] != ']' && reads_as(read, texts[i], values[i]) by {
        assert forall|rest: Seq<char>| #[trigger] read(texts[i] + rest) == Some(
            (values[i], rest),
        ) by {
            law_objects_read_back(objects[i], escaping, rest);
        }
    }
    lemma_enclosed_reads_back(read, '[', ']', texts, values, seq![]);
    assert(meta::json_array(texts) + Seq::<char>::empty() =~= meta::json_array(texts));
}

/// Example queries are a JSON array that holds each description and each query, in order, with
/// carriage returns dropped and tabs made into spaces.
pub proof fn law_example_queries_read_back(pairs: Seq<(Seq<char>, Seq<char>)>)
    ensures
        read_objects(meta::example_queries_text(pairs)) == Some(
            (
                Seq::new(
                    pairs.len(),
                    |i: int|
                        kept_members(
                            seq![("description"@, pairs[i].0), ("sql"@, pairs[i].1)],
                            Escaping::Layout,
                        ),
                ),
                Seq::<char>::empty(),
            ),
        ),
{
    let objects = Seq::new(
        pairs.len(),
        |i: int| seq![("description"@, pairs[i].0), ("sql"@, pairs[i].1)],
    );
    let texts = Seq::new(pairs.len(), |i: int| meta::example_object(pairs[i]));
    lemma_objects_read_back(objects, texts, Escaping::Layout);
    assert(Seq::new(objects.len(), |i: int| kept_members(objects[i], Escaping::Layout))
        =~= Seq::new(
        pairs.len(),
        |i: int|
            kept_members(
                seq![("description"@, pairs[i].0), ("sql"@, pairs[i].1)],
                Escaping::Layout,
            ),
    ));
}

/// Result columns are a JSON array that holds the name, the type and the description of each
/// column, in order.
pub proof fn law_result_columns_read_back(columns: Seq<(Seq<char>, Seq<char>, Seq<char>)>)
    ensures
        read_objects(meta::result_columns_text(columns)) == Some(
            (
                Seq::new(
                    columns.len(),
                    |i: int|
                        seq![
                            ("name"@, columns[i].0),
                            ("type"@, columns[i].1),
                            ("description"@, columns[i].2),
                        ],
                ),
                Seq::<char>::empty(),
            ),
        ),
{
    let objects = Seq::new(
        columns.len(),
        |i: int|
            seq![
                ("name"@, columns[i].0),
                ("type"@, columns[i].1),
                ("description"@, columns[i].2),
            ],
    );
    let texts = Seq::new(columns.len(), |i: int| meta::column_object(columns[i]));
    lemma_objects_read_back(objects, texts, Escaping::Exact);
    assert forall|i: int| 0 <= i < columns.len() implies kept_members(
        #[trigger] objects[i],
        Escaping::Exact,
    ) == objects[i] by {
        lemma_members_are_kept(objects[i], Escaping::Exact);
    }
    assert(Seq::new(objects.len(), |i: int| kept_members(objects[i], Escaping::Exact))
        =~= objects);
}

/// Tasks are a JSON array that holds the name, the prompt and the reference query of each task,
/// in order.
pub proof fn law_tasks_read_back(tasks: Seq<(Seq<char>, Seq<char>, Seq<char>)>)
    ensures
        read_objects(meta::agent_test_tasks_text(tasks)) == Some(
            (
                Seq::new(
                    tasks.len(),
                    |i: int|
                        seq![
                            ("name"@, tasks[i].0),
                            ("prompt"@, tasks[i].1),
                            ("reference_sql"@, tasks[i].2),
                        ],
                ),
                Seq::<char>::empty(),
            ),
        ),
{
    let objects = Seq::new(
        tasks.len(),
        |i: int|
            seq![("name"@, tasks[i].0), ("prompt"@, tasks[i].1), ("reference_sql"@, tasks[i].2)],
    );
    let texts = Seq::new(tasks.len(), |i: int| meta::task_object(tasks[i]));
    lemma_objects_read_back(objects, texts, Escaping::Exact);
    assert forall|i: int| 0 <= i < tasks.len() implies kept_members(
        #[trigger] objects[i],
        Escaping::Exact,
    ) == objects[i] by {
        lemma_members_are_kept(objects[i], Escaping::Exact);
    }
    assert(Seq::new(objects.len(), |i: int| kept_members(objects[i], Escaping::Exact)) =~= objects);
}

proof fn lemma_members_are_kept(members: Seq<(Seq<char>, Seq<char>)>, escaping: Escaping)
    requires
        !(escaping is Layout),
    ensures
        kept_members(members, escaping) == members,
{
    assert forall|i: int| 0 <= i < members.len() implies kept(
        (#[trigger] members[i]).1,
        escaping,
    ) == members[i].1 by {
        law_escaping_keeps_the_text(members[i].1, escaping);
    }
    assert(kept_members(members, escaping) =~= members);
}

/// The categories of the schema are a JSON array that holds the name and the description of
/// each, in order.
pub proof fn law_categories_read_back()
    ensures
        read_objects(catalog::categories_text()) == Some(
            (
                Seq::new(
                    catalog::category_list().len(),
                    |i: int|
                        seq![
                            ("name"@, catalog::category_list()[i].0),
                            ("description"@, catalog::category_list()[i].1),
                        ],
                ),
                Seq::<char>::empty(),
            ),
        ),
{
    let categories = catalog::category_list();
    let objects = Seq::new(
        categories.len(),
        |i: int| seq![("name"@, categories[i].0), ("description"@, categories[i].1)],
    );
    let texts = Seq::new(categories.len(), |i: int| catalog::category_object(categories[i]));
    lemma_objects_read_back(objects, texts, Escaping::Exact);
    assert forall|i: int| 0 <= i < categories.len() implies kept_members(
        #[trigger] objects[i],
        Escaping::Exact,
    ) == objects[i] by {
        lemma_members_are_kept(objects[i], Escaping::Exact);
    }
    assert(Seq::new(objects.len(), |i: int| kept_members(objects[i], Escaping::Exact))
        =~= objects);
}

/// Keywords are separated by commas: those of two lists with a comma between them are the
/// keywords of the first, followed by those of the second.
pub proof fn law_commas_separate_keywords(a: Seq<char>, b: Seq<char>)
    ensures
        meta::keyword_terms(a.push(',') + b) == meta::keyword_terms(a) + meta::keyword_terms(b),
{
    lemma_split_at_comma(a, b);
    lemma_terms_joined(meta::split_at_commas(a), meta::split_at_commas(b));
}

/// A text without commas is one keyword, without the white space around it.
pub proof fn law_a_keyword_is_trimmed(left: Seq<char>, word: Seq<char>, right: Seq<char>)
    requires
        forall|i: int| 0 <= i < left.len() ==> meta::is_white(#[trigger] left[i]),
        forall|i: int| 0 <= i < right.len() ==> meta::is_white(#[trigger] right[i]),
        word.len() > 0,
        !meta::is_white(word.first()),
        !meta::is_white(word.last()),
        !word.contains(','),
    ensures
        meta::keyword_terms(left + word + right) == seq![word],
{
    let s = left + word + right;
    assert forall|i: int| 0 <= i < s.len() implies #[trigger] s[i] != ',' by {
        if i < left.len() {
            assert(meta::is_white(left[i]));
        } else if i < left.len() + word.len() {
            assert(word.contains(word[i - left.len()]));
        } else {
            assert(meta::is_white(right[i - left.len() - word.len()]));
        }
    }
    lemma_one_part(s);
    assert(s =~= left + (word + right));
    lemma_trimmed_left(left, word + right);
    lemma_trimmed_right(word, right);
    assert(seq![s].drop_last() =~= seq![]);
    assert(meta::trimmed_terms(seq![s].drop_last()).len() == 0);
    assert(meta::trimmed_terms(seq![s]) =~= seq![word]);
}

/// White space alone is no keyword.
pub proof fn law_white_space_is_no_keyword(s: Seq<char>)
    requires
        forall|i: int| 0 <= i < s.len() ==> meta::is_white(#[trigger] s[i]),
    ensures
        meta::keyword_terms(s).len() == 0,
{
    assert forall|i: int| 0 <= i < s.len() implies #[trigger] s[i] != ',' by {
        assert(meta::is_white(s[i]));
    }
    lemma_one_part(s);
    lemma_trimmed_left(s, seq![]);
    assert(s + Seq::<char>::empty() =~= s);
    assert(seq![s].drop_last() =~= seq![]);
    assert(meta::trimmed_terms(seq![s].drop_last()).len() == 0);
}

proof fn lemma_parts_exist(s: Seq<char>)
    ensures
        meta::split_at_commas(s).len() > 0,
    decreases s.len(),
{
    if s.len() > 0 {
        lemma_parts_exist(s.drop_last());
    }
}

proof fn lemma_split_at_comma(a: Seq<char>, b: Seq<char>)
    ensures
        meta::split_at_commas(a.push(',') + b) == meta::split_at_commas(a)
            + meta::split_at_commas(b),
    decreases b.len(),
{
    let s = a.push(',') + b;
    let first = meta::split_at_commas(a);
    if b.len() == 0 {
        assert(s =~= a.push(','));
        assert(s.drop_last() =~= a);
        assert(meta::split_at_commas(s) =~= first + meta::split_at_commas(b));
    } else {
        let front = b.drop_last();
        lemma_split_at_comma(a, front);
        lemma_parts_exist(front);
        assert(s.drop_last() =~= a.push(',') + front);
        let parts = meta::split_at_commas(front);
        assert((first + parts).drop_last() =~= first + parts.drop_last());
        assert((first + parts).last() == parts.last());
        assert(meta::split_at_commas(s) =~= first + meta::split_at_commas(b));
    }
}

proof fn lemma_terms_joined(a: Seq<Seq<char>>, b: Seq<Seq<char>>)
    ensures
        meta::trimmed_terms(a + b) == meta::trimmed_terms(a) + meta::trimmed_terms(b),
    decreases b.len(),
{
    if b.len() == 0 {
        assert(a + b =~= a);
        assert(meta::trimmed_terms(a) + meta::trimmed_terms(b) =~= meta::trimmed_terms(a));
    } else {
        lemma_terms_joined(a, b.drop_last());
        assert((a + b).drop_last() =~= a + b.drop_last());
        assert(meta::trimmed_terms(a + b) =~= meta::trimmed_terms(a) + meta::trimmed_terms(b));
    }
}

proof fn lemma_one_part(s: Seq<char>)
    requires
        forall|i: int| 0 <= i < s.len() ==> #[trigger] s[i] != ',',
    ensures
        meta::split_at_commas(s) == seq![s],
    decreases s.len(),
{
    if s.len() == 0 {
        assert(s =~= seq![]);
    } else {
        lemma_one_part(s.drop_last());
        assert(s.drop_last().push(s.last()) =~= s);
        assert(s[s.len() - 1] != ',');
        assert(meta::split_at_commas(s) =~= seq![s]);
    }
}

proof fn lemma_trimmed_left(left: Seq<char>, rest: Seq<char>)
    requires
        forall|i: int| 0 <= i < left.len() ==> meta::is_white(#[trigger] left[i]),
        rest.len() > 0 ==> !meta::is_white(rest.first()),
    ensures
        meta::trimmed_start(left + rest) == rest,
    decreases left.len(),
{
    if left.len() == 0 {
        assert(left + rest =~= rest);
    } else {
        assert(meta::is_white(left[0]));
        lemma_trimmed_left(left.drop_first(), rest);
        assert((left + rest).drop_first() =~= left.drop_first() + rest);
    }
}

proof fn lemma_trimmed_right(word: Seq<char>, right: Seq<char>)
    requires
        forall|i: int| 0 <= i < right.len() ==> meta::is_white(#[trigger] right[i]),
        word.len() > 0,
        !meta::is_white(word.last()),
    ensures
        meta::trimmed_end(word + right) == word,
    decreases right.len(),
{
    if right.len() == 0 {
        assert(word + right =~= word);
    } else {
        assert(meta::is_white(right[right.len() - 1]));
        lemma_trimmed_right(word, right.drop_last());
        assert((word + right).drop_last() =~= word + right.drop_last());
    }
}

/// White space is the characters with the Unicode property `White_Space`.
pub proof fn law_white_space(c: char)
    ensures
        meta::is_white(c) <==> {
            ||| c == '\t'
            ||| c == '\n'
            ||| c == '\u{b}'
            ||| c == '\u{c}'
            ||| c == '\r'
            ||| c == ' '
            ||| c == '\u{85}'
            ||| c == '\u{a0}'
            ||| c == '\u{1680}'
            ||| '\u{2000}' <= c <= '\u{200a}'
            ||| c == '\u{2028}'
            ||| c == '\u{2029}'
            ||| c == '\u{202f}'
            ||| c == '\u{205f}'
            ||| c == '\u{3000}'
        },
{
}

/// The tags of an object are its title, its two descriptions, its keywords as JSON and its
/// category, each under its own key.
pub proof fn law_object_tags_are_told(
    title: Seq<char>,
    llm: Seq<char>,
    md: Seq<char>,
    keywords: Seq<char>,
    category: Seq<char>,
)
    ensures
        ({
            let tags = meta::object_tag_list(title, llm, md, keywords, category);
            &&& tags.len() == 5
            &&& tags[0] == ("vgi.title"@, title)
            &&& tags[1] == ("vgi.doc_llm"@, llm)
            &&& tags[2] == ("vgi.doc_md"@, md)
            &&& tags[3].0 == "vgi.keywords"@
            &&& read_strings(tags[3].1) == Some(
                (meta::keyword_terms(keywords), Seq::<char>::empty()),
            )
            &&& tags[4] == ("vgi.category"@, category)
        }),
{
    law_keywords_read_back(keywords);
}

/// The examples of a function are the described queries, in order, without an expected output.
pub proof fn law_examples_are_the_described_queries(
    pairs: Seq<(Seq<char>, Seq<char>)>,
    i: int,
)
    requires
        0 <= i < pairs.len(),
    ensures
        meta::examples_of(pairs).len() == pairs.len(),
        meta::examples_of(pairs)[i].description == pairs[i].0,
        meta::examples_of(pairs)[i].sql == pairs[i].1,
        meta::examples_of(pairs)[i].expected_output is None,
{
}

/// What is kept of a text under [`Escaping::Layout`] is the text without its carriage returns,
/// with a space for each tab, and nothing else is changed.
pub proof fn law_layout_changes_nothing_else(a: Seq<char>, c: char, b: Seq<char>)
    ensures
        kept(a + b, Escaping::Layout) == kept(a, Escaping::Layout) + kept(b, Escaping::Layout),
        kept(seq![c], Escaping::Layout) == (if c == '\r' {
            Seq::<char>::empty()
        } else if c == '\t' {
            seq![' ']
        } else {
            seq![c]
        }),
    decreases a.len(),
{
    assert(seq![c].drop_first() =~= seq![]);
    assert(kept(seq![c].drop_first(), Escaping::Layout).len() == 0);
    assert(kept(seq![c], Escaping::Layout) =~= (if c == '\r' {
        Seq::<char>::empty()
    } else if c == '\t' {
        seq![' ']
    } else {
        seq![c]
    }));
    if a.len() == 0 {
        assert(a + b =~= b);
        assert(kept(a, Escaping::Layout) + kept(b, Escaping::Layout) =~= kept(
            b,
            Escaping::Layout,
        ));
    } else {
        law_layout_changes_nothing_else(a.drop_first(), c, b);
        assert((a + b).drop_first() =~= a.drop_first() + b);
        assert(kept(a + b, Escaping::Layout) =~= kept(a, Escaping::Layout) + kept(
            b,
            Escaping::Layout,
        ));
    }
}

/// Whether a character is a decimal digit or a small letter up to f.
pub open spec fn is_small_hex(c: char) -> bool {
    '0' <= c <= '9' || 'a' <= c <= 'f'
}

/// A text is escaped character by character. The backslash and the quote get a backslash, the
/// line feed, the carriage return and the tab their letter, every other control character below
/// the space its number in small letters, and all other characters stay.
pub proof fn law_characters_are_escaped_alone(a: Seq<char>, c: char, b: Seq<char>)
    ensures
        meta::escaped(a + b, Escaping::Exact) == meta::escaped(a, Escaping::Exact) + meta::escaped(
            b,
            Escaping::Exact,
        ),
        meta::escaped(seq!['"'], Escaping::Exact) == seq!['\\', '"'],
        meta::escaped(seq!['\\'], Escaping::Exact) == seq!['\\', '\\'],
        meta::escaped(seq!['\n'], Escaping::Exact) == seq!['\\', 'n'],
        meta::escaped(seq!['\r'], Escaping::Exact) == seq!['\\', 'r'],
        meta::escaped(seq!['\t'], Escaping::Exact) == seq!['\\', 't'],
        ' ' <= c && c != '"' && c != '\\' ==> meta::escaped(seq![c], Escaping::Exact) == seq![c],
        c < ' ' && c != '\n' && c != '\r' && c != '\t' ==> {
            let text = meta::escaped(seq![c], Escaping::Exact);
            &&& text.len() == 6
            &&& text.take(2) == seq!['\\', 'u']
            &&& numbered_char(text.skip(2)) == Some(c)
            &&& forall|i: int| 2 <= i < 6 ==> is_small_hex(#[trigger] text[i])
        },
    decreases b.len(),
{
    let alone = |x: char| meta::escaped(seq![x], Escaping::Exact);
    assert forall|x: char| #[trigger] alone(x) == meta::escaped_char(x, Escaping::Exact) by {
        assert(seq![x].drop_last() =~= seq![]);
        assert(meta::escaped(seq![x].drop_last(), Escaping::Exact).len() == 0);
        assert(meta::escaped(seq![x], Escaping::Exact) =~= meta::escaped_char(
            x,
            Escaping::Exact,
        ));
    }
    assert(alone('"') == seq!['\\', '"']);
    assert(alone('\\') == seq!['\\', '\\']);
    assert(alone('\n') == seq!['\\', 'n']);
    assert(alone('\r') == seq!['\\', 'r']);
    assert(alone('\t') == seq!['\\', 't']);
    assert(alone(c) == meta::escaped_char(c, Escaping::Exact));
    if b.len() == 0 {
        assert(a + b =~= a);
        assert(meta::escaped(b, Escaping::Exact).len() == 0);
        assert(meta::escaped(a, Escaping::Exact) + meta::escaped(b, Escaping::Exact)
            =~= meta::escaped(a, Escaping::Exact));
    } else {
        law_characters_are_escaped_alone(a, c, b.drop_last());
        assert((a + b).drop_last() =~= a + b.drop_last());
        assert(meta::escaped(a + b, Escaping::Exact) =~= meta::escaped(a, Escaping::Exact)
            + meta::escaped(b, Escaping::Exact));
    }
}

} // verus!
