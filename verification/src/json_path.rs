//! A small path language over JSON documents.
//!
//! A path is a sequence of segments separated by dots; empty segments are
//! skipped. A segment is a member name, or an optional member name followed
//! by bracketed indices, as in `.items[2].name` or `[0][1]`.

use vstd::prelude::*;
use crate::json::{json_field, json_item, json_model, models, JsonView};
use crate::text::chars_of;

verus! {

/// The position of the first `c` in `s` at or after `from`, or the length of
/// `s` if there is none.
pub open spec fn find_from(s: Seq<char>, c: char, from: int) -> int
    decreases s.len() - from,
{
    if from < 0 || from >= s.len() {
        s.len() as int
    } else if s[from] == c {
        from
    } else {
        find_from(s, c, from + 1)
    }
}

/// What `find_from` finds lies at or after `from`, holds `c` if it lies
/// within `s`, and has no `c` before it.
pub proof fn lemma_find_from(s: Seq<char>, c: char, from: int)
    requires
        0 <= from <= s.len(),
    ensures
        from <= find_from(s, c, from) <= s.len(),
        find_from(s, c, from) < s.len() ==> s[find_from(s, c, from)] == c,
        forall|i: int| from <= i < find_from(s, c, from) ==> s[i] != c,
    decreases s.len() - from,
{
    if from < s.len() && s[from] != c {
        lemma_find_from(s, c, from + 1);
    }
}

/// Whether a character is one of the decimal digits `0` to `9`.
pub open spec fn is_digit(c: char) -> bool {
    '0' <= c && c <= '9'
}

/// The number that a sequence of decimal digits stands for.
pub open spec fn digits_value(digits: Seq<char>) -> nat
    decreases digits.len(),
{
    if digits.len() == 0 {
        0
    } else {
        (digits_value(digits.drop_last()) * 10 + (digits.last() as int - '0' as int)) as nat
    }
}

/// The number that `digits` stands for, if it holds decimal digits only and
/// at least one.
pub open spec fn unsigned_value(digits: Seq<char>) -> Option<nat> {
    if digits.len() > 0 && forall|i: int| 0 <= i < digits.len() ==> is_digit(#[trigger] digits[i]) {
        Some(digits_value(digits))
    } else {
        None
    }
}

/// The index that the text between two brackets stands for: decimal digits,
/// at least one, after an optional `+`.
pub open spec fn index_value(text: Seq<char>) -> Option<nat> {
    if text.len() > 0 && text[0] == '+' {
        unsigned_value(text.drop_first())
    } else {
        unsigned_value(text)
    }
}

/// Follows the bracketed indices of `segment` that start at `at`, where an
/// opening bracket stands. Each index runs to the next closing bracket; after
/// it, another opening bracket starts the next index, and anything else ends
/// the segment.
pub open spec fn resolve_indices(doc: JsonView, segment: Seq<char>, at: int) -> Option<JsonView>
    decreases segment.len() - at,
    via resolve_indices_decreases
{
    let close = find_from(segment, ']', at + 1);
    if at < 0 || close >= segment.len() {
        None
    } else {
        match index_value(segment.subrange(at + 1, close)) {
            None => None,
            Some(index) => match doc.item(index) {
                None => None,
                Some(inner) => if close + 1 < segment.len() && segment[close + 1] == '[' {
                    resolve_indices(inner, segment, close + 1)
                } else {
                    Some(inner)
                },
            },
        }
    }
}

#[via_fn]
proof fn resolve_indices_decreases(doc: JsonView, segment: Seq<char>, at: int) {
    if 0 <= at && at + 1 <= segment.len() {
        lemma_find_from(segment, ']', at + 1);
    }
}

/// Follows one segment of a path. The empty segment stays where it is.
pub open spec fn resolve_segment(doc: JsonView, segment: Seq<char>) -> Option<JsonView> {
    let open = find_from(segment, '[', 0);
    if segment.len() == 0 {
        Some(doc)
    } else if open >= segment.len() {
        doc.field(segment)
    } else if open == 0 {
        resolve_indices(doc, segment, open)
    } else {
        match doc.field(segment.subrange(0, open)) {
            None => None,
            Some(inner) => resolve_indices(inner, segment, open),
        }
    }
}

/// Follows the segments of `path` that start at or after `pos`.
pub open spec fn resolve_from(doc: JsonView, path: Seq<char>, pos: int) -> Option<JsonView>
    decreases path.len() - pos,
    via resolve_from_decreases
{
    if pos < 0 || pos >= path.len() {
        Some(doc)
    } else {
        let dot = find_from(path, '.', pos);
        match resolve_segment(doc, path.subrange(pos, dot)) {
            None => None,
            Some(inner) => if dot < path.len() {
                resolve_from(inner, path, dot + 1)
            } else {
                Some(inner)
            },
        }
    }
}

#[via_fn]
proof fn resolve_from_decreases(doc: JsonView, path: Seq<char>, pos: int) {
    if 0 <= pos && pos < path.len() {
        lemma_find_from(path, '.', pos);
    }
}

/// The value that `path` leads to in `doc`, or `None` if it leads nowhere.
pub open spec fn resolve_path(doc: JsonView, path: Seq<char>) -> Option<JsonView> {
    resolve_from(doc, path, 0)
}

/// The empty path leads to the document itself.
pub proof fn law_empty_path(doc: JsonView)
    ensures
        resolve_path(doc, Seq::empty()) == Some(doc),
{
}

/// A path of separators alone leads to the document itself.
pub proof fn law_separators_are_skipped(doc: JsonView, path: Seq<char>)
    requires
        forall|i: int| 0 <= i < path.len() ==> path[i] == '.',
    ensures
        resolve_path(doc, path) == Some(doc),
{
    lemma_dots_from(doc, path, 0);
}

proof fn lemma_dots_from(doc: JsonView, path: Seq<char>, pos: int)
    requires
        0 <= pos <= path.len(),
        forall|i: int| 0 <= i < path.len() ==> path[i] == '.',
    ensures
        resolve_from(doc, path, pos) == Some(doc),
    decreases path.len() - pos,
{
    if pos < path.len() {
        assert(find_from(path, '.', pos) == pos);
        assert(path.subrange(pos, pos).len() == 0);
        lemma_dots_from(doc, path, pos + 1);
    }
}

/// Where `then` is applied to what `first` gave, if it gave anything.
pub open spec fn and_then_resolve(first: Option<JsonView>, then: Seq<char>) -> Option<JsonView> {
    match first {
        Some(doc) => resolve_path(doc, then),
        None => None,
    }
}

/// Paths compose: following `first`, a dot and `second` is following
/// `first` and then, from where it led, `second`.
pub proof fn law_paths_compose(doc: JsonView, first: Seq<char>, second: Seq<char>)
    ensures
        resolve_path(doc, first + seq!['.'] + second) == and_then_resolve(
            resolve_path(doc, first),
            second,
        ),
{
    lemma_compose_head(doc, first, second, 0);
}

proof fn lemma_find_in_front(a: Seq<char>, b: Seq<char>, c: char, pos: int)
    requires
        0 <= pos <= a.len(),
    ensures
        find_from(a + b, c, pos) == if find_from(a, c, pos) < a.len() {
            find_from(a, c, pos)
        } else {
            a.len() + find_from(b, c, 0)
        },
    decreases a.len() - pos,
{
    lemma_find_from(a, c, pos);
    if pos < a.len() {
        assert((a + b)[pos] == a[pos]);
        if a[pos] != c {
            lemma_find_in_front(a, b, c, pos + 1);
        }
    } else {
        lemma_find_behind(a, b, c, 0);
    }
}

proof fn lemma_find_behind(a: Seq<char>, b: Seq<char>, c: char, k: int)
    requires
        0 <= k <= b.len(),
    ensures
        find_from(a + b, c, a.len() + k) == a.len() + find_from(b, c, k),
    decreases b.len() - k,
{
    if k < b.len() {
        assert((a + b)[a.len() + k] == b[k]);
        if b[k] != c {
            lemma_find_behind(a, b, c, k + 1);
        }
    }
}

proof fn lemma_compose_tail(doc: JsonView, first: Seq<char>, second: Seq<char>, k: int)
    requires
        0 <= k <= second.len(),
    ensures
        resolve_from(doc, first + seq!['.'] + second, first.len() + 1 + k) == resolve_from(
            doc,
            second,
            k,
        ),
    decreases second.len() - k,
{
    let front = first + seq!['.'];
    let whole = front + second;
    if k < second.len() {
        let dot = find_from(second, '.', k);
        lemma_find_from(second, '.', k);
        lemma_find_behind(front, second, '.', k);
        assert(whole.subrange(front.len() + k, front.len() + dot) =~= second.subrange(k, dot));
        match resolve_segment(doc, second.subrange(k, dot)) {
            Some(inner) => {
                if dot < second.len() {
                    lemma_compose_tail(inner, first, second, dot + 1);
                }
            },
            None => {},
        }
    }
}

proof fn lemma_compose_head(doc: JsonView, first: Seq<char>, second: Seq<char>, pos: int)
    requires
        0 <= pos <= first.len(),
    ensures
        resolve_from(doc, first + seq!['.'] + second, pos) == and_then_resolve(
            resolve_from(doc, first, pos),
            second,
        ),
    decreases first.len() - pos,
{
    let tail = seq!['.'] + second;
    let whole = first + seq!['.'] + second;
    assert(whole =~= first + tail);
    let dot = find_from(first, '.', pos);
    lemma_find_from(first, '.', pos);
    lemma_find_in_front(first, tail, '.', pos);
    assert(find_from(tail, '.', 0) == 0);
    assert(find_from(whole, '.', pos) == dot);
    assert(whole.subrange(pos, dot) =~= first.subrange(pos, dot));
    if pos < first.len() {
        match resolve_segment(doc, first.subrange(pos, dot)) {
            Some(inner) => {
                if dot < first.len() {
                    lemma_compose_head(inner, first, second, dot + 1);
                } else {
                    lemma_compose_tail(inner, first, second, 0);
                }
            },
            None => {},
        }
    } else {
        assert(whole.subrange(pos, pos).len() == 0);
        lemma_compose_tail(doc, first, second, 0);
    }
}

/// The largest index that can be looked up: larger ones are looked up as
/// this one, which no array has.
pub open spec fn saturated(index: nat) -> nat {
    if index > usize::MAX {
        usize::MAX as nat
    } else {
        index
    }
}

fn find_char(chars: &Vec<char>, c: char, from: usize) -> (at: usize)
    requires
        from <= chars.len(),
    ensures
        at == find_from(chars@, c, from as int),
        from <= at <= chars.len(),
{
    let mut at = from;
    while at < chars.len() && chars[at] != c
        invariant
            from <= at <= chars.len(),
            find_from(chars@, c, from as int) == find_from(chars@, c, at as int),
        decreases chars.len() - at,
    {
        at += 1;
    }
    at
}

proof fn lemma_digits_value_push(digits: Seq<char>, c: char)
    ensures
        digits_value(digits.push(c)) == (digits_value(digits) * 10 + (c as int - '0' as int))
            as nat,
{
    assert(digits.push(c).drop_last() =~= digits);
}

/// Reads the index written in `chars[from..to]`, saturated.
#[verifier::loop_isolation(false)]
fn parse_index(chars: &Vec<char>, from: usize, to: usize) -> (r: Option<usize>)
    requires
        from <= to <= chars.len(),
    ensures
        match r {
            Some(k) => index_value(chars@.subrange(from as int, to as int)) matches Some(n)
                && k == saturated(n),
            None => index_value(chars@.subrange(from as int, to as int)) is None,
        },
{
    let ghost text = chars@.subrange(from as int, to as int);
    let start = if from < to && chars[from] == '+' {
        from + 1
    } else {
        from
    };
    let ghost digits = if text.len() > 0 && text[0] == '+' {
        text.drop_first()
    } else {
        text
    };
    assert(digits =~= chars@.subrange(start as int, to as int));
    if start == to {
        return None;
    }
    let mut value: usize = 0;
    let mut i = start;
    while i < to
        invariant
            start <= i <= to <= chars.len(),
            digits == chars@.subrange(start as int, to as int),
            forall|j: int| 0 <= j < i - start ==> is_digit(#[trigger] digits[j]),
            value == saturated(digits_value(digits.take(i - start))),
        decreases to - i,
    {
        let c = chars[i];
        if !(c >= '0' && c <= '9') {
            assert(!is_digit(digits[i - start]));
            return None;
        }
        let d: usize = (c as u32 - '0' as u32) as usize;
        proof {
            lemma_digits_value_push(digits.take(i - start), c);
            assert(digits.take(i - start).push(c) =~= digits.take(i - start + 1));
        }
        if value > (usize::MAX - d) / 10 {
            value = usize::MAX;
        } else {
            value = value * 10 + d;
        }
        i += 1;
    }
    assert(digits.take(to - start) =~= digits);
    Some(value)
}

#[verifier::loop_isolation(false)]
fn follow_indices<'a>(doc: &'a serde_json::Value, chars: &Vec<char>, first: usize) -> (r: Option<
    &'a serde_json::Value,
>)
    requires
        first < chars.len(),
    ensures
        models(r, resolve_indices(json_model(*doc), chars@, first as int)),
{
    let mut current = doc;
    let mut at = first;
    loop
        invariant
            at < chars.len(),
            resolve_indices(json_model(*doc), chars@, first as int) == resolve_indices(
                json_model(*current),
                chars@,
                at as int,
            ),
        decreases chars.len() - at,
    {
        let close = find_char(chars, ']', at + 1);
        if close >= chars.len() {
            return None;
        }
        let index = match parse_index(chars, at + 1, close) {
            Some(index) => index,
            None => {
                return None;
            },
        };
        let inner = match json_item(current, index) {
            Some(inner) => inner,
            None => {
                return None;
            },
        };
        if close + 1 < chars.len() && chars[close + 1] == '[' {
            current = inner;
            at = close + 1;
        } else {
            return Some(inner);
        }
    }
}

fn follow_segment<'a>(doc: &'a serde_json::Value, segment: &str) -> (r: Option<
    &'a serde_json::Value,
>)
    ensures
        models(r, resolve_segment(json_model(*doc), segment@)),
{
    let chars = chars_of(segment);
    if chars.len() == 0 {
        return Some(doc);
    }
    let open = find_char(&chars, '[', 0);
    if open >= chars.len() {
        json_field(doc, segment)
    } else if open == 0 {
        follow_indices(doc, &chars, open)
    } else {
        let name = segment.substring_char(0, open);
        match json_field(doc, name) {
            Some(inner) => follow_indices(inner, &chars, open),
            None => None,
        }
    }
}

/// Extracts the value that `path` leads to in `json`.
///
/// The empty path leads to the document itself. A member that is missing, an
/// index that is out of range or not a number, a bracket that is never
/// closed, a member of something that is no object and an element of
/// something that is no array all make the path lead nowhere.
#[verifier::loop_isolation(false)]
pub fn extract_json_path<'a>(json: &'a serde_json::Value, path: &str) -> (r: Option<
    &'a serde_json::Value,
>)
    ensures
        models(r, resolve_path(json_model(*json), path@)),
{
    let chars = chars_of(path);
    let mut current = json;
    let mut pos: usize = 0;
    while pos < chars.len()
        invariant
            chars@ == path@,
            pos <= chars.len(),
            resolve_path(json_model(*json), path@) == resolve_from(
                json_model(*current),
                path@,
                pos as int,
            ),
        decreases chars.len() - pos,
    {
        let dot = find_char(&chars, '.', pos);
        let segment = path.substring_char(pos, dot);
        match follow_segment(current, segment) {
            Some(inner) => {
                current = inner;
            },
            None => {
                return None;
            },
        }
        if dot < chars.len() {
            pos = dot + 1;
        } else {
            return Some(current);
        }
    }
    Some(current)
}

} // verus!
