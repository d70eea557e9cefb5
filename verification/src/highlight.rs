//! The shape of a line of a description or a manifest, for colouring.

use vstd::prelude::*;
use vstd::string::StringExecFns;
use crate::text::{chars_of, is_whitespace, slice_text, spec_is_whitespace};

verus! {

/// What sort of value stands behind a key.
#[derive(Debug, Clone, Copy, PartialEq, Eq, Structural)]
pub enum ValueKind {
    /// Begins and ends with a double quote.
    Quoted,
    /// `true` or `false`.
    Truth,
    /// `null` or `~`.
    Null,
    /// Anything else: a number or plain text.
    Other,
}

/// The shape of a line, without its indentation.
#[derive(Debug)]
pub enum LineShape {
    /// A comment: the whole line from the `#` on.
    Comment(String),
    /// A list item: what follows the dash.
    ListItem(String),
    /// A key, its colon, and the value if there is one.
    KeyValue { key: String, value: Option<(String, ValueKind)> },
    /// A separator made of equals signs.
    Separator(String),
    /// Plain text.
    Plain(String),
}

/// What a `LineShape` holds.
pub ghost enum LineShapeView {
    Comment(Seq<char>),
    ListItem(Seq<char>),
    KeyValue { key: Seq<char>, value: Option<(Seq<char>, ValueKind)> },
    Separator(Seq<char>),
    Plain(Seq<char>),
}

impl View for LineShape {
    type V = LineShapeView;

    open spec fn view(&self) -> LineShapeView {
        match *self {
            LineShape::Comment(text) => LineShapeView::Comment(text@),
            LineShape::ListItem(rest) => LineShapeView::ListItem(rest@),
            LineShape::KeyValue { key, value } => LineShapeView::KeyValue {
                key: key@,
                value: match value {
                    Some((text, kind)) => Some((text@, kind)),
                    None => None,
                },
            },
            LineShape::Separator(text) => LineShapeView::Separator(text@),
            LineShape::Plain(text) => LineShapeView::Plain(text@),
        }
    }
}

/// The position of the first character of `s` at or after `from` that is
/// no white space; the length of `s` if there is none.
pub open spec fn skip_blank(s: Seq<char>, from: int) -> int
    decreases s.len() - from,
{
    if from < 0 || from >= s.len() {
        s.len() as int
    } else if spec_is_whitespace(s[from]) {
        skip_blank(s, from + 1)
    } else {
        from
    }
}

/// The position of the first `c` in `s` at or after `from`; the length of
/// `s` if there is none.
pub open spec fn position_of(s: Seq<char>, c: char, from: int) -> int
    decreases s.len() - from,
{
    if from < 0 || from >= s.len() {
        s.len() as int
    } else if s[from] == c {
        from
    } else {
        position_of(s, c, from + 1)
    }
}

/// The sort of the value `value`, which is not empty.
pub open spec fn value_kind(value: Seq<char>) -> ValueKind {
    if value.len() > 0 && value[0] == '"' && value.last() == '"' {
        ValueKind::Quoted
    } else if value == "true"@ || value == "false"@ {
        ValueKind::Truth
    } else if value == "null"@ || value == "~"@ {
        ValueKind::Null
    } else {
        ValueKind::Other
    }
}

/// The shape of the line `text`, which begins with no white space: a
/// comment if it begins with `#`, a list item if it begins with a dash, a
/// key with its value if it holds a colon, a separator if it begins with
/// four equals signs, and plain text else.
pub open spec fn shape_of(text: Seq<char>) -> LineShapeView {
    let colon = position_of(text, ':', 0);
    if text.len() > 0 && text[0] == '#' {
        LineShapeView::Comment(text)
    } else if text.len() > 0 && text[0] == '-' {
        LineShapeView::ListItem(text.subrange(1, text.len() as int))
    } else if colon < text.len() {
        let start = skip_blank(text, colon + 1);
        LineShapeView::KeyValue {
            key: text.subrange(0, colon),
            value: if start < text.len() {
                let value = text.subrange(start, text.len() as int);
                Some((value, value_kind(value)))
            } else {
                None
            },
        }
    } else if text.len() >= 4 && text.subrange(0, 4) == "===="@ {
        LineShapeView::Separator(text)
    } else {
        LineShapeView::Plain(text)
    }
}

/// The position of the first character of `chars` at or after `from` that
/// is no white space.
fn first_visible(chars: &Vec<char>, from: usize) -> (at: usize)
    ensures
        at == skip_blank(chars@, from as int),
        from <= chars.len() ==> from <= at <= chars.len(),
        at >= chars.len() ==> at == chars.len(),
{
    let mut i: usize = from;
    while i < chars.len()
        invariant
            from <= i,
            skip_blank(chars@, from as int) == skip_blank(chars@, i as int),
        decreases chars.len() - i,
    {
        if !is_whitespace(chars[i]) {
            return i;
        }
        i = i + 1;
    }
    chars.len()
}

/// The position of the first `c` in `chars`.
fn first_position(chars: &Vec<char>, c: char) -> (at: usize)
    ensures
        at == position_of(chars@, c, 0),
        at <= chars.len(),
{
    let mut i: usize = 0;
    while i < chars.len()
        invariant
            i <= chars.len(),
            position_of(chars@, c, 0) == position_of(chars@, c, i as int),
        decreases chars.len() - i,
    {
        if chars[i] == c {
            return i;
        }
        i = i + 1;
    }
    chars.len()
}

/// Whether `chars` from position `from` on are exactly the characters of
/// `word`.
fn rest_is(chars: &Vec<char>, from: usize, word: &str) -> (same: bool)
    requires
        from <= chars.len(),
    ensures
        same == (chars@.subrange(from as int, chars.len() as int) == word@),
{
    let w = chars_of(word);
    let ghost rest = chars@.subrange(from as int, chars.len() as int);
    if chars.len() - from != w.len() {
        return false;
    }
    let mut i: usize = 0;
    while i < w.len()
        invariant
            i <= w.len(),
            from + w.len() == chars.len(),
            w@ == word@,
            rest == chars@.subrange(from as int, chars.len() as int),
            forall|k: int| 0 <= k < i ==> chars@[from + k] == w@[k],
        decreases w.len() - i,
    {
        if chars[from + i] != w[i] {
            assert(rest[i as int] != word@[i as int]);
            return false;
        }
        i = i + 1;
    }
    assert(rest =~= word@);
    true
}

/// The sort of the value that `chars` hold from position `from` on.
fn kind_of_value(chars: &Vec<char>, from: usize) -> (kind: ValueKind)
    requires
        from < chars.len(),
    ensures
        kind == value_kind(chars@.subrange(from as int, chars.len() as int)),
{
    let ghost value = chars@.subrange(from as int, chars.len() as int);
    assert(value[0] == chars@[from as int]);
    assert(value.last() == chars@[chars.len() - 1]);
    if chars[from] == '"' && chars[chars.len() - 1] == '"' {
        ValueKind::Quoted
    } else if rest_is(chars, from, "true") || rest_is(chars, from, "false") {
        ValueKind::Truth
    } else if rest_is(chars, from, "null") || rest_is(chars, from, "~") {
        ValueKind::Null
    } else {
        ValueKind::Other
    }
}

/// Number of characters of white space that `line` begins with, and the
/// shape of what follows them.
pub fn highlight_yaml_line(line: &str) -> (result: (usize, LineShape))
    ensures
        result.0 == skip_blank(line@, 0),
        result.0 <= line@.len(),
        result.1@ == shape_of(line@.subrange(result.0 as int, line@.len() as int)),
{
    let all = chars_of(line);
    let indent = first_visible(&all, 0);
    let trimmed = slice_text(line, indent, all.len());
    let chars = chars_of(trimmed.as_str());
    let text = trimmed.as_str();
    let colon = first_position(&chars, ':');
    let shape = if chars.len() > 0 && chars[0] == '#' {
        LineShape::Comment(String::from_str(text))
    } else if chars.len() > 0 && chars[0] == '-' {
        LineShape::ListItem(slice_text(text, 1, chars.len()))
    } else if colon < chars.len() {
        let start = first_visible(&chars, colon + 1);
        let value = if start < chars.len() {
            Some((slice_text(text, start, chars.len()), kind_of_value(&chars, start)))
        } else {
            None
        };
        LineShape::KeyValue { key: slice_text(text, 0, colon), value }
    } else if chars.len() >= 4 && chars[0] == '=' && chars[1] == '=' && chars[2] == '=' && chars[3]
        == '=' {
        proof {
            reveal_strlit("====");
            assert(chars@.subrange(0, 4) =~= "===="@);
        }
        LineShape::Separator(String::from_str(text))
    } else {
        proof {
            reveal_strlit("====");
            if chars.len() >= 4 {
                let head = chars@.subrange(0, 4);
                assert(head[0] == chars@[0] && head[1] == chars@[1] && head[2] == chars@[2]
                    && head[3] == chars@[3]);
            }
        }
        LineShape::Plain(String::from_str(text))
    };
    (indent, shape)
}

} // verus!
